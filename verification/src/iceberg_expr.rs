//! Unbound Iceberg filter expressions: references to columns by name,
//! literal values, and predicates over them, with the combinators `and`,
//! `or` and `negate`.

use vstd::prelude::*;

verus! {

/// A reference to a column by name.
#[derive(Debug, PartialEq, Eq)]
pub struct Reference {
    /// The column's name.
    pub name: String,
}

impl View for Reference {
    type V = Seq<char>;

    open spec fn view(&self) -> Seq<char> {
        self.name@
    }
}

impl Reference {
    /// A reference to the column of the given name.
    pub fn new(name: String) -> (r: Reference)
        ensures
            r.name == name,
    {
        Reference { name }
    }
}

/// The operator of a unary or binary predicate.
#[derive(Clone, Copy, Debug, PartialEq, Eq, Structural)]
pub enum PredicateOperator {
    /// `a IS NULL`.
    IsNull,
    /// `a IS NOT NULL`.
    NotNull,
    /// `a < x`.
    LessThan,
    /// `a <= x`.
    LessThanOrEq,
    /// `a > x`.
    GreaterThan,
    /// `a >= x`.
    GreaterThanOrEq,
    /// `a = x`.
    Eq,
    /// `a != x`.
    NotEq,
}

/// The operator that holds exactly where `op` does not.
pub open spec fn spec_negate_operator(op: PredicateOperator) -> PredicateOperator {
    match op {
        PredicateOperator::IsNull => PredicateOperator::NotNull,
        PredicateOperator::NotNull => PredicateOperator::IsNull,
        PredicateOperator::LessThan => PredicateOperator::GreaterThanOrEq,
        PredicateOperator::LessThanOrEq => PredicateOperator::GreaterThan,
        PredicateOperator::GreaterThan => PredicateOperator::LessThanOrEq,
        PredicateOperator::GreaterThanOrEq => PredicateOperator::LessThan,
        PredicateOperator::Eq => PredicateOperator::NotEq,
        PredicateOperator::NotEq => PredicateOperator::Eq,
    }
}

impl PredicateOperator {
    /// The operator that holds exactly where this one does not.
    pub fn negate(self) -> (r: PredicateOperator)
        ensures
            r == spec_negate_operator(self),
    {
        match self {
            PredicateOperator::IsNull => PredicateOperator::NotNull,
            PredicateOperator::NotNull => PredicateOperator::IsNull,
            PredicateOperator::LessThan => PredicateOperator::GreaterThanOrEq,
            PredicateOperator::LessThanOrEq => PredicateOperator::GreaterThan,
            PredicateOperator::GreaterThan => PredicateOperator::LessThanOrEq,
            PredicateOperator::GreaterThanOrEq => PredicateOperator::LessThan,
            PredicateOperator::Eq => PredicateOperator::NotEq,
            PredicateOperator::NotEq => PredicateOperator::Eq,
        }
    }
}

/// A literal value of an Iceberg primitive type. Floating-point values are
/// held as their IEEE 754 bit patterns.
#[derive(Debug, PartialEq, Eq)]
pub enum Datum {
    Bool(bool),
    Int(i32),
    Long(i64),
    /// The bits of an `f32`.
    Float(u32),
    /// The bits of an `f64`.
    Double(u64),
    /// Days since the epoch.
    Date(i32),
    /// Microseconds since the epoch, without time zone.
    TimestampMicros(i64),
    String(String),
    Binary(Vec<u8>),
    /// A decimal of the given precision and scale, by its unscaled value.
    Decimal { precision: u32, scale: u32, unscaled: i128 },
}

/// The mathematical value of a [`Datum`].
pub enum DatumView {
    Bool(bool),
    Int(i32),
    Long(i64),
    Float(u32),
    Double(u64),
    Date(i32),
    TimestampMicros(i64),
    String(Seq<char>),
    Binary(Seq<u8>),
    Decimal { precision: u32, scale: u32, unscaled: i128 },
}

impl View for Datum {
    type V = DatumView;

    open spec fn view(&self) -> DatumView {
        match self {
            Datum::Bool(b) => DatumView::Bool(*b),
            Datum::Int(v) => DatumView::Int(*v),
            Datum::Long(v) => DatumView::Long(*v),
            Datum::Float(v) => DatumView::Float(*v),
            Datum::Double(v) => DatumView::Double(*v),
            Datum::Date(v) => DatumView::Date(*v),
            Datum::TimestampMicros(v) => DatumView::TimestampMicros(*v),
            Datum::String(s) => DatumView::String(s@),
            Datum::Binary(b) => DatumView::Binary(b@),
            Datum::Decimal { precision, scale, unscaled } => DatumView::Decimal {
                precision: *precision,
                scale: *scale,
                unscaled: *unscaled,
            },
        }
    }
}

/// An unbound predicate: a filter over columns referred to by name.
#[derive(Debug, PartialEq, Eq)]
pub enum Predicate {
    /// Holds of every row.
    AlwaysTrue,
    /// Holds of no row.
    AlwaysFalse,
    /// Both operands hold.
    And(Box<Predicate>, Box<Predicate>),
    /// Either operand holds.
    Or(Box<Predicate>, Box<Predicate>),
    /// A test on a column alone, such as `a IS NULL`.
    Unary(PredicateOperator, Reference),
    /// A comparison of a column with a literal, such as `a < 10`.
    Binary(PredicateOperator, Reference, Datum),
}

/// The mathematical value of a [`Predicate`].
pub enum PredicateView {
    AlwaysTrue,
    AlwaysFalse,
    And(Box<PredicateView>, Box<PredicateView>),
    Or(Box<PredicateView>, Box<PredicateView>),
    Unary(PredicateOperator, Seq<char>),
    Binary(PredicateOperator, Seq<char>, DatumView),
}

/// The value of a predicate.
pub open spec fn predicate_view(p: Predicate) -> PredicateView
    decreases p,
{
    match p {
        Predicate::AlwaysTrue => PredicateView::AlwaysTrue,
        Predicate::AlwaysFalse => PredicateView::AlwaysFalse,
        Predicate::And(a, b) => PredicateView::And(
            Box::new(predicate_view(*a)),
            Box::new(predicate_view(*b)),
        ),
        Predicate::Or(a, b) => PredicateView::Or(
            Box::new(predicate_view(*a)),
            Box::new(predicate_view(*b)),
        ),
        Predicate::Unary(op, r) => PredicateView::Unary(op, r@),
        Predicate::Binary(op, r, d) => PredicateView::Binary(op, r@, d@),
    }
}

impl View for Predicate {
    type V = PredicateView;

    open spec fn view(&self) -> PredicateView {
        predicate_view(*self)
    }
}

impl PredicateView {
    /// The conjunction, with `AlwaysTrue` and `AlwaysFalse` operands folded
    /// away.
    pub open spec fn and(self, other: PredicateView) -> PredicateView {
        if self is AlwaysFalse || other is AlwaysFalse {
            PredicateView::AlwaysFalse
        } else if self is AlwaysTrue {
            other
        } else if other is AlwaysTrue {
            self
        } else {
            PredicateView::And(Box::new(self), Box::new(other))
        }
    }

    /// The disjunction, with `AlwaysTrue` and `AlwaysFalse` operands folded
    /// away.
    pub open spec fn or(self, other: PredicateView) -> PredicateView {
        if self is AlwaysTrue || other is AlwaysTrue {
            PredicateView::AlwaysTrue
        } else if self is AlwaysFalse {
            other
        } else if other is AlwaysFalse {
            self
        } else {
            PredicateView::Or(Box::new(self), Box::new(other))
        }
    }

    /// The negation, pushed down to the leaves by De Morgan's laws and by
    /// inverting operators.
    pub open spec fn negate(self) -> PredicateView
        decreases self,
    {
        match self {
            PredicateView::AlwaysTrue => PredicateView::AlwaysFalse,
            PredicateView::AlwaysFalse => PredicateView::AlwaysTrue,
            PredicateView::And(a, b) => PredicateView::Or(
                Box::new(a.negate()),
                Box::new(b.negate()),
            ),
            PredicateView::Or(a, b) => PredicateView::And(
                Box::new(a.negate()),
                Box::new(b.negate()),
            ),
            PredicateView::Unary(op, r) => PredicateView::Unary(spec_negate_operator(op), r),
            PredicateView::Binary(op, r, d) => PredicateView::Binary(
                spec_negate_operator(op),
                r,
                d,
            ),
        }
    }

    /// No `AlwaysTrue` or `AlwaysFalse` stands as an operand of `And` or
    /// `Or`.
    pub open spec fn is_simplified(self) -> bool
        decreases self,
    {
        match self {
            PredicateView::And(a, b) | PredicateView::Or(a, b) => {
                &&& !(*a is AlwaysTrue || *a is AlwaysFalse)
                &&& !(*b is AlwaysTrue || *b is AlwaysFalse)
                &&& a.is_simplified()
                &&& b.is_simplified()
            },
            _ => true,
        }
    }
}

impl Predicate {
    /// Combines two predicates with `AND`.
    pub fn and(self, other: Predicate) -> (r: Predicate)
        ensures
            r@ == self@.and(other@),
    {
        match (self, other) {
            (Predicate::AlwaysFalse, _) => Predicate::AlwaysFalse,
            (_, Predicate::AlwaysFalse) => Predicate::AlwaysFalse,
            (Predicate::AlwaysTrue, rhs) => rhs,
            (lhs, Predicate::AlwaysTrue) => lhs,
            (lhs, rhs) => Predicate::And(Box::new(lhs), Box::new(rhs)),
        }
    }

    /// Combines two predicates with `OR`.
    pub fn or(self, other: Predicate) -> (r: Predicate)
        ensures
            r@ == self@.or(other@),
    {
        match (self, other) {
            (Predicate::AlwaysTrue, _) => Predicate::AlwaysTrue,
            (_, Predicate::AlwaysTrue) => Predicate::AlwaysTrue,
            (Predicate::AlwaysFalse, rhs) => rhs,
            (lhs, Predicate::AlwaysFalse) => lhs,
            (lhs, rhs) => Predicate::Or(Box::new(lhs), Box::new(rhs)),
        }
    }

    /// The negation of this predicate, by inverse predicates rather than a
    /// `NOT` wrapper.
    pub fn negate(self) -> (r: Predicate)
        ensures
            r@ == self@.negate(),
        decreases self,
    {
        match self {
            Predicate::AlwaysTrue => Predicate::AlwaysFalse,
            Predicate::AlwaysFalse => Predicate::AlwaysTrue,
            Predicate::And(a, b) => Predicate::Or(Box::new(a.negate()), Box::new(b.negate())),
            Predicate::Or(a, b) => Predicate::And(Box::new(a.negate()), Box::new(b.negate())),
            Predicate::Unary(op, r) => Predicate::Unary(op.negate(), r),
            Predicate::Binary(op, r, d) => Predicate::Binary(op.negate(), r, d),
        }
    }
}

/// Negation is an involution.
pub proof fn lemma_negate_involutive(p: PredicateView)
    ensures
        p.negate().negate() == p,
    decreases p,
{
    match p {
        PredicateView::And(a, b) => {
            lemma_negate_involutive(*a);
            lemma_negate_involutive(*b);
        },
        PredicateView::Or(a, b) => {
            lemma_negate_involutive(*a);
            lemma_negate_involutive(*b);
        },
        _ => {},
    }
}

/// Negation maps `AlwaysTrue` and `AlwaysFalse` to each other, and any other
/// predicate to one that is neither.
pub proof fn lemma_negate_constants(p: PredicateView)
    ensures
        (p.negate() is AlwaysTrue) <==> (p is AlwaysFalse),
        (p.negate() is AlwaysFalse) <==> (p is AlwaysTrue),
{
}

/// `and`, `or` and `negate` keep predicates simplified.
pub proof fn lemma_simplified_closed(p: PredicateView, q: PredicateView)
    requires
        p.is_simplified(),
        q.is_simplified(),
    ensures
        p.and(q).is_simplified(),
        p.or(q).is_simplified(),
        p.negate().is_simplified(),
    decreases p,
{
    match p {
        PredicateView::And(a, b) => {
            lemma_simplified_closed(*a, *b);
            lemma_simplified_closed(*b, *a);
        },
        PredicateView::Or(a, b) => {
            lemma_simplified_closed(*a, *b);
            lemma_simplified_closed(*b, *a);
        },
        _ => {},
    }
}

/// A row as a filter sees it: which columns are null, and how the value of
/// each non-null column compares with a literal (negative when the column's
/// value is smaller, zero when equal, positive when larger).
pub struct Row {
    pub is_null: spec_fn(Seq<char>) -> bool,
    pub compare: spec_fn(Seq<char>, DatumView) -> int,
}

/// Whether a comparison operator accepts a column value that compares with
/// the literal as `ord` does.
pub open spec fn comparison_accepts(op: PredicateOperator, ord: int) -> bool {
    match op {
        PredicateOperator::LessThan => ord < 0,
        PredicateOperator::LessThanOrEq => ord <= 0,
        PredicateOperator::GreaterThan => ord > 0,
        PredicateOperator::GreaterThanOrEq => ord >= 0,
        PredicateOperator::Eq => ord == 0,
        PredicateOperator::NotEq => ord != 0,
        _ => false,
    }
}

/// Whether a null test accepts a column that is null or not.
pub open spec fn null_test_accepts(op: PredicateOperator, null: bool) -> bool {
    match op {
        PredicateOperator::IsNull => null,
        PredicateOperator::NotNull => !null,
        _ => false,
    }
}

/// Whether `op` is one of the null tests.
pub open spec fn is_null_test(op: PredicateOperator) -> bool {
    op == PredicateOperator::IsNull || op == PredicateOperator::NotNull
}

/// Whether a predicate holds of a row. A comparison never holds of a null
/// column.
pub open spec fn holds(p: PredicateView, row: Row) -> bool
    decreases p,
{
    match p {
        PredicateView::AlwaysTrue => true,
        PredicateView::AlwaysFalse => false,
        PredicateView::And(a, b) => holds(*a, row) && holds(*b, row),
        PredicateView::Or(a, b) => holds(*a, row) || holds(*b, row),
        PredicateView::Unary(op, c) => null_test_accepts(op, (row.is_null)(c)),
        PredicateView::Binary(op, c, d) => !(row.is_null)(c) && comparison_accepts(
            op,
            (row.compare)(c, d),
        ),
    }
}

/// Null tests stand only in unary predicates, comparisons only in binary
/// ones.
pub open spec fn is_well_formed(p: PredicateView) -> bool
    decreases p,
{
    match p {
        PredicateView::And(a, b) | PredicateView::Or(a, b) => is_well_formed(*a) && is_well_formed(
            *b,
        ),
        PredicateView::Unary(op, _) => is_null_test(op),
        PredicateView::Binary(op, _, _) => !is_null_test(op),
        _ => true,
    }
}

/// `and`, `or` and `negate` keep predicates well formed.
pub proof fn lemma_well_formed_closed(p: PredicateView, q: PredicateView)
    requires
        is_well_formed(p),
        is_well_formed(q),
    ensures
        is_well_formed(p.and(q)),
        is_well_formed(p.or(q)),
        is_well_formed(p.negate()),
    decreases p,
{
    match p {
        PredicateView::And(a, b) => {
            lemma_well_formed_closed(*a, *b);
            lemma_well_formed_closed(*b, *a);
        },
        PredicateView::Or(a, b) => {
            lemma_well_formed_closed(*a, *b);
            lemma_well_formed_closed(*b, *a);
        },
        PredicateView::Unary(op, _) => {
            lemma_negate_operator_complements(op);
        },
        PredicateView::Binary(op, _, _) => {
            lemma_negate_operator_complements(op);
        },
        _ => {},
    }
}

/// No column of the row is null.
pub open spec fn has_no_nulls(row: Row) -> bool {
    forall|c: Seq<char>| !#[trigger] (row.is_null)(c)
}

/// The negated operator accepts exactly what the operator rejects: a null
/// test is swapped with the other one, a comparison with its complement. No
/// operator is its own negation.
pub proof fn lemma_negate_operator_complements(op: PredicateOperator)
    ensures
        spec_negate_operator(op) != op,
        is_null_test(spec_negate_operator(op)) == is_null_test(op),
        is_null_test(op) ==> forall|null: bool|
            null_test_accepts(spec_negate_operator(op), null) == !null_test_accepts(op, null),
        !is_null_test(op) ==> forall|ord: int|
            comparison_accepts(spec_negate_operator(op), ord) == !comparison_accepts(op, ord),
{
}

/// The negation of a well-formed predicate holds of a row without nulls
/// exactly when the predicate does not.
pub proof fn lemma_negate_complements(p: PredicateView, row: Row)
    requires
        is_well_formed(p),
        has_no_nulls(row),
    ensures
        holds(p.negate(), row) == !holds(p, row),
    decreases p,
{
    match p {
        PredicateView::And(a, b) => {
            lemma_negate_complements(*a, row);
            lemma_negate_complements(*b, row);
        },
        PredicateView::Or(a, b) => {
            lemma_negate_complements(*a, row);
            lemma_negate_complements(*b, row);
        },
        PredicateView::Unary(op, c) => {
            lemma_negate_operator_complements(op);
        },
        PredicateView::Binary(op, c, d) => {
            lemma_negate_operator_complements(op);
            assert(!(row.is_null)(c));
        },
        _ => {},
    }
}

/// A negated null test holds of a row exactly when the null test does not,
/// nulls included.
pub proof fn lemma_negate_null_test_complements(op: PredicateOperator, c: Seq<char>, row: Row)
    requires
        is_null_test(op),
    ensures
        holds(PredicateView::Unary(op, c).negate(), row) == !holds(
            PredicateView::Unary(op, c),
            row,
        ),
{
    lemma_negate_operator_complements(op);
}

/// The conjunction holds exactly when both operands hold, the disjunction
/// exactly when either does; two operands that are not constants are kept
/// under `And` or `Or` as given.
pub proof fn lemma_and_or_meaning(p: PredicateView, q: PredicateView, row: Row)
    ensures
        holds(p.and(q), row) == (holds(p, row) && holds(q, row)),
        holds(p.or(q), row) == (holds(p, row) || holds(q, row)),
        !(p is AlwaysTrue || p is AlwaysFalse || q is AlwaysTrue || q is AlwaysFalse) ==> {
            &&& p.and(q) == PredicateView::And(Box::new(p), Box::new(q))
            &&& p.or(q) == PredicateView::Or(Box::new(p), Box::new(q))
        },
{
}

} // verus!
