//! Translation of a query's filter expression into an Iceberg predicate that
//! can prune data files. What cannot be translated is reported as uncertain
//! and answered with `AlwaysTrue`, which prunes nothing.

use vstd::prelude::*;

use crate::iceberg_expr::{
    holds, has_no_nulls, is_well_formed, Datum, DatumView, Predicate, PredicateOperator,
    PredicateView, Reference, Row,
};
use crate::remote_expr::{DecimalScalar, NumberScalar, RemoteExpr, Scalar};
use crate::text::str_eq;

verus! {

/// The value of an optional predicate.
pub open spec fn opt_predicate_view(o: Option<Predicate>) -> Option<PredicateView> {
    match o {
        Some(p) => Some(p@),
        None => None,
    }
}

/// The value of an optional datum.
pub open spec fn opt_datum_view(o: Option<Datum>) -> Option<DatumView> {
    match o {
        Some(d) => Some(d@),
        None => None,
    }
}

/// The operator that a unary function name stands for.
pub open spec fn spec_unary_operator(op: Seq<char>) -> Option<PredicateOperator> {
    if op == "is_null"@ {
        Some(PredicateOperator::IsNull)
    } else if op == "is_not_null"@ {
        Some(PredicateOperator::NotNull)
    } else {
        None
    }
}

/// The operator that a comparison function name stands for, in `a op datum`.
pub open spec fn spec_binary_operator(op: Seq<char>) -> Option<PredicateOperator> {
    if op == "lt"@ || op == "<"@ {
        Some(PredicateOperator::LessThan)
    } else if op == "le"@ || op == "<="@ {
        Some(PredicateOperator::LessThanOrEq)
    } else if op == "gt"@ || op == ">"@ {
        Some(PredicateOperator::GreaterThan)
    } else if op == "ge"@ || op == ">="@ {
        Some(PredicateOperator::GreaterThanOrEq)
    } else if op == "eq"@ || op == "="@ {
        Some(PredicateOperator::Eq)
    } else if op == "ne"@ || op == "!="@ {
        Some(PredicateOperator::NotEq)
    } else {
        None
    }
}

/// The operator that a comparison function name stands for once
/// `datum op a` is rewritten as `a op' datum`.
pub open spec fn spec_reverse_binary_operator(op: Seq<char>) -> Option<PredicateOperator> {
    if op == "lt"@ || op == "<"@ {
        Some(PredicateOperator::GreaterThan)
    } else if op == "le"@ || op == "<="@ {
        Some(PredicateOperator::GreaterThanOrEq)
    } else if op == "gt"@ || op == ">"@ {
        Some(PredicateOperator::LessThan)
    } else if op == "ge"@ || op == ">="@ {
        Some(PredicateOperator::LessThanOrEq)
    } else if op == "eq"@ || op == "="@ {
        Some(PredicateOperator::Eq)
    } else if op == "ne"@ || op == "!="@ {
        Some(PredicateOperator::NotEq)
    } else {
        None
    }
}

/// The operator with its operands swapped: `a op b` holds exactly when
/// `b (flip op) a` does.
pub open spec fn spec_flip_operator(op: PredicateOperator) -> PredicateOperator {
    match op {
        PredicateOperator::LessThan => PredicateOperator::GreaterThan,
        PredicateOperator::LessThanOrEq => PredicateOperator::GreaterThanOrEq,
        PredicateOperator::GreaterThan => PredicateOperator::LessThan,
        PredicateOperator::GreaterThanOrEq => PredicateOperator::LessThanOrEq,
        _ => op,
    }
}

/// The unary predicate on column `r` that function `op` stands for.
pub open spec fn spec_build_unary(r: Seq<char>, op: Seq<char>) -> Option<PredicateView> {
    match spec_unary_operator(op) {
        Some(o) => Some(PredicateView::Unary(o, r)),
        None => None,
    }
}

/// The predicate `r op datum`.
pub open spec fn spec_build_binary(r: Seq<char>, op: Seq<char>, d: DatumView) -> Option<
    PredicateView,
> {
    match spec_binary_operator(op) {
        Some(o) => Some(PredicateView::Binary(o, r, d)),
        None => None,
    }
}

/// The predicate `datum op r`, with the column put first.
pub open spec fn spec_build_reverse_binary(r: Seq<char>, op: Seq<char>, d: DatumView) -> Option<
    PredicateView,
> {
    match spec_reverse_binary_operator(op) {
        Some(o) => Some(PredicateView::Binary(o, r, d)),
        None => None,
    }
}

/// The Iceberg decimal with the decimal's precision, scale and unscaled
/// value, where that value fits in 128 bits.
pub open spec fn spec_decimal_scalar_to_datum(d: DecimalScalar) -> Option<DatumView> {
    if i128::MIN <= d.unscaled() <= i128::MAX {
        Some(
            DatumView::Decimal {
                precision: d.spec_size().precision as u32,
                scale: d.spec_size().scale as u32,
                unscaled: d.unscaled() as i128,
            },
        )
    } else {
        None
    }
}

/// The Iceberg literal of a scalar: small integers widen to `Int`, 64-bit
/// integers become `Long`, unsigned ones only where they fit the signed
/// type; other kinds of value have none.
pub open spec fn spec_scalar_to_datum(s: Scalar) -> Option<DatumView> {
    match s {
        Scalar::Number(n) => match n {
            NumberScalar::Int8(i) => Some(DatumView::Int(i as i32)),
            NumberScalar::Int16(i) => Some(DatumView::Int(i as i32)),
            NumberScalar::Int32(i) => Some(DatumView::Int(i)),
            NumberScalar::Int64(i) => Some(DatumView::Long(i)),
            NumberScalar::UInt8(i) => Some(DatumView::Int(i as i32)),
            NumberScalar::UInt16(i) => Some(DatumView::Int(i as i32)),
            NumberScalar::UInt32(i) => if i <= i32::MAX {
                Some(DatumView::Int(i as i32))
            } else {
                None
            },
            NumberScalar::UInt64(i) => if i <= i64::MAX {
                Some(DatumView::Long(i as i64))
            } else {
                None
            },
            NumberScalar::Float32(f) => Some(DatumView::Float(f)),
            NumberScalar::Float64(f) => Some(DatumView::Double(f)),
        },
        Scalar::Decimal(d) => spec_decimal_scalar_to_datum(d),
        Scalar::Timestamp(ts) => Some(DatumView::TimestampMicros(ts)),
        Scalar::Date(d) => Some(DatumView::Date(d)),
        Scalar::Boolean(b) => Some(DatumView::Bool(b)),
        Scalar::Binary(b) => Some(DatumView::Binary(b@)),
        Scalar::String(s) => Some(DatumView::String(s@)),
        Scalar::Other => None,
    }
}

/// The name is one of the conjunctions and disjunctions.
pub open spec fn is_logical_connective(name: Seq<char>) -> bool {
    name == "and"@ || name == "and_filters"@ || name == "or"@ || name == "or_filters"@
}

/// The predicate built from an expression, and whether it is uncertain
/// (could not be translated, in which case the predicate is `AlwaysTrue`).
///
/// The cases are tried in order: a boolean constant; `is_true(x)`; a unary
/// function of a column; `not(x)`; a conjunction or disjunction of two
/// expressions; a comparison of a column with a constant; a comparison of a
/// constant with a column.
pub open spec fn spec_build(e: RemoteExpr) -> (bool, PredicateView)
    decreases e,
{
    match e {
        RemoteExpr::Constant { scalar, data_type } => {
            if data_type.spec_remove_nullable() is Boolean {
                if scalar.spec_as_boolean() == Some(true) {
                    (false, PredicateView::AlwaysTrue)
                } else {
                    (false, PredicateView::AlwaysFalse)
                }
            } else {
                (true, PredicateView::AlwaysTrue)
            }
        },
        RemoteExpr::FunctionCall { name, args } => {
            let n = name@;
            if args.len() == 1 && n == "is_true"@ {
                let (u, p) = spec_build(args@[0]);
                if u {
                    (true, PredicateView::AlwaysTrue)
                } else {
                    (false, p)
                }
            } else if args.len() == 1 && args@[0] is ColumnRef {
                match spec_build_unary(args@[0]->id@, n) {
                    Some(p) => (false, p),
                    None => (true, PredicateView::AlwaysTrue),
                }
            } else if args.len() == 1 && n == "not"@ {
                let (u, p) = spec_build(args@[0]);
                if u {
                    (true, PredicateView::AlwaysTrue)
                } else {
                    (false, p.negate())
                }
            } else if args.len() == 2 && is_logical_connective(n) {
                let (lu, l) = spec_build(args@[0]);
                let (ru, r) = spec_build(args@[1]);
                if lu || ru {
                    (true, PredicateView::AlwaysTrue)
                } else if n == "and"@ || n == "and_filters"@ {
                    (false, l.and(r))
                } else {
                    (false, l.or(r))
                }
            } else if args.len() == 2 && args@[0] is ColumnRef && args@[1] is Constant {
                match spec_scalar_to_datum(args@[1]->scalar) {
                    Some(d) => match spec_build_binary(args@[0]->id@, n, d) {
                        Some(p) => (false, p),
                        None => (true, PredicateView::AlwaysTrue),
                    },
                    None => (true, PredicateView::AlwaysTrue),
                }
            } else if args.len() == 2 && args@[1] is ColumnRef && args@[0] is Constant {
                match spec_scalar_to_datum(args@[0]->scalar) {
                    Some(d) => match spec_build_reverse_binary(args@[1]->id@, n, d) {
                        Some(p) => (false, p),
                        None => (true, PredicateView::AlwaysTrue),
                    },
                    None => (true, PredicateView::AlwaysTrue),
                }
            } else {
                (true, PredicateView::AlwaysTrue)
            }
        },
        _ => (true, PredicateView::AlwaysTrue),
    }
}

/// Builds Iceberg predicates from query expressions.
pub struct PredicateBuilder;

impl PredicateBuilder {
    /// Translates `expr` into a predicate. The flag says whether the
    /// translation is uncertain; an uncertain predicate is `AlwaysTrue`.
    pub fn build(expr: &RemoteExpr) -> (r: (bool, Predicate))
        ensures
            r.0 == spec_build(*expr).0,
            r.1@ == spec_build(*expr).1,
        decreases expr,
    {
        match expr {
            RemoteExpr::Constant { scalar, data_type } => {
                if data_type.remove_nullable().is_boolean() {
                    let value = scalar.as_boolean();
                    let is_true = match value {
                        Some(b) => *b,
                        None => false,
                    };
                    if is_true {
                        (false, Predicate::AlwaysTrue)
                    } else {
                        (false, Predicate::AlwaysFalse)
                    }
                } else {
                    (true, Predicate::AlwaysTrue)
                }
            },
            RemoteExpr::FunctionCall { name, args } => {
                let fname = name.as_str();
                if args.len() == 1 && str_eq(fname, "is_true") {
                    // is_true
                    let (uncertain, predicate) = Self::build(&args[0]);
                    if uncertain {
                        return (uncertain, Predicate::AlwaysTrue);
                    }
                    match predicate {
                        Predicate::AlwaysTrue => (false, Predicate::AlwaysTrue),
                        Predicate::AlwaysFalse => (false, Predicate::AlwaysFalse),
                        predicate => (false, predicate),
                    }
                } else if args.len() == 1 && args[0].is_column_ref() {
                    // unary
                    let column = args[0].as_column_ref().unwrap();
                    let r = Reference::new(column.clone());
                    if let Some(op) = build_unary(r, fname) {
                        return (false, op);
                    }
                    (true, Predicate::AlwaysTrue)
                } else if args.len() == 1 && str_eq(fname, "not") {
                    // not
                    let (uncertain, predicate) = Self::build(&args[0]);
                    if uncertain {
                        return (true, Predicate::AlwaysTrue);
                    }
                    let predicate = match predicate {
                        Predicate::AlwaysTrue => Predicate::AlwaysFalse,
                        Predicate::AlwaysFalse => Predicate::AlwaysTrue,
                        predicate => predicate.negate(),
                    };
                    (false, predicate)
                } else if args.len() == 2 && (str_eq(fname, "and") || str_eq(fname, "and_filters")
                    || str_eq(fname, "or") || str_eq(fname, "or_filters")) {
                    // binary {a op b}
                    let (left_uncertain, left) = Self::build(&args[0]);
                    let (right_uncertain, right) = Self::build(&args[1]);
                    if left_uncertain || right_uncertain {
                        return (true, Predicate::AlwaysTrue);
                    }
                    let predicate = if str_eq(fname, "and") || str_eq(fname, "and_filters") {
                        left.and(right)
                    } else {
                        left.or(right)
                    };
                    (false, predicate)
                } else if args.len() == 2 && args[0].is_column_ref() && args[1].is_constant() {
                    // binary {a op datum}
                    let val = args[1].as_constant().unwrap();
                    let val = scalar_to_datatum(val.0);
                    if let Some(datum) = val {
                        let column = args[0].as_column_ref().unwrap();
                        let r = Reference::new(column.clone());
                        let p = build_binary(r, fname, datum);
                        if let Some(op) = p {
                            return (false, op);
                        }
                    }
                    (true, Predicate::AlwaysTrue)
                } else if args.len() == 2 && args[1].is_column_ref() && args[0].is_constant() {
                    // binary {datum op a}
                    let val = args[0].as_constant().unwrap();
                    let val = scalar_to_datatum(val.0);
                    if let Some(datum) = val {
                        let column = args[1].as_column_ref().unwrap();
                        let r = Reference::new(column.clone());
                        let p = build_reverse_binary(r, fname, datum);
                        if let Some(op) = p {
                            return (false, op);
                        }
                    }
                    (true, Predicate::AlwaysTrue)
                } else {
                    (true, Predicate::AlwaysTrue)
                }
            },
            _ => (true, Predicate::AlwaysTrue),
        }
    }
}

/// The unary predicate on `r` that function `op` stands for, if any.
pub fn build_unary(r: Reference, op: &str) -> (res: Option<Predicate>)
    ensures
        opt_predicate_view(res) == spec_build_unary(r@, op@),
{
    let op = if str_eq(op, "is_null") {
        PredicateOperator::IsNull
    } else if str_eq(op, "is_not_null") {
        PredicateOperator::NotNull
    } else {
        return None;
    };
    Some(Predicate::Unary(op, r))
}

/// The predicate `r op datum`, if `op` names a comparison.
pub fn build_binary(r: Reference, op: &str, datum: Datum) -> (res: Option<Predicate>)
    ensures
        opt_predicate_view(res) == spec_build_binary(r@, op@, datum@),
{
    let op = if str_eq(op, "lt") || str_eq(op, "<") {
        PredicateOperator::LessThan
    } else if str_eq(op, "le") || str_eq(op, "<=") {
        PredicateOperator::LessThanOrEq
    } else if str_eq(op, "gt") || str_eq(op, ">") {
        PredicateOperator::GreaterThan
    } else if str_eq(op, "ge") || str_eq(op, ">=") {
        PredicateOperator::GreaterThanOrEq
    } else if str_eq(op, "eq") || str_eq(op, "=") {
        PredicateOperator::Eq
    } else if str_eq(op, "ne") || str_eq(op, "!=") {
        PredicateOperator::NotEq
    } else {
        return None;
    };
    Some(Predicate::Binary(op, r, datum))
}

/// The predicate `datum op r`, rewritten as `r op' datum`, if `op` names a
/// comparison.
pub fn build_reverse_binary(r: Reference, op: &str, datum: Datum) -> (res: Option<Predicate>)
    ensures
        opt_predicate_view(res) == spec_build_reverse_binary(r@, op@, datum@),
{
    let op = if str_eq(op, "lt") || str_eq(op, "<") {
        PredicateOperator::GreaterThan
    } else if str_eq(op, "le") || str_eq(op, "<=") {
        PredicateOperator::GreaterThanOrEq
    } else if str_eq(op, "gt") || str_eq(op, ">") {
        PredicateOperator::LessThan
    } else if str_eq(op, "ge") || str_eq(op, ">=") {
        PredicateOperator::LessThanOrEq
    } else if str_eq(op, "eq") || str_eq(op, "=") {
        PredicateOperator::Eq
    } else if str_eq(op, "ne") || str_eq(op, "!=") {
        PredicateOperator::NotEq
    } else {
        return None;
    };
    Some(Predicate::Binary(op, r, datum))
}

/// The Iceberg literal of a scalar, if it has one.
pub fn scalar_to_datatum(scalar: &Scalar) -> (r: Option<Datum>)
    ensures
        opt_datum_view(r) == spec_scalar_to_datum(*scalar),
{
    let val = match scalar {
        Scalar::Number(n) => match n {
            NumberScalar::Int8(i) => Datum::Int(*i as i32),
            NumberScalar::Int16(i) => Datum::Int(*i as i32),
            NumberScalar::Int32(i) => Datum::Int(*i),
            NumberScalar::Int64(i) => Datum::Long(*i),
            NumberScalar::UInt8(i) => Datum::Int(*i as i32),
            NumberScalar::UInt16(i) => Datum::Int(*i as i32),
            NumberScalar::UInt32(i) => {
                if *i <= i32::MAX as u32 {
                    Datum::Int(*i as i32)
                } else {
                    return None;
                }
            },
            NumberScalar::UInt64(i) => {
                if *i <= i64::MAX as u64 {
                    Datum::Long(*i as i64)
                } else {
                    return None;
                }
            },
            NumberScalar::Float32(f) => Datum::Float(*f),
            NumberScalar::Float64(f) => Datum::Double(*f),
        },
        Scalar::Decimal(decimal) => return decimal_scalar_to_datum(decimal),
        Scalar::Timestamp(ts) => Datum::TimestampMicros(*ts),
        Scalar::Date(d) => Datum::Date(*d),
        Scalar::Boolean(b) => Datum::Bool(*b),
        Scalar::Binary(b) => Datum::Binary(b.clone()),
        Scalar::String(s) => Datum::String(s.clone()),
        Scalar::Other => return None,
    };
    Some(val)
}

/// The Iceberg decimal of a decimal scalar, if its unscaled value fits in
/// 128 bits.
pub fn decimal_scalar_to_datum(decimal: &DecimalScalar) -> (r: Option<Datum>)
    ensures
        opt_datum_view(r) == spec_decimal_scalar_to_datum(*decimal),
{
    let size = decimal.size();
    let precision: u32 = u32::from(size.precision());
    let scale: u32 = u32::from(size.scale());

    let unscaled: i128 = match decimal {
        DecimalScalar::Decimal64(v, _) => i128::from(*v),
        DecimalScalar::Decimal128(v, _) => *v,
        DecimalScalar::Decimal256(v, _) => match v.to_i128() {
            Some(x) => x,
            None => return None,
        },
    };

    Some(Datum::Decimal { precision, scale, unscaled })
}

/// An expression that cannot be translated is answered with `AlwaysTrue`,
/// which prunes nothing.
pub proof fn lemma_uncertain_is_always_true(e: RemoteExpr)
    ensures
        spec_build(e).0 ==> spec_build(e).1 is AlwaysTrue,
    decreases e,
{
}

/// A built predicate never holds `AlwaysTrue` or `AlwaysFalse` as an operand
/// of `And` or `Or`.
pub proof fn lemma_build_simplified(e: RemoteExpr)
    ensures
        spec_build(e).1.is_simplified(),
    decreases e,
{
    match e {
        RemoteExpr::FunctionCall { name, args } => {
            if args.len() >= 1 {
                lemma_build_simplified(args@[0]);
                crate::iceberg_expr::lemma_simplified_closed(
                    spec_build(args@[0]).1,
                    spec_build(args@[0]).1,
                );
            }
            if args.len() >= 2 {
                lemma_build_simplified(args@[1]);
                crate::iceberg_expr::lemma_simplified_closed(
                    spec_build(args@[0]).1,
                    spec_build(args@[1]).1,
                );
            }
        },
        _ => {},
    }
}

/// `is_true(x)` builds the same predicate as `x`.
pub proof fn lemma_is_true_transparent(e: RemoteExpr)
    requires
        e matches RemoteExpr::FunctionCall { name, args } && name@ == "is_true"@ && args.len()
            == 1,
    ensures
        spec_build(e) == spec_build(e->args@[0]),
{
    lemma_uncertain_is_always_true(e->args@[0]);
}

/// `not(not(x))` builds the same predicate as `x`.
pub proof fn lemma_double_not(e: RemoteExpr)
    requires
        e matches RemoteExpr::FunctionCall { name, args } && name@ == "not"@ && args.len() == 1,
        e->args@[0] matches RemoteExpr::FunctionCall { name, args } && name@ == "not"@
            && args.len() == 1,
    ensures
        spec_build(e) == spec_build(e->args@[0]->args@[0]),
{
    let inner = e->args@[0];
    let x = inner->args@[0];
    reveal_strlit("is_true");
    reveal_strlit("not");
    reveal_strlit("is_null");
    reveal_strlit("is_not_null");
    assert("not"@.len() == 3 && "is_true"@.len() == 7 && "is_null"@.len() == 7);
    assert("is_not_null"@.len() == 11);
    assert(spec_unary_operator("not"@) is None);
    lemma_uncertain_is_always_true(x);
    lemma_uncertain_is_always_true(inner);
    crate::iceberg_expr::lemma_negate_involutive(spec_build(x).1);
}

/// The predicate with the operands of its comparison swapped.
pub open spec fn spec_flip_predicate(p: PredicateView) -> PredicateView {
    match p {
        PredicateView::Binary(op, r, d) => PredicateView::Binary(spec_flip_operator(op), r, d),
        _ => p,
    }
}

/// `datum op a` stands for `a op datum` with its operator flipped.
pub proof fn lemma_reverse_operator_is_flipped(op: Seq<char>)
    ensures
        spec_reverse_binary_operator(op) == (match spec_binary_operator(op) {
            Some(o) => Some(spec_flip_operator(o)),
            None => None,
        }),
{
}

/// Flipping a comparison twice gives it back.
pub proof fn lemma_flip_involutive(op: PredicateOperator)
    ensures
        spec_flip_operator(spec_flip_operator(op)) == op,
{
}

/// Swapping a column and a constant under a function of two arguments flips
/// the comparison that is built, and changes nothing else.
pub proof fn lemma_swapped_operands(e1: RemoteExpr, e2: RemoteExpr)
    requires
        e1 matches RemoteExpr::FunctionCall { name, args } && args.len() == 2
            && args@[0] is ColumnRef && args@[1] is Constant,
        e2 matches RemoteExpr::FunctionCall { name, args } && args.len() == 2,
        e2->name@ == e1->name@,
        e2->args@[0] == e1->args@[1],
        e2->args@[1] == e1->args@[0],
    ensures
        spec_build(e2) == (spec_build(e1).0, spec_flip_predicate(spec_build(e1).1)),
{
    lemma_reverse_operator_is_flipped(e1->name@);
    let column = e1->args@[0];
    assert(spec_build(column) == (true, PredicateView::AlwaysTrue));
    assert(!(e2->args@[0] is ColumnRef));
}

/// Every built predicate is well formed: null tests only in unary
/// predicates, comparisons only in binary ones.
pub proof fn lemma_build_well_formed(e: RemoteExpr)
    ensures
        is_well_formed(spec_build(e).1),
    decreases e,
{
    match e {
        RemoteExpr::FunctionCall { name, args } => {
            if args.len() >= 1 {
                lemma_build_well_formed(args@[0]);
                crate::iceberg_expr::lemma_well_formed_closed(
                    spec_build(args@[0]).1,
                    spec_build(args@[0]).1,
                );
            }
            if args.len() >= 2 {
                lemma_build_well_formed(args@[1]);
                crate::iceberg_expr::lemma_well_formed_closed(
                    spec_build(args@[0]).1,
                    spec_build(args@[1]).1,
                );
            }
        },
        _ => {},
    }
}

/// `not(x)`, for an `x` that is translated and is not a bare column, holds
/// of a row without nulls exactly when `x` does not.
pub proof fn lemma_build_not_meaning(e: RemoteExpr, row: Row)
    requires
        e matches RemoteExpr::FunctionCall { name, args } && name@ == "not"@ && args.len() == 1,
        !(e->args@[0] is ColumnRef),
        !spec_build(e->args@[0]).0,
        has_no_nulls(row),
    ensures
        !spec_build(e).0,
        holds(spec_build(e).1, row) == !holds(spec_build(e->args@[0]).1, row),
{
    reveal_strlit("is_true");
    reveal_strlit("not");
    assert("not"@.len() == 3 && "is_true"@.len() == 7);
    lemma_build_well_formed(e->args@[0]);
    crate::iceberg_expr::lemma_negate_complements(spec_build(e->args@[0]).1, row);
}

/// A conjunction of two translated expressions holds of a row exactly when
/// both hold, a disjunction exactly when either does.
pub proof fn lemma_build_connective_meaning(e: RemoteExpr, row: Row)
    requires
        e matches RemoteExpr::FunctionCall { name, args } && is_logical_connective(name@)
            && args.len() == 2,
        !spec_build(e->args@[0]).0,
        !spec_build(e->args@[1]).0,
    ensures
        !spec_build(e).0,
        (e->name@ == "and"@ || e->name@ == "and_filters"@) ==> holds(spec_build(e).1, row) == (
        holds(spec_build(e->args@[0]).1, row) && holds(spec_build(e->args@[1]).1, row)),
        (e->name@ == "or"@ || e->name@ == "or_filters"@) ==> holds(spec_build(e).1, row) == (
        holds(spec_build(e->args@[0]).1, row) || holds(spec_build(e->args@[1]).1, row)),
{
    reveal_strlit("and");
    reveal_strlit("and_filters");
    reveal_strlit("or");
    reveal_strlit("or_filters");
    assert("and"@.len() == 3 && "and_filters"@.len() == 11 && "or"@.len() == 2);
    assert("or_filters"@.len() == 10);
    crate::iceberg_expr::lemma_and_or_meaning(
        spec_build(e->args@[0]).1,
        spec_build(e->args@[1]).1,
        row,
    );
}

/// Whether a comparison named `op` accepts a left operand that compares
/// with the right one as `ord` does (negative: smaller, zero: equal,
/// positive: larger).
pub open spec fn name_accepts(op: Seq<char>, ord: int) -> bool {
    if op == "lt"@ || op == "<"@ {
        ord < 0
    } else if op == "le"@ || op == "<="@ {
        ord <= 0
    } else if op == "gt"@ || op == ">"@ {
        ord > 0
    } else if op == "ge"@ || op == ">="@ {
        ord >= 0
    } else if op == "eq"@ || op == "="@ {
        ord == 0
    } else {
        ord != 0
    }
}

/// The comparison names.
pub open spec fn is_comparison_name(op: Seq<char>) -> bool {
    op == "lt"@ || op == "<"@ || op == "le"@ || op == "<="@ || op == "gt"@ || op == ">"@ || op
        == "ge"@ || op == ">="@ || op == "eq"@ || op == "="@ || op == "ne"@ || op == "!="@
}

/// `r op datum` is built exactly for the comparison names, and holds of a
/// row exactly when the column compares with the datum as the name says.
/// `datum op r` holds exactly when the datum compares with the column as the
/// name says, that is, when the column compares with the datum the other
/// way round.
pub proof fn lemma_comparison_meaning(op: Seq<char>, r: Seq<char>, d: DatumView, row: Row)
    ensures
        spec_build_binary(r, op, d) is Some <==> is_comparison_name(op),
        spec_build_reverse_binary(r, op, d) is Some <==> is_comparison_name(op),
        spec_build_binary(r, op, d) matches Some(p) ==> holds(p, row) == (!(row.is_null)(r)
            && name_accepts(op, (row.compare)(r, d))),
        spec_build_reverse_binary(r, op, d) matches Some(p) ==> holds(p, row) == (!(
        row.is_null)(r) && name_accepts(op, -(row.compare)(r, d))),
{
}

/// `is_null` holds of a row exactly when the column is null, `is_not_null`
/// exactly when it is not; no other name gives a unary predicate.
pub proof fn lemma_null_test_meaning(op: Seq<char>, r: Seq<char>, row: Row)
    ensures
        spec_build_unary(r, op) is Some <==> (op == "is_null"@ || op == "is_not_null"@),
        op == "is_null"@ ==> holds(spec_build_unary(r, op).unwrap(), row) == (row.is_null)(r),
        op == "is_not_null"@ ==> holds(spec_build_unary(r, op).unwrap(), row) == !(row.is_null)(
            r,
        ),
{
    reveal_strlit("is_null");
    reveal_strlit("is_not_null");
    assert("is_null"@.len() == 7 && "is_not_null"@.len() == 11);
}

/// The value a literal stands for, whatever type carries it.
pub enum LiteralValue {
    Integer(int),
    Float32Bits(u32),
    Float64Bits(u64),
    Bool(bool),
    Date(int),
    TimestampMicros(int),
    Bytes(Seq<u8>),
    Text(Seq<char>),
    Decimal { precision: int, scale: int, unscaled: int },
}

/// The value of a decimal scalar: its precision, scale and unscaled number.
pub open spec fn decimal_value(d: DecimalScalar) -> LiteralValue {
    match d {
        DecimalScalar::Decimal64(v, size) => LiteralValue::Decimal {
            precision: size.precision as int,
            scale: size.scale as int,
            unscaled: v as int,
        },
        DecimalScalar::Decimal128(v, size) => LiteralValue::Decimal {
            precision: size.precision as int,
            scale: size.scale as int,
            unscaled: v as int,
        },
        DecimalScalar::Decimal256(v, size) => LiteralValue::Decimal {
            precision: size.precision as int,
            scale: size.scale as int,
            unscaled: v.value(),
        },
    }
}

/// The value of a scalar, if it is of a kind that literals carry.
pub open spec fn scalar_value(s: Scalar) -> Option<LiteralValue> {
    match s {
        Scalar::Number(n) => Some(
            match n {
                NumberScalar::UInt8(i) => LiteralValue::Integer(i as int),
                NumberScalar::UInt16(i) => LiteralValue::Integer(i as int),
                NumberScalar::UInt32(i) => LiteralValue::Integer(i as int),
                NumberScalar::UInt64(i) => LiteralValue::Integer(i as int),
                NumberScalar::Int8(i) => LiteralValue::Integer(i as int),
                NumberScalar::Int16(i) => LiteralValue::Integer(i as int),
                NumberScalar::Int32(i) => LiteralValue::Integer(i as int),
                NumberScalar::Int64(i) => LiteralValue::Integer(i as int),
                NumberScalar::Float32(f) => LiteralValue::Float32Bits(f),
                NumberScalar::Float64(f) => LiteralValue::Float64Bits(f),
            },
        ),
        Scalar::Decimal(d) => Some(decimal_value(d)),
        Scalar::Timestamp(ts) => Some(LiteralValue::TimestampMicros(ts as int)),
        Scalar::Date(d) => Some(LiteralValue::Date(d as int)),
        Scalar::Boolean(b) => Some(LiteralValue::Bool(b)),
        Scalar::Binary(b) => Some(LiteralValue::Bytes(b@)),
        Scalar::String(t) => Some(LiteralValue::Text(t@)),
        Scalar::Other => None,
    }
}

/// The value of a literal.
pub open spec fn datum_value(d: DatumView) -> LiteralValue {
    match d {
        DatumView::Int(v) => LiteralValue::Integer(v as int),
        DatumView::Long(v) => LiteralValue::Integer(v as int),
        DatumView::Float(f) => LiteralValue::Float32Bits(f),
        DatumView::Double(f) => LiteralValue::Float64Bits(f),
        DatumView::Bool(b) => LiteralValue::Bool(b),
        DatumView::Date(v) => LiteralValue::Date(v as int),
        DatumView::TimestampMicros(v) => LiteralValue::TimestampMicros(v as int),
        DatumView::Binary(b) => LiteralValue::Bytes(b),
        DatumView::String(t) => LiteralValue::Text(t),
        DatumView::Decimal { precision, scale, unscaled } => LiteralValue::Decimal {
            precision: precision as int,
            scale: scale as int,
            unscaled: unscaled as int,
        },
    }
}

/// The number of bits of a number's type.
pub open spec fn number_width(n: NumberScalar) -> int {
    match n {
        NumberScalar::UInt8(_) | NumberScalar::Int8(_) => 8,
        NumberScalar::UInt16(_) | NumberScalar::Int16(_) => 16,
        NumberScalar::UInt32(_) | NumberScalar::Int32(_) | NumberScalar::Float32(_) => 32,
        _ => 64,
    }
}

/// Whether a number is an integer.
pub open spec fn is_integer(n: NumberScalar) -> bool {
    !(n is Float32 || n is Float64)
}

/// Whether a scalar's value can be carried by a literal: an integer of at
/// most 32 bits must fit a signed 32-bit integer, a wider one a signed 64-bit
/// integer, and a decimal's unscaled number a signed 128-bit integer.
pub open spec fn fits_literal(s: Scalar) -> bool {
    match scalar_value(s) {
        Some(LiteralValue::Integer(v)) => if number_width(s->Number_0) <= 32 {
            -0x8000_0000 <= v < 0x8000_0000
        } else {
            -0x8000_0000_0000_0000 <= v < 0x8000_0000_0000_0000
        },
        Some(LiteralValue::Decimal { unscaled, .. }) => i128::MIN <= unscaled <= i128::MAX,
        Some(_) => true,
        None => false,
    }
}

/// A scalar has a literal exactly when its value fits one, and the literal
/// then carries the scalar's value, sign and all. Integers of at most 32
/// bits become `Int`, wider ones `Long`.
pub proof fn lemma_scalar_to_datum_keeps_value(s: Scalar)
    ensures
        spec_scalar_to_datum(s) is Some <==> fits_literal(s),
        spec_scalar_to_datum(s) matches Some(d) ==> scalar_value(s) == Some(datum_value(d)),
        (s is Number && is_integer(s->Number_0) && spec_scalar_to_datum(s) is Some) ==> {
            &&& number_width(s->Number_0) <= 32 ==> spec_scalar_to_datum(s).unwrap() is Int
            &&& number_width(s->Number_0) == 64 ==> spec_scalar_to_datum(s).unwrap() is Long
        },
{
}

/// A decimal has a literal exactly when its unscaled number fits a signed
/// 128-bit integer, and the literal then has the decimal's precision, scale
/// and unscaled number.
pub proof fn lemma_decimal_to_datum_keeps_value(d: DecimalScalar)
    ensures
        spec_decimal_scalar_to_datum(d) is Some <==> (i128::MIN <= decimal_value(d)->unscaled
            <= i128::MAX),
        spec_decimal_scalar_to_datum(d) matches Some(x) ==> datum_value(x) == decimal_value(d),
{
}

/// A boolean constant is translated, and holds of every row when it is true
/// and of none when it is false or null.
pub proof fn lemma_build_constant_meaning(e: RemoteExpr, row: Row)
    requires
        e is Constant,
        e->data_type.spec_remove_nullable() is Boolean,
    ensures
        !spec_build(e).0,
        holds(spec_build(e).1, row) == (e->scalar.spec_as_boolean() == Some(true)),
{
}

/// A function of one column is translated exactly when it is a null test,
/// and then holds as that test says.
pub proof fn lemma_build_null_test_meaning(e: RemoteExpr, row: Row)
    requires
        e matches RemoteExpr::FunctionCall { name, args } && args.len() == 1 && args@[0] is ColumnRef,
    ensures
        !spec_build(e).0 <==> (e->name@ == "is_null"@ || e->name@ == "is_not_null"@),
        e->name@ == "is_null"@ ==> holds(spec_build(e).1, row) == (row.is_null)(
            e->args@[0]->id@,
        ),
        e->name@ == "is_not_null"@ ==> holds(spec_build(e).1, row) == !(row.is_null)(
            e->args@[0]->id@,
        ),
{
    reveal_strlit("is_true");
    reveal_strlit("is_null");
    reveal_strlit("is_not_null");
    assert("is_true"@.len() == 7 && "is_null"@.len() == 7 && "is_not_null"@.len() == 11);
    assert("is_true"@[3] != "is_null"@[3]);
    let (u, p) = spec_build(e->args@[0]);
    assert(u && p is AlwaysTrue);
    lemma_null_test_meaning(e->name@, e->args@[0]->id@, row);
}

/// A comparison of a column with a constant, under a name that is not a
/// conjunction or disjunction, is translated exactly when the name is a
/// comparison and the constant has a literal; it then holds of a row exactly
/// when the column is not null and compares with the literal as the name
/// says. With the constant first, the column must compare the other way
/// round.
pub proof fn lemma_build_comparison_meaning(e: RemoteExpr, row: Row)
    requires
        e matches RemoteExpr::FunctionCall { name, args } && args.len() == 2,
        !is_logical_connective(e->name@),
        (e->args@[0] is ColumnRef && e->args@[1] is Constant) || (e->args@[1] is ColumnRef
            && e->args@[0] is Constant),
    ensures
        ({
            let column_first = e->args@[0] is ColumnRef;
            let column = if column_first {
                e->args@[0]->id@
            } else {
                e->args@[1]->id@
            };
            let constant = if column_first {
                e->args@[1]->scalar
            } else {
                e->args@[0]->scalar
            };
            &&& !spec_build(e).0 <==> (is_comparison_name(e->name@) && spec_scalar_to_datum(
                constant,
            ) is Some)
            &&& !spec_build(e).0 ==> {
                let ord = (row.compare)(column, spec_scalar_to_datum(constant).unwrap());
                holds(spec_build(e).1, row) == (!(row.is_null)(column) && name_accepts(
                    e->name@,
                    if column_first {
                        ord
                    } else {
                        -ord
                    },
                ))
            }
        }),
{
    let n = e->name@;
    if e->args@[0] is ColumnRef {
        match spec_scalar_to_datum(e->args@[1]->scalar) {
            Some(d) => lemma_comparison_meaning(n, e->args@[0]->id@, d, row),
            None => {},
        }
    } else {
        match spec_scalar_to_datum(e->args@[0]->scalar) {
            Some(d) => lemma_comparison_meaning(n, e->args@[1]->id@, d, row),
            None => {},
        }
    }
}

} // verus!
