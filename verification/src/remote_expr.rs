//! The query expressions that predicate building reads: constants with their
//! scalar values and data types, column references and function calls.

use vstd::prelude::*;

verus! {

/// The data type of an expression, as far as predicate building tells types
/// apart.
#[derive(Debug)]
pub enum DataType {
    /// `BOOLEAN`.
    Boolean,
    /// A nullable version of the inner type.
    Nullable(Box<DataType>),
    /// Any other data type.
    Other,
}

impl DataType {
    /// The type with one level of nullability removed.
    pub open spec fn spec_remove_nullable(self) -> DataType {
        match self {
            DataType::Nullable(inner) => *inner,
            _ => self,
        }
    }

    /// The type with one level of nullability removed.
    pub fn remove_nullable(&self) -> (r: DataType)
        ensures
            r == self.spec_remove_nullable(),
    {
        match self {
            DataType::Nullable(inner) => inner.duplicate(),
            DataType::Boolean => DataType::Boolean,
            DataType::Other => DataType::Other,
        }
    }

    /// An equal copy of the type.
    pub fn duplicate(&self) -> (r: DataType)
        ensures
            r == *self,
        decreases self,
    {
        match self {
            DataType::Nullable(inner) => DataType::Nullable(Box::new(inner.duplicate())),
            DataType::Boolean => DataType::Boolean,
            DataType::Other => DataType::Other,
        }
    }

    /// Whether the type is `BOOLEAN`.
    pub fn is_boolean(&self) -> (r: bool)
        ensures
            r == (*self is Boolean),
    {
        match self {
            DataType::Boolean => true,
            _ => false,
        }
    }
}

/// A 256-bit signed integer, held as its high and low 128-bit words.
#[derive(Clone, Copy, Debug, PartialEq, Eq, Structural)]
pub struct I256 {
    /// The high word, signed.
    pub hi: i128,
    /// The low word, whose bits are read as unsigned.
    pub lo: i128,
}

/// 2 to the power 128.
pub open spec fn pow2_128() -> int {
    0x1_0000_0000_0000_0000_0000_0000_0000_0000int
}

impl I256 {
    /// Builds the number `hi * 2^128 + lo`, the low word read as unsigned.
    pub fn from_words(hi: i128, lo: i128) -> (r: I256)
        ensures
            r == (I256 { hi, lo }),
    {
        I256 { hi, lo }
    }

    /// The number's value.
    pub open spec fn value(self) -> int {
        self.hi * pow2_128() + (if self.lo < 0 {
            self.lo + pow2_128()
        } else {
            self.lo as int
        })
    }

    /// The number as an `i128`, where it is in that type's range.
    pub fn to_i128(&self) -> (r: Option<i128>)
        ensures
            match r {
                Some(x) => x as int == self.value(),
                None => !(i128::MIN <= self.value() <= i128::MAX),
            },
    {
        proof {
            lemma_i256_fits_i128(*self);
        }
        if (self.hi == 0 && self.lo >= 0) || (self.hi == -1 && self.lo < 0) {
            Some(self.lo)
        } else {
            None
        }
    }
}

/// A 256-bit number is in the range of `i128` exactly when its high word
/// only extends the sign of its low word, and its value is then the low
/// word.
pub proof fn lemma_i256_fits_i128(v: I256)
    ensures
        (i128::MIN <= v.value() <= i128::MAX) <==> ((v.hi == 0 && v.lo >= 0) || (v.hi == -1
            && v.lo < 0)),
        ((v.hi == 0 && v.lo >= 0) || (v.hi == -1 && v.lo < 0)) ==> v.value() == v.lo,
{
    let p: int = pow2_128();
    let low: int = if v.lo < 0 {
        v.lo + p
    } else {
        v.lo as int
    };
    assert(0 <= low < p);
    assert(v.value() == v.hi * p + low);
    if v.hi >= 1 {
        assert(v.hi * p >= p) by (nonlinear_arith)
            requires
                v.hi >= 1,
                p > 0,
        ;
    } else if v.hi <= -2 {
        assert(v.hi * p <= -2 * p) by (nonlinear_arith)
            requires
                v.hi <= -2,
                p > 0,
        ;
    } else if v.hi == 0 {
        assert(v.hi * p == 0);
    } else {
        assert(v.hi * p == -p);
    }
}

/// The precision and scale of a decimal type.
#[derive(Clone, Copy, Debug, PartialEq, Eq, Structural)]
pub struct DecimalSize {
    /// The number of decimal digits.
    pub precision: u8,
    /// The number of those digits after the decimal point.
    pub scale: u8,
}

impl DecimalSize {
    /// A size with the given precision and scale, which are not checked.
    pub fn new_unchecked(precision: u8, scale: u8) -> (r: DecimalSize)
        ensures
            r == (DecimalSize { precision, scale }),
    {
        DecimalSize { precision, scale }
    }

    /// The precision.
    pub fn precision(&self) -> (r: u8)
        ensures
            r == self.precision,
    {
        self.precision
    }

    /// The scale.
    pub fn scale(&self) -> (r: u8)
        ensures
            r == self.scale,
    {
        self.scale
    }
}

/// A decimal value: its unscaled integer and its size.
#[derive(Clone, Copy, Debug, PartialEq, Eq, Structural)]
pub enum DecimalScalar {
    /// A decimal held in 64 bits.
    Decimal64(i64, DecimalSize),
    /// A decimal held in 128 bits.
    Decimal128(i128, DecimalSize),
    /// A decimal held in 256 bits.
    Decimal256(I256, DecimalSize),
}

impl DecimalScalar {
    /// The size of the decimal.
    pub open spec fn spec_size(self) -> DecimalSize {
        match self {
            DecimalScalar::Decimal64(_, size) => size,
            DecimalScalar::Decimal128(_, size) => size,
            DecimalScalar::Decimal256(_, size) => size,
        }
    }

    /// The unscaled value of the decimal.
    pub open spec fn unscaled(self) -> int {
        match self {
            DecimalScalar::Decimal64(v, _) => v as int,
            DecimalScalar::Decimal128(v, _) => v as int,
            DecimalScalar::Decimal256(v, _) => v.value(),
        }
    }

    /// The size of the decimal.
    pub fn size(&self) -> (r: DecimalSize)
        ensures
            r == self.spec_size(),
    {
        match self {
            DecimalScalar::Decimal64(_, size) => *size,
            DecimalScalar::Decimal128(_, size) => *size,
            DecimalScalar::Decimal256(_, size) => *size,
        }
    }
}

/// A numeric value. Floating-point values are held as their IEEE 754 bit
/// patterns.
#[derive(Clone, Copy, Debug, PartialEq, Eq, Structural)]
pub enum NumberScalar {
    UInt8(u8),
    UInt16(u16),
    UInt32(u32),
    UInt64(u64),
    Int8(i8),
    Int16(i16),
    Int32(i32),
    Int64(i64),
    /// The bits of an `f32`.
    Float32(u32),
    /// The bits of an `f64`.
    Float64(u64),
}

/// A constant value.
#[derive(Debug)]
pub enum Scalar {
    /// A number.
    Number(NumberScalar),
    /// A decimal.
    Decimal(DecimalScalar),
    /// A timestamp, in microseconds since the epoch.
    Timestamp(i64),
    /// A date, in days since the epoch.
    Date(i32),
    /// A boolean.
    Boolean(bool),
    /// A byte string.
    Binary(Vec<u8>),
    /// A character string.
    String(String),
    /// Any other value: null, and values of nested or other types.
    Other,
}

impl Scalar {
    /// The boolean that the scalar holds, if it is one.
    pub open spec fn spec_as_boolean(self) -> Option<bool> {
        match self {
            Scalar::Boolean(b) => Some(b),
            _ => None,
        }
    }

    /// The boolean that the scalar holds, if it is one.
    pub fn as_boolean(&self) -> (r: Option<&bool>)
        ensures
            match r {
                Some(b) => self.spec_as_boolean() == Some(*b),
                None => self.spec_as_boolean() is None,
            },
    {
        match self {
            Scalar::Boolean(b) => Some(b),
            _ => None,
        }
    }
}

/// An expression of a query, with columns referred to by name.
#[derive(Debug)]
pub enum RemoteExpr {
    /// A constant of the given type.
    Constant { scalar: Scalar, data_type: DataType },
    /// A reference to the column of the given name.
    ColumnRef { id: String },
    /// A call of the function of the given name.
    FunctionCall { name: String, args: Vec<RemoteExpr> },
    /// Any other expression, such as a cast or a lambda.
    Other,
}

impl RemoteExpr {
    /// Whether the expression is a column reference.
    pub fn is_column_ref(&self) -> (r: bool)
        ensures
            r == (*self is ColumnRef),
    {
        match self {
            RemoteExpr::ColumnRef { .. } => true,
            _ => false,
        }
    }

    /// The column name, if the expression is a column reference.
    pub fn as_column_ref(&self) -> (r: Option<&String>)
        ensures
            r is Some <==> *self is ColumnRef,
            r matches Some(id) ==> *id == self->id,
    {
        match self {
            RemoteExpr::ColumnRef { id } => Some(id),
            _ => None,
        }
    }

    /// The value and type, if the expression is a constant.
    pub fn as_constant(&self) -> (r: Option<(&Scalar, &DataType)>)
        ensures
            r is Some <==> *self is Constant,
            r matches Some((scalar, data_type)) ==> *scalar == self->scalar && *data_type
                == self->data_type,
    {
        match self {
            RemoteExpr::Constant { scalar, data_type } => Some((scalar, data_type)),
            _ => None,
        }
    }

    /// Whether the expression is a constant.
    pub fn is_constant(&self) -> (r: bool)
        ensures
            r == (*self is Constant),
    {
        match self {
            RemoteExpr::Constant { .. } => true,
            _ => false,
        }
    }
}

} // verus!
