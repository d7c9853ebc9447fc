use compress_iceberg::iceberg_expr::{Datum, Predicate, PredicateOperator, Reference};
use compress_iceberg::predicate::{
    build_binary, build_reverse_binary, build_unary, decimal_scalar_to_datum, scalar_to_datatum,
    PredicateBuilder,
};
use compress_iceberg::remote_expr::{
    DataType, DecimalScalar, DecimalSize, NumberScalar, RemoteExpr, Scalar, I256,
};

fn col(name: &str) -> RemoteExpr {
    RemoteExpr::ColumnRef {
        id: name.to_string(),
    }
}

fn int_const(v: i32) -> RemoteExpr {
    RemoteExpr::Constant {
        scalar: Scalar::Number(NumberScalar::Int32(v)),
        data_type: DataType::Other,
    }
}

fn bool_const(v: bool, nullable: bool) -> RemoteExpr {
    let ty = if nullable {
        DataType::Nullable(Box::new(DataType::Boolean))
    } else {
        DataType::Boolean
    };
    RemoteExpr::Constant {
        scalar: Scalar::Boolean(v),
        data_type: ty,
    }
}

fn call(name: &str, args: Vec<RemoteExpr>) -> RemoteExpr {
    RemoteExpr::FunctionCall {
        name: name.to_string(),
        args,
    }
}

fn reference(name: &str) -> Reference {
    Reference::new(name.to_string())
}

fn binary(op: PredicateOperator, column: &str, datum: Datum) -> Predicate {
    Predicate::Binary(op, reference(column), datum)
}

#[test]
fn converts_decimal64_scalar() {
    let size = DecimalSize::new_unchecked(10, 2);
    let scalar = DecimalScalar::Decimal64(12345, size);
    let datum = decimal_scalar_to_datum(&scalar).unwrap();

    assert_eq!(
        datum,
        Datum::Decimal {
            precision: 10,
            scale: 2,
            unscaled: 12345,
        }
    );
}

#[test]
fn converts_decimal128_scalar() {
    let size = DecimalSize::new_unchecked(20, 4);
    let value: i128 = 9876543210;
    let scalar = DecimalScalar::Decimal128(value, size);
    let datum = decimal_scalar_to_datum(&scalar).unwrap();

    assert_eq!(
        datum,
        Datum::Decimal {
            precision: 20,
            scale: 4,
            unscaled: value,
        }
    );
}

#[test]
fn converts_decimal256_scalar_when_fits_i128() {
    let size = DecimalSize::new_unchecked(18, 6);
    let value = I256::from_words(0, 1122334455667788);
    let scalar = DecimalScalar::Decimal256(value, size);
    let datum = decimal_scalar_to_datum(&scalar).unwrap();

    assert_eq!(
        datum,
        Datum::Decimal {
            precision: 18,
            scale: 6,
            unscaled: 1122334455667788,
        }
    );
}

#[test]
fn decimal256_outside_i128_has_no_datum() {
    let size = DecimalSize::new_unchecked(76, 0);
    // 2^127 does not fit
    let too_big = DecimalScalar::Decimal256(I256::from_words(0, i128::MIN), size);
    assert_eq!(decimal_scalar_to_datum(&too_big), None);
    // 2^128 does not fit
    let huge = DecimalScalar::Decimal256(I256::from_words(1, 0), size);
    assert_eq!(decimal_scalar_to_datum(&huge), None);
    // -2^127 - 1 does not fit
    let too_small = DecimalScalar::Decimal256(I256::from_words(-1, i128::MAX), size);
    assert_eq!(decimal_scalar_to_datum(&too_small), None);
    // -1 and -2^127 fit
    let minus_one = DecimalScalar::Decimal256(I256::from_words(-1, -1), size);
    assert_eq!(
        decimal_scalar_to_datum(&minus_one),
        Some(Datum::Decimal {
            precision: 76,
            scale: 0,
            unscaled: -1
        })
    );
    let min = DecimalScalar::Decimal256(I256::from_words(-1, i128::MIN), size);
    assert_eq!(
        decimal_scalar_to_datum(&min),
        Some(Datum::Decimal {
            precision: 76,
            scale: 0,
            unscaled: i128::MIN
        })
    );
}

#[test]
fn scalars_to_datums() {
    let cases = [
        (Scalar::Number(NumberScalar::Int8(-5)), Some(Datum::Int(-5))),
        (Scalar::Number(NumberScalar::Int16(-300)), Some(Datum::Int(-300))),
        (Scalar::Number(NumberScalar::Int32(7)), Some(Datum::Int(7))),
        (Scalar::Number(NumberScalar::Int64(-9)), Some(Datum::Long(-9))),
        (Scalar::Number(NumberScalar::UInt8(200)), Some(Datum::Int(200))),
        (Scalar::Number(NumberScalar::UInt16(60000)), Some(Datum::Int(60000))),
        (
            Scalar::Number(NumberScalar::UInt32(i32::MAX as u32)),
            Some(Datum::Int(i32::MAX)),
        ),
        (Scalar::Number(NumberScalar::UInt32(i32::MAX as u32 + 1)), None),
        (
            Scalar::Number(NumberScalar::UInt64(i64::MAX as u64)),
            Some(Datum::Long(i64::MAX)),
        ),
        (Scalar::Number(NumberScalar::UInt64(u64::MAX)), None),
        (
            Scalar::Number(NumberScalar::Float32(1.5f32.to_bits())),
            Some(Datum::Float(1.5f32.to_bits())),
        ),
        (
            Scalar::Number(NumberScalar::Float64(2.25f64.to_bits())),
            Some(Datum::Double(2.25f64.to_bits())),
        ),
        (Scalar::Timestamp(1_700_000_000_000_000), Some(Datum::TimestampMicros(1_700_000_000_000_000))),
        (Scalar::Date(19000), Some(Datum::Date(19000))),
        (Scalar::Boolean(true), Some(Datum::Bool(true))),
        (Scalar::Binary(vec![1, 2, 3]), Some(Datum::Binary(vec![1, 2, 3]))),
        (
            Scalar::String("abc".to_string()),
            Some(Datum::String("abc".to_string())),
        ),
        (Scalar::Other, None),
    ];
    for (scalar, expected) in cases {
        assert_eq!(scalar_to_datatum(&scalar), expected, "{scalar:?}");
    }
}

#[test]
fn unary_operators() {
    assert_eq!(
        build_unary(reference("a"), "is_null"),
        Some(Predicate::Unary(PredicateOperator::IsNull, reference("a")))
    );
    assert_eq!(
        build_unary(reference("a"), "is_not_null"),
        Some(Predicate::Unary(PredicateOperator::NotNull, reference("a")))
    );
    assert_eq!(build_unary(reference("a"), "not"), None);
}

#[test]
fn binary_operators() {
    let table = [
        ("lt", "<", PredicateOperator::LessThan, PredicateOperator::GreaterThan),
        ("le", "<=", PredicateOperator::LessThanOrEq, PredicateOperator::GreaterThanOrEq),
        ("gt", ">", PredicateOperator::GreaterThan, PredicateOperator::LessThan),
        ("ge", ">=", PredicateOperator::GreaterThanOrEq, PredicateOperator::LessThanOrEq),
        ("eq", "=", PredicateOperator::Eq, PredicateOperator::Eq),
        ("ne", "!=", PredicateOperator::NotEq, PredicateOperator::NotEq),
    ];
    for (name, symbol, op, reversed) in table {
        for n in [name, symbol] {
            assert_eq!(
                build_binary(reference("c"), n, Datum::Long(1)),
                Some(binary(op, "c", Datum::Long(1)))
            );
            assert_eq!(
                build_reverse_binary(reference("c"), n, Datum::Long(1)),
                Some(binary(reversed, "c", Datum::Long(1)))
            );
        }
    }
    assert_eq!(build_binary(reference("c"), "like", Datum::Long(1)), None);
    assert_eq!(build_reverse_binary(reference("c"), "and", Datum::Long(1)), None);
}

#[test]
fn build_boolean_constants() {
    assert_eq!(
        PredicateBuilder::build(&bool_const(true, false)),
        (false, Predicate::AlwaysTrue)
    );
    assert_eq!(
        PredicateBuilder::build(&bool_const(false, false)),
        (false, Predicate::AlwaysFalse)
    );
    assert_eq!(
        PredicateBuilder::build(&bool_const(true, true)),
        (false, Predicate::AlwaysTrue)
    );
    // a null boolean constant filters everything out
    let null_bool = RemoteExpr::Constant {
        scalar: Scalar::Other,
        data_type: DataType::Nullable(Box::new(DataType::Boolean)),
    };
    assert_eq!(
        PredicateBuilder::build(&null_bool),
        (false, Predicate::AlwaysFalse)
    );
    // a constant that is not boolean cannot be translated
    assert_eq!(
        PredicateBuilder::build(&int_const(1)),
        (true, Predicate::AlwaysTrue)
    );
}

#[test]
fn build_comparisons() {
    assert_eq!(
        PredicateBuilder::build(&call("lt", vec![col("a"), int_const(10)])),
        (
            false,
            binary(PredicateOperator::LessThan, "a", Datum::Int(10))
        )
    );
    assert_eq!(
        PredicateBuilder::build(&call("lt", vec![int_const(10), col("a")])),
        (
            false,
            binary(PredicateOperator::GreaterThan, "a", Datum::Int(10))
        )
    );
    assert_eq!(
        PredicateBuilder::build(&call("is_not_null", vec![col("a")])),
        (
            false,
            Predicate::Unary(PredicateOperator::NotNull, reference("a"))
        )
    );
    // unknown functions, and constants without a datum, are uncertain
    assert_eq!(
        PredicateBuilder::build(&call("like", vec![col("a"), int_const(10)])),
        (true, Predicate::AlwaysTrue)
    );
    let null_const = RemoteExpr::Constant {
        scalar: Scalar::Other,
        data_type: DataType::Other,
    };
    assert_eq!(
        PredicateBuilder::build(&call("eq", vec![col("a"), null_const])),
        (true, Predicate::AlwaysTrue)
    );
    // comparing two columns is uncertain
    assert_eq!(
        PredicateBuilder::build(&call("eq", vec![col("a"), col("b")])),
        (true, Predicate::AlwaysTrue)
    );
    assert_eq!(
        PredicateBuilder::build(&RemoteExpr::Other),
        (true, Predicate::AlwaysTrue)
    );
    assert_eq!(
        PredicateBuilder::build(&col("a")),
        (true, Predicate::AlwaysTrue)
    );
}

#[test]
fn build_not_negates() {
    assert_eq!(
        PredicateBuilder::build(&call("not", vec![call("lt", vec![col("a"), int_const(5)])])),
        (
            false,
            binary(PredicateOperator::GreaterThanOrEq, "a", Datum::Int(5))
        )
    );
    assert_eq!(
        PredicateBuilder::build(&call("not", vec![bool_const(true, false)])),
        (false, Predicate::AlwaysFalse)
    );
    // De Morgan: not(a < 5 and b > 1) is a >= 5 or b <= 1
    let conj = call(
        "and",
        vec![
            call("lt", vec![col("a"), int_const(5)]),
            call("gt", vec![col("b"), int_const(1)]),
        ],
    );
    assert_eq!(
        PredicateBuilder::build(&call("not", vec![conj])),
        (
            false,
            Predicate::Or(
                Box::new(binary(PredicateOperator::GreaterThanOrEq, "a", Datum::Int(5))),
                Box::new(binary(PredicateOperator::LessThanOrEq, "b", Datum::Int(1)))
            )
        )
    );
    // not(column) goes to the unary case, where `not` is unknown
    assert_eq!(
        PredicateBuilder::build(&call("not", vec![col("a")])),
        (true, Predicate::AlwaysTrue)
    );
}

#[test]
fn build_double_not_and_is_true_are_transparent() {
    let inner = || call("ge", vec![col("x"), int_const(3)]);
    let plain = PredicateBuilder::build(&inner());
    assert_eq!(
        PredicateBuilder::build(&call("not", vec![call("not", vec![inner()])])),
        plain
    );
    assert_eq!(
        PredicateBuilder::build(&call("is_true", vec![inner()])),
        plain
    );
    assert_eq!(
        PredicateBuilder::build(&call("is_true", vec![col("x")])),
        PredicateBuilder::build(&col("x"))
    );
}

#[test]
fn build_and_or_fold_constants() {
    let lt = || call("lt", vec![col("a"), int_const(5)]);
    for name in ["and", "and_filters"] {
        assert_eq!(
            PredicateBuilder::build(&call(name, vec![lt(), bool_const(true, false)])),
            (false, binary(PredicateOperator::LessThan, "a", Datum::Int(5)))
        );
        assert_eq!(
            PredicateBuilder::build(&call(name, vec![lt(), bool_const(false, false)])),
            (false, Predicate::AlwaysFalse)
        );
        assert_eq!(
            PredicateBuilder::build(&call(name, vec![lt(), lt()])),
            (
                false,
                Predicate::And(
                    Box::new(binary(PredicateOperator::LessThan, "a", Datum::Int(5))),
                    Box::new(binary(PredicateOperator::LessThan, "a", Datum::Int(5)))
                )
            )
        );
    }
    for name in ["or", "or_filters"] {
        assert_eq!(
            PredicateBuilder::build(&call(name, vec![lt(), bool_const(true, false)])),
            (false, Predicate::AlwaysTrue)
        );
        assert_eq!(
            PredicateBuilder::build(&call(name, vec![bool_const(false, false), lt()])),
            (false, binary(PredicateOperator::LessThan, "a", Datum::Int(5)))
        );
    }
    // an uncertain operand makes the whole conjunction uncertain
    assert_eq!(
        PredicateBuilder::build(&call("and", vec![lt(), call("like", vec![col("s"), int_const(1)])])),
        (true, Predicate::AlwaysTrue)
    );
}

#[test]
fn negate_is_involutive() {
    let p = Predicate::And(
        Box::new(binary(PredicateOperator::Eq, "a", Datum::Bool(true))),
        Box::new(Predicate::Unary(PredicateOperator::IsNull, reference("b"))),
    );
    let twice = p.negate().negate();
    assert_eq!(
        twice,
        Predicate::And(
            Box::new(binary(PredicateOperator::Eq, "a", Datum::Bool(true))),
            Box::new(Predicate::Unary(PredicateOperator::IsNull, reference("b"))),
        )
    );
}
