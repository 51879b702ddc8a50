use jsonlogic_rs::op::{
    data_operator_map, extract_args, lazy_operator_map, op_from_map, op_from_static_and_dynamic,
    operator_map, DynamicDataOperator, DynamicLazyOperator, DynamicOperator, DynamicOperatorMap,
    Either, LazyOperation, has_single_entry,
};
use jsonlogic_rs::{Error, NumParams, Number, Value};

type OperatorFn = fn(&Vec<&Value>) -> Result<Value, Error>;
type LazyOperatorFn = fn(&Value, &Vec<&Value>) -> Result<Value, Error>;

fn obj(key: &str, val: Value) -> Value {
    Value::Object(vec![(key.to_string(), val)])
}

fn num(n: u64) -> Value {
    Value::Number(Number::PosInt(n))
}

fn first_arg(args: &Vec<&Value>) -> Result<Value, Error> {
    Ok(args[0].clone())
}

fn custom_eq(_args: &Vec<&Value>) -> Result<Value, Error> {
    Ok(Value::String("CUSTOM!".to_string()))
}

fn lazy_count(data: &Value, args: &Vec<&Value>) -> Result<Value, Error> {
    match data {
        Value::Null => Ok(num(args.len() as u64)),
        _ => Ok(Value::Bool(false)),
    }
}

/// All operators symbols must match their keys
#[test]
fn test_operator_map_symbols() {
    operator_map().entries.iter().for_each(|(k, op)| assert_eq!(*k, op.symbol))
}

/// All lazy operators symbols must match their keys
#[test]
fn test_lazy_operator_map_symbols() {
    lazy_operator_map().entries.iter().for_each(|(k, op)| assert_eq!(*k, op.symbol))
}

#[test]
fn data_operator_map_symbols_match_keys() {
    data_operator_map().entries.iter().for_each(|(k, op)| assert_eq!(*k, op.symbol))
}

#[test]
fn tables_hold_the_builtin_operators() {
    let ops = operator_map();
    assert_eq!(ops.len(), 22);
    assert_eq!(ops.get("==").unwrap().num_params, NumParams::Exactly(2));
    assert_eq!(ops.get("!").unwrap().num_params, NumParams::Unary);
    assert_eq!(ops.get("<").unwrap().num_params, NumParams::Variadic(2..4));
    assert_eq!(ops.get("-").unwrap().num_params, NumParams::Variadic(1..3));
    assert_eq!(ops.get("*").unwrap().num_params, NumParams::AtLeast(1));
    assert_eq!(ops.get("+").unwrap().num_params, NumParams::Any);
    assert_eq!(ops.get("log").unwrap().symbol(), "log");
    assert!(ops.get("if").is_none());
    assert!(ops.get("").is_none());

    let lazy = lazy_operator_map();
    assert_eq!(lazy.len(), 10);
    assert_eq!(lazy.get("reduce").unwrap().num_params, NumParams::Exactly(3));
    assert_eq!(lazy.get("?:").unwrap().num_params, NumParams::Any);
    assert!(lazy.get("==").is_none());

    let data = data_operator_map();
    assert_eq!(data.len(), 3);
    assert_eq!(data.get("var").unwrap().num_params, NumParams::Variadic(0..3));
    assert_eq!(data.get("missing_some").unwrap().num_params, NumParams::Exactly(2));
    assert!(data.get("missing_").is_none());
}

#[test]
fn num_params_valid_lengths() {
    assert!(NumParams::Zero.is_valid_len(&0));
    assert!(!NumParams::Zero.is_valid_len(&1));
    assert!(NumParams::Any.is_valid_len(&0));
    assert!(NumParams::Any.is_valid_len(&17));
    assert!(NumParams::Unary.is_valid_len(&1));
    assert!(!NumParams::Unary.is_valid_len(&2));
    assert!(NumParams::Exactly(2).is_valid_len(&2));
    assert!(!NumParams::Exactly(2).is_valid_len(&3));
    assert!(NumParams::AtLeast(1).is_valid_len(&5));
    assert!(!NumParams::AtLeast(1).is_valid_len(&0));
    assert!(!NumParams::Variadic(2..4).is_valid_len(&1));
    assert!(NumParams::Variadic(2..4).is_valid_len(&2));
    assert!(NumParams::Variadic(2..4).is_valid_len(&3));
    assert!(!NumParams::Variadic(2..4).is_valid_len(&4));
}

#[test]
fn num_params_check_len() {
    let len: usize = 3;
    assert_eq!(NumParams::Variadic(2..4).check_len(&len), Ok(&3));
    assert_eq!(
        NumParams::Exactly(2).check_len(&len),
        Err(Error::WrongArgumentCount { expected: NumParams::Exactly(2), actual: 3 })
    );
    assert_eq!(
        NumParams::Zero.check_len(&len),
        Err(Error::WrongArgumentCount { expected: NumParams::Zero, actual: 3 })
    );
}

#[test]
fn num_params_bare_argument() {
    assert!(!NumParams::Zero.can_accept_unary());
    assert!(NumParams::Any.can_accept_unary());
    assert!(NumParams::Unary.can_accept_unary());
    assert!(NumParams::Exactly(1).can_accept_unary());
    assert!(!NumParams::Exactly(2).can_accept_unary());
    assert!(NumParams::AtLeast(1).can_accept_unary());
    assert!(!NumParams::AtLeast(0).can_accept_unary());
    assert!(NumParams::Variadic(0..3).can_accept_unary());
    assert!(!NumParams::Variadic(2..4).can_accept_unary());
}

#[test]
fn bare_argument_agrees_with_one_argument() {
    for p in [
        NumParams::Zero,
        NumParams::Any,
        NumParams::Unary,
        NumParams::Exactly(1),
        NumParams::Exactly(2),
        NumParams::AtLeast(1),
        NumParams::Variadic(1..2),
        NumParams::Variadic(2..4),
    ] {
        assert_eq!(p.can_accept_unary(), p.is_valid_len(&1));
    }
    // The exception: at least two arguments, yet a bare one is taken.
    assert!(NumParams::AtLeast(2).can_accept_unary());
    assert!(!NumParams::AtLeast(2).is_valid_len(&1));
}

#[test]
fn num_params_clone_is_equal() {
    let p = NumParams::Variadic(2..4);
    assert_eq!(p.clone(), p);
}

#[test]
fn extract_args_from_array() {
    let val = Value::Array(vec![num(1), Value::Bool(true)]);
    let args = extract_args(&val, &NumParams::Exactly(2), "==").unwrap();
    assert_eq!(args, vec![&num(1), &Value::Bool(true)]);
}

#[test]
fn extract_args_bare_value() {
    let val = Value::Bool(true);
    let args = extract_args(&val, &NumParams::Unary, "!").unwrap();
    assert_eq!(args, vec![&Value::Bool(true)]);
}

#[test]
fn extract_args_bare_value_rejected() {
    let val = Value::Bool(true);
    let err = extract_args(&val, &NumParams::Exactly(2), "==").unwrap_err();
    assert_eq!(
        err,
        Error::InvalidOperation {
            key: "==".to_string(),
            reason: "Arguments to non-unary operations must be arrays".to_string(),
        }
    );
}

#[test]
fn extract_args_wrong_count() {
    let val = Value::Array(vec![num(1)]);
    let err = extract_args(&val, &NumParams::Exactly(2), "==").unwrap_err();
    assert_eq!(err, Error::WrongArgumentCount { expected: NumParams::Exactly(2), actual: 1 });
}

#[test]
fn op_from_map_not_an_operation() {
    let ops = operator_map();
    assert!(op_from_map(&ops, &num(3)).unwrap().is_none());
    let two_keys = Value::Object(vec![
        ("==".to_string(), Value::Array(vec![num(1), num(1)])),
        ("!=".to_string(), Value::Array(vec![num(1), num(1)])),
    ]);
    assert!(op_from_map(&ops, &two_keys).unwrap().is_none());
    assert!(op_from_map(&ops, &obj("nope", Value::Array(vec![]))).unwrap().is_none());
    assert!(op_from_map(&ops, &Value::Object(vec![])).unwrap().is_none());
}

#[test]
fn op_from_map_finds_operator() {
    let ops = operator_map();
    let rule = obj("<", Value::Array(vec![num(1), num(2), num(3)]));
    let found = op_from_map(&ops, &rule).unwrap().unwrap();
    assert_eq!(found.op.symbol, "<");
    assert_eq!(found.args, vec![&num(1), &num(2), &num(3)]);

    let bare = obj("!", Value::Bool(false));
    let found = op_from_map(&ops, &bare).unwrap().unwrap();
    assert_eq!(found.args, vec![&Value::Bool(false)]);
}

#[test]
fn op_from_map_reports_errors() {
    let ops = operator_map();
    let rule = obj("/", Value::Array(vec![num(1)]));
    assert_eq!(
        op_from_map(&ops, &rule).err(),
        Some(Error::WrongArgumentCount { expected: NumParams::Exactly(2), actual: 1 })
    );
    let rule = obj("in", num(1));
    assert!(matches!(
        op_from_map(&ops, &rule).err(),
        Some(Error::InvalidOperation { .. })
    ));
}

#[test]
fn dynamic_operators_take_precedence() {
    let ops = operator_map();
    let mut dynamic: DynamicOperatorMap<DynamicOperator<OperatorFn>> = DynamicOperatorMap::new();
    let rule = obj("==", Value::Array(vec![num(1), num(1)]));

    match op_from_static_and_dynamic(&ops, &dynamic, &rule).unwrap().unwrap() {
        Either::Left(found) => assert_eq!(found.op.symbol, "=="),
        Either::Right(_) => panic!("no operator was registered"),
    }

    let previous = dynamic.insert(
        "==".to_string(),
        DynamicOperator::new("==", custom_eq as OperatorFn, NumParams::Exactly(2)),
    );
    assert!(previous.is_none());
    match op_from_static_and_dynamic(&ops, &dynamic, &rule).unwrap().unwrap() {
        Either::Left(_) => panic!("the registered operator takes precedence"),
        Either::Right(found) => {
            assert_eq!(found.op.symbol, "==");
            assert_eq!(found.execute_args(), Value::String("CUSTOM!".to_string()));
        }
    }
}

trait RunFound {
    fn execute_args(&self) -> Value;
}

impl<'b> RunFound for jsonlogic_rs::op::DynamicOpArgs<'b, DynamicOperator<OperatorFn>> {
    fn execute_args(&self) -> Value {
        self.op.execute(&self.args).unwrap()
    }
}

#[test]
fn dynamic_operator_argument_errors() {
    let ops = operator_map();
    let mut dynamic: DynamicOperatorMap<DynamicOperator<OperatorFn>> = DynamicOperatorMap::new();
    dynamic.insert(
        "first".to_string(),
        DynamicOperator::new("first", first_arg as OperatorFn, NumParams::Exactly(1)),
    );
    let rule = obj("first", Value::Array(vec![num(1), num(2)]));
    assert_eq!(
        op_from_static_and_dynamic(&ops, &dynamic, &rule).err(),
        Some(Error::WrongArgumentCount { expected: NumParams::Exactly(1), actual: 2 })
    );
    let rule = obj("nothing", Value::Array(vec![]));
    assert!(op_from_static_and_dynamic(&ops, &dynamic, &rule).unwrap().is_none());
    assert!(op_from_static_and_dynamic(&ops, &dynamic, &Value::Null).unwrap().is_none());
}

#[test]
fn dynamic_operator_map_insert_and_get() {
    let mut dynamic: DynamicOperatorMap<DynamicOperator<OperatorFn>> = DynamicOperatorMap::new();
    assert!(dynamic.get("first").is_none());
    let first = DynamicOperator::new("first", first_arg as OperatorFn, NumParams::Exactly(1));
    assert!(dynamic.insert("first".to_string(), first).is_none());
    assert_eq!(dynamic.get("first").unwrap().num_params, NumParams::Exactly(1));
    let again = DynamicOperator::new("first", first_arg as OperatorFn, NumParams::Any);
    let previous = dynamic.insert("first".to_string(), again).unwrap();
    assert_eq!(previous.num_params, NumParams::Exactly(1));
    assert_eq!(dynamic.get("first").unwrap().num_params, NumParams::Any);
    assert!(dynamic.get("firs").is_none());
}

#[test]
fn dynamic_operator_execute() {
    let op = DynamicOperator::new("first", first_arg as OperatorFn, NumParams::Exactly(1));
    let one = num(1);
    assert_eq!(op.execute(&vec![&one]), Ok(num(1)));
    assert_eq!(op.symbol, "first");

    let lazy = DynamicLazyOperator::new("count", lazy_count as LazyOperatorFn, NumParams::Any);
    assert_eq!(lazy.execute(&Value::Null, &vec![&one, &one]), Ok(num(2)));

    let data = DynamicDataOperator::new("count", lazy_count as LazyOperatorFn, NumParams::Any);
    assert_eq!(data.execute(&Value::Bool(true), &vec![]), Ok(Value::Bool(false)));
}

#[test]
fn lazy_operation_round_trip() {
    let lazy = lazy_operator_map();
    let dynamic: DynamicOperatorMap<DynamicLazyOperator<LazyOperatorFn>> = DynamicOperatorMap::new();
    let rule = obj(
        "if",
        Value::Array(vec![Value::Bool(true), Value::String("yes".to_string()), obj("var", num(0))]),
    );
    let op = LazyOperation::from_value(&rule, &lazy, &dynamic).unwrap().unwrap();
    match &op {
        LazyOperation::Static { operator, arguments } => {
            assert_eq!(operator.symbol, "if");
            assert_eq!(arguments.len(), 3);
        }
        LazyOperation::Dynamic { .. } => panic!("nothing was registered"),
    }
    assert_eq!(op.to_value(), rule);
}

#[test]
fn lazy_operation_bare_argument_is_wrapped() {
    let lazy = lazy_operator_map();
    let dynamic: DynamicOperatorMap<DynamicLazyOperator<LazyOperatorFn>> = DynamicOperatorMap::new();
    let rule = obj("or", Value::Bool(true));
    let op = LazyOperation::from_value(&rule, &lazy, &dynamic).unwrap().unwrap();
    assert_eq!(op.to_value(), obj("or", Value::Array(vec![Value::Bool(true)])));
}

#[test]
fn lazy_operation_dynamic_and_errors() {
    let lazy = lazy_operator_map();
    let mut dynamic: DynamicOperatorMap<DynamicLazyOperator<LazyOperatorFn>> =
        DynamicOperatorMap::new();
    dynamic.insert(
        "count".to_string(),
        DynamicLazyOperator::new("count", lazy_count as LazyOperatorFn, NumParams::AtLeast(1)),
    );
    let rule = obj("count", Value::Array(vec![num(4), num(5)]));
    let op = LazyOperation::from_value(&rule, &lazy, &dynamic).unwrap().unwrap();
    match &op {
        LazyOperation::Dynamic { operator, arguments } => {
            assert_eq!(operator.symbol, "count");
            assert_eq!(arguments, &vec![num(4), num(5)]);
        }
        LazyOperation::Static { .. } => panic!("the registered operator takes precedence"),
    }
    assert_eq!(op.to_value(), rule);

    let bad = obj("count", Value::Array(vec![]));
    assert_eq!(
        LazyOperation::from_value(&bad, &lazy, &dynamic).err(),
        Some(Error::WrongArgumentCount { expected: NumParams::AtLeast(1), actual: 0 })
    );
    let bad = obj("map", num(1));
    assert!(matches!(
        LazyOperation::from_value(&bad, &lazy, &dynamic).err(),
        Some(Error::InvalidOperation { .. })
    ));
    assert!(LazyOperation::from_value(&num(1), &lazy, &dynamic).unwrap().is_none());
}

#[test]
fn value_copy_is_equal() {
    let v = Value::Object(vec![
        ("a".to_string(), Value::Array(vec![Value::Null, Value::Number(Number::NegInt(-3))])),
        ("b".to_string(), Value::Number(Number::Float(1.5f64.to_bits()))),
    ]);
    assert_eq!(v.deep_copy(), v);
    assert_eq!(v.clone(), v);
}

#[test]
fn cleared_registry_falls_back_to_builtins() {
    let ops = operator_map();
    let mut dynamic: DynamicOperatorMap<DynamicOperator<OperatorFn>> = DynamicOperatorMap::new();
    dynamic.insert(
        "==".to_string(),
        DynamicOperator::new("==", custom_eq as OperatorFn, NumParams::Exactly(2)),
    );
    dynamic.clear();
    assert!(dynamic.get("==").is_none());
    let rule = obj("==", Value::Array(vec![num(1), num(1)]));
    match op_from_static_and_dynamic(&ops, &dynamic, &rule).unwrap().unwrap() {
        Either::Left(found) => assert_eq!(found.op.symbol, "=="),
        Either::Right(_) => panic!("the registry was cleared"),
    }
}

#[test]
fn single_entry_shape() {
    assert!(has_single_entry(&obj("x", Value::Null)));
    assert!(!has_single_entry(&Value::Object(vec![])));
    assert!(!has_single_entry(&Value::Object(vec![
        ("a".to_string(), Value::Null),
        ("b".to_string(), Value::Null),
    ])));
    assert!(!has_single_entry(&Value::Array(vec![obj("x", Value::Null)])));
}

#[test]
fn invalid_argument_error() {
    let err = Error::InvalidArgument {
        value: num(0),
        operation: "safe_divide".to_string(),
        reason: "Division by zero is not allowed".to_string(),
    };
    assert!(matches!(err, Error::InvalidArgument { ref operation, .. } if operation == "safe_divide"));
}

#[test]
fn number_equality_treats_signed_zeros_alike() {
    assert_eq!(Number::Float(0.0f64.to_bits()), Number::Float((-0.0f64).to_bits()));
    assert_eq!(Number::Float(1.5f64.to_bits()), Number::Float(1.5f64.to_bits()));
    assert_ne!(Number::Float(1.5f64.to_bits()), Number::Float((-1.5f64).to_bits()));
    assert_ne!(Number::PosInt(1), Number::Float(1.0f64.to_bits()));
    assert_eq!(Number::NegInt(-4), Number::NegInt(-4));
    assert_ne!(Number::PosInt(4), Number::PosInt(5));
    assert_eq!(
        Value::Array(vec![Value::Number(Number::Float(0.0f64.to_bits()))]),
        Value::Array(vec![Value::Number(Number::Float((-0.0f64).to_bits()))])
    );
}
