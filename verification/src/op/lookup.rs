//! Recognising an operation in a rule: an object with a single key that names
//! an operator, and the arguments under that key.

use vstd::prelude::*;

use crate::error::Error;
use crate::op::maps::{DynamicOperatorMap, OperatorMap};
use crate::op::num_params::NumParams;
use crate::op::operators::CommonOperator;
use crate::value::Value;

verus! {

/// An operator of a fixed table, with the arguments that a rule gives it.
pub struct OpArgs<'a, 'b, T> {
    pub op: &'a T,
    pub args: Vec<&'b Value>,
}

/// An operator registered at run time, with the arguments that a rule gives
/// it.
pub struct DynamicOpArgs<'b, T> {
    pub op: T,
    pub args: Vec<&'b Value>,
}

/// One of two results: an operator of a fixed table (left) or one registered
/// at run time (right).
pub enum Either<L, R> {
    Left(L),
    Right(R),
}

/// The key and the value of `value`, where it is an object with exactly one
/// entry.
pub open spec fn single_entry(value: Value) -> Option<(String, Value)> {
    match value {
        Value::Object(entries) => if entries.len() == 1 {
            Some(entries[0])
        } else {
            None
        },
        _ => None,
    }
}

/// A rule names an operation exactly by its shape: an object with one entry
/// yields that entry, whatever the entry's value is, and any other value (an
/// object with no entry or with several, or not an object) yields none.
pub proof fn lemma_single_entry_shape(value: Value)
    ensures
        match value {
            Value::Object(entries) => if entries.len() == 1 {
                single_entry(value) == Some((entries[0].0, entries[0].1))
            } else {
                single_entry(value) is None
            },
            _ => single_entry(value) is None,
        },
{
}

/// The arguments of an operation are the items of an array, whatever they
/// are; any value that is not an array, of whatever kind, is the single
/// argument of an operator that takes a bare argument, and no arguments at
/// all for any other operator.
pub proof fn lemma_given_args_shape(val: Value, params: NumParams)
    ensures
        val matches Value::Array(items) ==> given_args(val, params) == Some(items@),
        !(val is Array) && params.accepts_bare() ==> given_args(val, params) == Some(seq![val]),
        !(val is Array) && !params.accepts_bare() ==> given_args(val, params) is None,
{
}

/// Reading the arguments has exactly one outcome: the arguments themselves
/// where they are given as the operator takes them and it accepts their
/// number; the count error naming the operator's parameters and the number
/// given where it does not accept that number; and where they are not given
/// as it takes them, the error naming the operator's key with the reason
/// "Arguments to non-unary operations must be arrays". The arguments are the
/// values that the references point to, in order.
pub proof fn lemma_arguments_outcome_unique(
    val: Value,
    params: NumParams,
    key: Seq<char>,
    outcome: Result<Seq<Value>, Error>,
    refs: Seq<&Value>,
)
    ensures
        values_of(refs).len() == refs.len(),
        forall|i: int| 0 <= i < refs.len() ==> values_of(refs)[i] == *refs[i],
        match given_args(val, params) {
            Some(args) => if params.accepts(args.len() as int) {
                arguments_outcome(val, params, key, outcome) <==> outcome == Ok::<Seq<Value>, Error>(
                    args,
                )
            } else {
                arguments_outcome(val, params, key, outcome) <==> outcome == Err::<Seq<Value>, Error>(
                    Error::WrongArgumentCount { expected: params, actual: args.len() as usize },
                )
            },
            None => arguments_outcome(val, params, key, outcome) <==> match outcome {
                Err(Error::InvalidOperation { key: k, reason: r }) => k@ == key && r@
                    == "Arguments to non-unary operations must be arrays"@,
                _ => false,
            },
        },
{
}

/// Whether `value` is an object with exactly one entry, the only shape in
/// which a rule names an operation.
pub fn has_single_entry(value: &Value) -> (single: bool)
    ensures
        single == single_entry(*value) is Some,
{
    match value {
        Value::Object(obj) => obj.len() == 1,
        _ => false,
    }
}

/// The arguments that `val` gives an operator with parameters `params`,
/// before their number is checked: the items of an array, or else `val`
/// alone where the operator takes a bare argument.
pub open spec fn given_args(val: Value, params: NumParams) -> Option<Seq<Value>> {
    match val {
        Value::Array(items) => Some(items@),
        _ => if params.accepts_bare() {
            Some(seq![val])
        } else {
            None
        },
    }
}

/// The values that a sequence of references points to.
pub open spec fn values_of(args: Seq<&Value>) -> Seq<Value> {
    args.map_values(|r: &Value| *r)
}

/// The reason given when a non-array value is handed to an operator that
/// takes no bare argument.
pub open spec fn non_array_reason() -> Seq<char> {
    "Arguments to non-unary operations must be arrays"@
}

/// Whether `outcome` is what reading the arguments `val` of the operator
/// `key` with parameters `params` gives: the arguments where they are given
/// as the operator takes them and their number is accepted, else the error
/// that says why not.
pub open spec fn arguments_outcome(
    val: Value,
    params: NumParams,
    key: Seq<char>,
    outcome: Result<Seq<Value>, Error>,
) -> bool {
    match given_args(val, params) {
        None => outcome matches Err(Error::InvalidOperation { key: k, reason: r }) && k@ == key
            && r@ == non_array_reason(),
        Some(args) => if params.accepts(args.len() as int) {
            outcome == Ok::<Seq<Value>, Error>(args)
        } else {
            outcome == Err::<Seq<Value>, Error>(
                Error::WrongArgumentCount { expected: params, actual: args.len() as usize },
            )
        },
    }
}

/// The arguments that `val` gives the operator `key` with parameters
/// `param_info`. An array gives its items; another value is the single
/// argument of an operator that takes a bare argument, and an error for any
/// other operator. The number of arguments is then checked.
pub fn extract_args<'a>(val: &'a Value, param_info: &NumParams, key: &str) -> (res: Result<
    Vec<&'a Value>,
    Error,
>)
    ensures
        arguments_outcome(
            *val,
            *param_info,
            key@,
            match res {
                Ok(args) => Ok(values_of(args@)),
                Err(e) => Err(e),
            },
        ),
{
    let args: Vec<&'a Value> = match val {
        Value::Array(items) => {
            let mut args: Vec<&'a Value> = Vec::new();
            let n = items.len();
            for i in 0..n
                invariant
                    n == items.len(),
                    args@.len() == i,
                    forall|j: int| 0 <= j < i ==> *args@[j] == items@[j],
            {
                args.push(&items[i]);
            }
            assert(values_of(args@) =~= items@);
            args
        },
        _ => match param_info.can_accept_unary() {
            true => {
                let args: Vec<&'a Value> = vec![val];
                assert(values_of(args@) =~= seq![*val]);
                args
            },
            false => {
                return Err(
                    Error::InvalidOperation {
                        key: key.to_owned(),
                        reason: "Arguments to non-unary operations must be arrays".to_owned(),
                    },
                );
            },
        },
    };
    match param_info.check_len(&args.len()) {
        Ok(_) => Ok(args),
        Err(e) => Err(e),
    }
}

/// Looks `value` up in one fixed table: an object with a single key that the
/// table holds is an operation of that operator, and its arguments are read
/// as `extract_args` reads them. Any other value is no operation.
pub fn op_from_map<'a, 'b, T: CommonOperator>(map: &'a OperatorMap<T>, value: &'b Value) -> (res:
    Result<Option<OpArgs<'a, 'b, T>>, Error>)
    ensures
        match single_entry(*value) {
            None => res matches Ok(None),
            Some((key, val)) => match map.spec_get(key@) {
                None => res matches Ok(None),
                Some(op) => match res {
                    Ok(Some(found)) => *found.op == op && arguments_outcome(
                        val,
                        op.params_view(),
                        key@,
                        Ok(values_of(found.args@)),
                    ),
                    Ok(None) => false,
                    Err(e) => arguments_outcome(val, op.params_view(), key@, Err(e)),
                },
            },
        },
{
    let obj = match value {
        Value::Object(obj) => obj,
        _ => return Ok(None),
    };
    // With just one key.
    if obj.len() != 1 {
        return Ok(None);
    };
    let key = &obj[0].0;
    let val = &obj[0].1;

    // See if the key is an operator. If it's not, return None.
    let op = match map.get(key.as_str()) {
        Some(op) => op,
        _ => return Ok(None),
    };
    let param_info = op.param_info();
    match extract_args(val, param_info, key.as_str()) {
        Ok(args) => Ok(Some(OpArgs { op, args })),
        Err(e) => Err(e),
    }
}

/// Looks `value` up among the operators registered at run time, and then in
/// the fixed table: an object with a single key is an operation of the
/// operator registered under that key if there is one, which takes
/// precedence, else of the table's operator under that key. Its arguments are
/// read as `extract_args` reads them. Any other value is no operation. The
/// registered operator is handed back as a clone.
pub fn op_from_static_and_dynamic<'a, 'b, T: CommonOperator, D: CommonOperator + Clone>(
    static_map: &'a OperatorMap<T>,
    dynamic_map: &DynamicOperatorMap<D>,
    value: &'b Value,
) -> (res: Result<Option<Either<OpArgs<'a, 'b, T>, DynamicOpArgs<'b, D>>>, Error>)
    ensures
        match single_entry(*value) {
            None => res matches Ok(None),
            Some((key, val)) => if dynamic_map@.contains_key(key@) {
                match res {
                    Ok(Some(Either::Right(found))) => cloned(dynamic_map@[key@], found.op)
                        && arguments_outcome(
                        val,
                        dynamic_map@[key@].params_view(),
                        key@,
                        Ok(values_of(found.args@)),
                    ),
                    Ok(_) => false,
                    Err(e) => arguments_outcome(val, dynamic_map@[key@].params_view(), key@, Err(e)),
                }
            } else {
                match static_map.spec_get(key@) {
                    None => res matches Ok(None),
                    Some(op) => match res {
                        Ok(Some(Either::Left(found))) => *found.op == op && arguments_outcome(
                            val,
                            op.params_view(),
                            key@,
                            Ok(values_of(found.args@)),
                        ),
                        Ok(_) => false,
                        Err(e) => arguments_outcome(val, op.params_view(), key@, Err(e)),
                    },
                }
            },
        },
{
    let obj = match value {
        Value::Object(obj) => obj,
        _ => return Ok(None),
    };
    // With just one key.
    if obj.len() != 1 {
        return Ok(None);
    };
    let key = &obj[0].0;
    let val = &obj[0].1;

    // First check dynamic operators (they take precedence)
    if let Some(op) = dynamic_map.get(key.as_str()) {
        let param_info = op.param_info();
        return match extract_args(val, param_info, key.as_str()) {
            Ok(args) => Ok(Some(Either::Right(DynamicOpArgs { op: op.clone(), args }))),
            Err(e) => Err(e),
        };
    }

    // Then check static operators
    if let Some(op) = static_map.get(key.as_str()) {
        let param_info = op.param_info();
        return match extract_args(val, param_info, key.as_str()) {
            Ok(args) => Ok(Some(Either::Left(OpArgs { op, args }))),
            Err(e) => Err(e),
        };
    }

    Ok(None)
}

} // verus!
