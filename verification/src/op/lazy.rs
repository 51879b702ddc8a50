//! Operations of operators that evaluate their own arguments.

use vstd::prelude::*;

use crate::error::Error;
use crate::op::lookup::{
    arguments_outcome, given_args, op_from_static_and_dynamic, single_entry, values_of, Either,
};
use crate::op::maps::{DynamicOperatorMap, OperatorMap};
use crate::op::operators::{DynamicLazyOperator, LazyOperator};
use crate::value::{Value, ValueModel};

verus! {

/// The mathematical values of a sequence of JSON values.
pub open spec fn models_of(values: Seq<Value>) -> Seq<ValueModel> {
    values.map_values(|v: Value| v.model())
}

/// An operation of an operator that evaluates its own arguments: the
/// operator, and the arguments as the rule wrote them.
#[derive(Debug)]
pub enum LazyOperation<'a, F> {
    Static { operator: &'a LazyOperator, arguments: Vec<Value> },
    Dynamic { operator: DynamicLazyOperator<F>, arguments: Vec<Value> },
}

impl<'a, F: Copy> LazyOperation<'a, F> {
    /// The symbol of the operation's operator.
    pub open spec fn symbol_view(self) -> Seq<char> {
        match self {
            LazyOperation::Static { operator, .. } => operator.symbol@,
            LazyOperation::Dynamic { operator, .. } => operator.symbol@,
        }
    }

    /// The mathematical values of the operation's arguments.
    pub open spec fn arguments_model(self) -> Seq<ValueModel> {
        match self {
            LazyOperation::Static { arguments, .. } => Value::items_model(arguments),
            LazyOperation::Dynamic { arguments, .. } => Value::items_model(arguments),
        }
    }

    /// The rule that the operation is written as: an object whose single key
    /// is the symbol, with the arguments in an array under it.
    pub open spec fn rule_model(self) -> ValueModel {
        ValueModel::Object(seq![(self.symbol_view(), ValueModel::Array(self.arguments_model()))])
    }

    /// Whether this operation is what `value` reads as: `value` is an object
    /// with a single key, under which the registry or else the table holds an
    /// operator, and the arguments under the key are accepted by it and
    /// copied here.
    pub open spec fn read_from(
        self,
        value: Value,
        static_map: OperatorMap<LazyOperator>,
        dynamic_map: DynamicOperatorMap<DynamicLazyOperator<F>>,
    ) -> bool {
        match single_entry(value) {
            None => false,
            Some((key, val)) => if dynamic_map@.contains_key(key@) {
                let op = dynamic_map@[key@];
                &&& self matches LazyOperation::Dynamic { operator, .. } && operator == op
                &&& given_args(val, op.num_params) matches Some(args) && op.num_params.accepts(
                    args.len() as int,
                ) && self.arguments_model() == models_of(args)
            } else {
                match static_map.spec_get(key@) {
                    None => false,
                    Some(op) => {
                        &&& self matches LazyOperation::Static { operator, .. } && *operator == op
                        &&& given_args(val, op.num_params) matches Some(args)
                            && op.num_params.accepts(args.len() as int) && self.arguments_model()
                            == models_of(args)
                    },
                }
            },
        }
    }

    /// Reads `value` as an operation of an operator that evaluates its own
    /// arguments, looked up in the registry `dynamic_map` first and then in
    /// the table `static_map`. Hands back no operation where `value` is not a
    /// single-key object whose key either holds, and the error of reading the
    /// arguments where they do not suit the operator.
    pub fn from_value(
        value: &Value,
        static_map: &'a OperatorMap<LazyOperator>,
        dynamic_map: &DynamicOperatorMap<DynamicLazyOperator<F>>,
    ) -> (res: Result<Option<Self>, Error>)
        ensures
            match single_entry(*value) {
                None => res matches Ok(None),
                Some((key, val)) => {
                    let params = if dynamic_map@.contains_key(key@) {
                        Some(dynamic_map@[key@].num_params)
                    } else {
                        match static_map.spec_get(key@) {
                            Some(op) => Some(op.num_params),
                            None => None,
                        }
                    };
                    match params {
                        None => res matches Ok(None),
                        Some(params) => match res {
                            Ok(Some(op)) => op.read_from(*value, *static_map, *dynamic_map),
                            Ok(None) => false,
                            Err(e) => arguments_outcome(val, params, key@, Err(e)),
                        },
                    }
                },
            },
    {
        match op_from_static_and_dynamic(static_map, dynamic_map, value) {
            Ok(Some(Either::Left(found))) => {
                let arguments = copy_args(&found.args);
                assert(models_of(values_of(found.args@)) =~= found.args@.map_values(
                    |r: &Value| r.model(),
                ));
                Ok(Some(LazyOperation::Static { operator: found.op, arguments }))
            },
            Ok(Some(Either::Right(found))) => {
                let arguments = copy_args(&found.args);
                assert(models_of(values_of(found.args@)) =~= found.args@.map_values(
                    |r: &Value| r.model(),
                ));
                Ok(Some(LazyOperation::Dynamic { operator: found.op, arguments }))
            },
            Ok(None) => Ok(None),
            Err(e) => Err(e),
        }
    }

    /// The rule that this operation is written as: an object whose single key
    /// is the operator's symbol, with the arguments in an array under it.
    pub fn to_value(self) -> (rule: Value)
        ensures
            rule.model() == self.rule_model(),
    {
        let (symbol, arguments) = match self {
            LazyOperation::Static { operator, arguments } => (operator.symbol.to_owned(), arguments),
            LazyOperation::Dynamic { operator, arguments } => (operator.symbol, arguments),
        };
        let entries = vec![(symbol, Value::Array(arguments))];
        assert(Value::entries_model(entries) =~= seq![
            (self.symbol_view(), ValueModel::Array(self.arguments_model())),
        ]);
        Value::Object(entries)
    }
}

/// An operation read from a rule is written as that same rule where the
/// rule gives its arguments in an array; where it gives a single bare
/// argument, it is written with that argument in an array. This holds where
/// the operator that the rule's key finds, in the registry or else in the
/// table, is filed under its own symbol.
pub proof fn lemma_lazy_operation_round_trip<'a, F: Copy>(
    value: Value,
    op: LazyOperation<'a, F>,
    static_map: OperatorMap<LazyOperator>,
    dynamic_map: DynamicOperatorMap<DynamicLazyOperator<F>>,
)
    requires
        op.read_from(value, static_map, dynamic_map),
        single_entry(value) matches Some((key, _)) && (if dynamic_map@.contains_key(key@) {
            dynamic_map@[key@].symbol@ == key@
        } else {
            static_map.spec_get(key@) matches Some(found) ==> found.symbol@ == key@
        }),
    ensures
        single_entry(value) matches Some((key, val)) && if val is Array {
            op.rule_model() == value.model()
        } else {
            op.rule_model() == ValueModel::Object(
                seq![(key@, ValueModel::Array(seq![val.model()]))],
            )
        },
{
    let (key, val) = single_entry(value).unwrap();
    assert(op.symbol_view() == key@);
    if let Value::Array(items) = val {
        assert(models_of(items@) =~= Value::items_model(items));
        if let Value::Object(entries) = value {
            assert(Value::entries_model(entries) =~= seq![(key@, val.model())]);
        }
    } else {
        assert(models_of(seq![val]) =~= seq![val.model()]);
    }
}

/// Copies of the values that `args` points to, in order.
fn copy_args(args: &Vec<&Value>) -> (copies: Vec<Value>)
    ensures
        Value::items_model(copies) == args@.map_values(|r: &Value| r.model()),
{
    let mut copies: Vec<Value> = Vec::new();
    let n = args.len();
    for i in 0..n
        invariant
            n == args.len(),
            copies.len() == i,
            forall|j: int| 0 <= j < i ==> #[trigger] copies[j].model() == args@[j].model(),
    {
        copies.push(args[i].deep_copy());
    }
    assert forall|j: int| 0 <= j < n implies Value::items_model(copies)[j] == args@.map_values(
        |r: &Value| r.model(),
    )[j] by {
        assert(copies[j].model() == args@[j].model());
    }
    assert(Value::items_model(copies) =~= args@.map_values(|r: &Value| r.model()));
    copies
}

} // verus!
