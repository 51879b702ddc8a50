//! Operators: the tables of built-in operators, the operators registered at
//! run time, and the lookup of an operation in a rule.

mod lazy;
mod lookup;
mod maps;
mod num_params;
mod operators;
mod tables;

pub use lazy::{lemma_lazy_operation_round_trip, models_of, LazyOperation};
pub use lookup::{
    arguments_outcome, extract_args, given_args, has_single_entry, lemma_arguments_outcome_unique, lemma_given_args_shape, lemma_single_entry_shape, non_array_reason, op_from_map,
    op_from_static_and_dynamic, single_entry, values_of, DynamicOpArgs, Either, OpArgs,
};
pub use maps::{first_match, lemma_first_match_finds, lemma_first_match_sound, lemma_registered_operator_is_found, DynamicOperatorMap, OperatorMap};
pub use num_params::{lemma_accepted_counts, lemma_bare_argument_is_one_argument, NumParams};
pub use operators::{
    CommonOperator, DataOperator, DynamicDataOperator, DynamicLazyOperator, DynamicOperator,
    LazyOperator, Operator,
};
pub use tables::{
    lemma_builtin_data_operator_counts, lemma_builtin_lazy_operator_counts,
    lemma_builtin_operator_counts,
    builtin_data_operators, builtin_lazy_operators, builtin_operators, data_operator_map,
    lazy_operator_map, operator_map,
};
