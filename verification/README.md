# jsonlogic_rs

The operator lookup of a JsonLogic rule engine, each function proved against its contract.

A JsonLogic rule is a JSON value; an object with a single key that names an
operator is an operation of that operator, and the value under the key holds
its arguments (an array, or for operators that take one argument, a bare
value).

- `src/value.rs`: JSON values and their mathematical model.
- `src/op/num_params.rs`: how many arguments an operator accepts.
- `src/op/operators.rs`: built-in operators and operators registered at run
  time, whose functions are supplied by the user.
- `src/op/maps.rs`: the fixed tables of built-in operators and the registry of
  run-time operators.
- `src/op/tables.rs`: the three tables of built-in operators.
- `src/op/lookup.rs`: recognising an operation in a rule and reading its
  arguments; registered operators take precedence over built-in ones.
- `src/op/lazy.rs`: operations of operators that evaluate their own
  arguments, read from a rule and written back as one.
- `app/lib.rs`: the process-wide tables and registry behind locks, and the
  conversion between `serde_json` values and the library's values.
