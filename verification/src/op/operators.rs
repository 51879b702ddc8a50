use vstd::prelude::*;

use crate::error::Error;
use crate::op::num_params::NumParams;
use crate::value::Value;

verus! {

/// What every operator offers the lookup: its symbol and the number of
/// arguments that it accepts.
pub trait CommonOperator {
    /// The symbol of the operator, as characters.
    spec fn symbol_view(&self) -> Seq<char>;

    /// The numbers of arguments that the operator accepts.
    spec fn params_view(&self) -> NumParams;

    /// The numbers of arguments that the operator accepts.
    fn param_info(&self) -> (params: &NumParams)
        ensures
            *params == self.params_view(),
    ;
}

/// A built-in operator whose arguments are evaluated before it runs, known
/// by its symbol and the numbers of arguments that it accepts.
#[derive(Debug)]
pub struct Operator {
    pub symbol: &'static str,
    pub num_params: NumParams,
}

/// A built-in operator that evaluates its own arguments, known by its symbol
/// and the numbers of arguments that it accepts.
#[derive(Debug)]
pub struct LazyOperator {
    pub symbol: &'static str,
    pub num_params: NumParams,
}

/// A built-in operator on the data that a rule is applied to, known by its
/// symbol and the numbers of arguments that it accepts.
#[derive(Debug)]
pub struct DataOperator {
    pub symbol: &'static str,
    pub num_params: NumParams,
}

/// An operator registered at run time, whose arguments are evaluated before
/// its function runs on them.
#[derive(Debug)]
pub struct DynamicOperator<F> {
    pub symbol: String,
    pub operator: F,
    pub num_params: NumParams,
}

/// An operator registered at run time, whose function gets the data and the
/// unevaluated arguments.
#[derive(Debug)]
pub struct DynamicLazyOperator<F> {
    pub symbol: String,
    pub operator: F,
    pub num_params: NumParams,
}

/// An operator registered at run time, whose function gets the data and the
/// evaluated arguments.
#[derive(Debug)]
pub struct DynamicDataOperator<F> {
    pub symbol: String,
    pub operator: F,
    pub num_params: NumParams,
}

impl Operator {
    /// The symbol of the operator.
    pub fn symbol(&self) -> (s: &'static str)
        ensures
            s@ == self.symbol@,
    {
        self.symbol
    }
}

impl LazyOperator {
    /// The symbol of the operator.
    pub fn symbol(&self) -> (s: &'static str)
        ensures
            s@ == self.symbol@,
    {
        self.symbol
    }
}

impl DataOperator {
    /// The symbol of the operator.
    pub fn symbol(&self) -> (s: &'static str)
        ensures
            s@ == self.symbol@,
    {
        self.symbol
    }
}

impl<F: Fn(&Vec<&Value>) -> Result<Value, Error>> DynamicOperator<F> {
    /// An operator with the given symbol, function and parameters.
    pub fn new(symbol: &str, operator: F, num_params: NumParams) -> (op: Self)
        ensures
            op.symbol@ == symbol@,
            op.operator == operator,
            op.num_params == num_params,
    {
        Self { symbol: symbol.to_owned(), operator, num_params }
    }

    /// Runs the operator's function on the evaluated arguments, and hands
    /// back what it returns.
    pub fn execute(&self, items: &Vec<&Value>) -> (res: Result<Value, Error>)
        requires
            self.operator.requires((items,)),
        ensures
            self.operator.ensures((items,), res),
    {
        (self.operator)(items)
    }
}

impl<F: Fn(&Value, &Vec<&Value>) -> Result<Value, Error>> DynamicLazyOperator<F> {
    /// An operator with the given symbol, function and parameters.
    pub fn new(symbol: &str, operator: F, num_params: NumParams) -> (op: Self)
        ensures
            op.symbol@ == symbol@,
            op.operator == operator,
            op.num_params == num_params,
    {
        Self { symbol: symbol.to_owned(), operator, num_params }
    }

    /// Runs the operator's function on the data and the unevaluated
    /// arguments, and hands back what it returns.
    pub fn execute(&self, data: &Value, items: &Vec<&Value>) -> (res: Result<Value, Error>)
        requires
            self.operator.requires((data, items)),
        ensures
            self.operator.ensures((data, items), res),
    {
        (self.operator)(data, items)
    }
}

impl<F: Fn(&Value, &Vec<&Value>) -> Result<Value, Error>> DynamicDataOperator<F> {
    /// An operator with the given symbol, function and parameters.
    pub fn new(symbol: &str, operator: F, num_params: NumParams) -> (op: Self)
        ensures
            op.symbol@ == symbol@,
            op.operator == operator,
            op.num_params == num_params,
    {
        Self { symbol: symbol.to_owned(), operator, num_params }
    }

    /// Runs the operator's function on the data and the evaluated arguments,
    /// and hands back what it returns.
    pub fn execute(&self, data: &Value, items: &Vec<&Value>) -> (res: Result<Value, Error>)
        requires
            self.operator.requires((data, items)),
        ensures
            self.operator.ensures((data, items), res),
    {
        (self.operator)(data, items)
    }
}

impl<F: Copy> Clone for DynamicOperator<F> {
    fn clone(&self) -> (copy: Self)
        ensures
            copy == *self,
    {
        Self { symbol: self.symbol.clone(), operator: self.operator, num_params: self.num_params.clone() }
    }
}

impl<F: Copy> Clone for DynamicLazyOperator<F> {
    fn clone(&self) -> (copy: Self)
        ensures
            copy == *self,
    {
        Self { symbol: self.symbol.clone(), operator: self.operator, num_params: self.num_params.clone() }
    }
}

impl<F: Copy> Clone for DynamicDataOperator<F> {
    fn clone(&self) -> (copy: Self)
        ensures
            copy == *self,
    {
        Self { symbol: self.symbol.clone(), operator: self.operator, num_params: self.num_params.clone() }
    }
}

impl CommonOperator for Operator {
    open spec fn symbol_view(&self) -> Seq<char> {
        self.symbol@
    }

    open spec fn params_view(&self) -> NumParams {
        self.num_params
    }

    fn param_info(&self) -> (params: &NumParams) {
        &self.num_params
    }
}

impl CommonOperator for LazyOperator {
    open spec fn symbol_view(&self) -> Seq<char> {
        self.symbol@
    }

    open spec fn params_view(&self) -> NumParams {
        self.num_params
    }

    fn param_info(&self) -> (params: &NumParams) {
        &self.num_params
    }
}

impl CommonOperator for DataOperator {
    open spec fn symbol_view(&self) -> Seq<char> {
        self.symbol@
    }

    open spec fn params_view(&self) -> NumParams {
        self.num_params
    }

    fn param_info(&self) -> (params: &NumParams) {
        &self.num_params
    }
}

impl<F> CommonOperator for DynamicOperator<F> {
    open spec fn symbol_view(&self) -> Seq<char> {
        self.symbol@
    }

    open spec fn params_view(&self) -> NumParams {
        self.num_params
    }

    fn param_info(&self) -> (params: &NumParams) {
        &self.num_params
    }
}

impl<F> CommonOperator for DynamicLazyOperator<F> {
    open spec fn symbol_view(&self) -> Seq<char> {
        self.symbol@
    }

    open spec fn params_view(&self) -> NumParams {
        self.num_params
    }

    fn param_info(&self) -> (params: &NumParams) {
        &self.num_params
    }
}

impl<F> CommonOperator for DynamicDataOperator<F> {
    open spec fn symbol_view(&self) -> Seq<char> {
        self.symbol@
    }

    open spec fn params_view(&self) -> NumParams {
        self.num_params
    }

    fn param_info(&self) -> (params: &NumParams) {
        &self.num_params
    }
}

} // verus!
