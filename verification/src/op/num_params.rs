use vstd::prelude::*;

use crate::error::Error;
use vstd::std_specs::range::ContainsSpec;

verus! {

/// How many arguments an operator accepts.
#[derive(Debug, PartialEq, Eq)]
pub enum NumParams {
    /// No argument.
    Zero,
    /// Any number of arguments.
    Any,
    /// Exactly one argument.
    Unary,
    /// Exactly the given number of arguments.
    Exactly(usize),
    /// At least the given number of arguments.
    AtLeast(usize),
    /// A number of arguments in the range, start included and end excluded.
    Variadic(std::ops::Range<usize>),
}

impl NumParams {
    /// Whether an operator with these parameters accepts `len` arguments.
    pub open spec fn accepts(&self, len: int) -> bool {
        match self {
            NumParams::Zero => len == 0,
            NumParams::Any => true,
            NumParams::Unary => len == 1,
            NumParams::AtLeast(num) => len >= *num,
            NumParams::Exactly(num) => len == *num,
            NumParams::Variadic(range) => range.start <= len < range.end,
        }
    }

    /// Whether an operator with these parameters takes a bare, non-array
    /// value as its single argument.
    pub open spec fn accepts_bare(&self) -> bool {
        match self {
            NumParams::Zero => false,
            NumParams::Any => true,
            NumParams::Unary => true,
            NumParams::AtLeast(num) => *num >= 1,
            NumParams::Exactly(num) => *num == 1,
            NumParams::Variadic(range) => range.start <= 1 < range.end,
        }
    }

    /// Whether `len` arguments are a valid count for these parameters.
    pub fn is_valid_len(&self, len: &usize) -> (valid: bool)
        ensures
            valid == self.accepts(*len as int),
    {
        match self {
            NumParams::Zero => *len == 0,
            NumParams::Any => true,
            NumParams::Unary => *len == 1,
            NumParams::AtLeast(num) => *len >= *num,
            NumParams::Exactly(num) => *len == *num,
            NumParams::Variadic(range) => range.start <= *len && *len < range.end,
        }
    }

    /// Hands `len` back where it is a valid count, and otherwise the error that
    /// names the expected parameters and the actual count.
    pub fn check_len<'a>(&self, len: &'a usize) -> (res: Result<&'a usize, Error>)
        ensures
            match res {
                Ok(l) => self.accepts(*len as int) && *l == *len,
                Err(e) => !self.accepts(*len as int) && e == (Error::WrongArgumentCount {
                    expected: *self,
                    actual: *len,
                }),
            },
    {
        match self.is_valid_len(len) {
            true => Ok(len),
            false => Err(Error::WrongArgumentCount { expected: self.clone(), actual: *len }),
        }
    }

    /// Whether a bare, non-array value can stand as the single argument.
    pub fn can_accept_unary(&self) -> (ok: bool)
        ensures
            ok == self.accepts_bare(),
    {
        match self {
            NumParams::Zero => false,
            NumParams::Any => true,
            NumParams::Unary => true,
            NumParams::AtLeast(num) => *num >= 1,
            NumParams::Exactly(num) => *num == 1,
            NumParams::Variadic(range) => range.start <= 1 && 1 < range.end,
        }
    }
}

/// An operator takes a bare, non-array value as its single argument exactly
/// where it accepts one argument. This fails for `AtLeast(n)` with `n` other
/// than 1, which takes a bare argument exactly where `n >= 1`.
pub proof fn lemma_bare_argument_is_one_argument(params: NumParams)
    requires
        !(params matches NumParams::AtLeast(n) && n != 1),
    ensures
        params.accepts_bare() == params.accepts(1),
{
}

/// What each kind of parameters accepts, stated by the counts themselves:
/// none but zero, any count, exactly one, exactly `n`, `n` or more, and for a
/// range the counts that `Range::contains` holds (start included, end
/// excluded). A bare argument is taken by exactly the kinds that accept a
/// single argument, and by `AtLeast(n)` exactly where `n` is at least one.
pub proof fn lemma_accepted_counts(params: NumParams, len: usize)
    ensures
        params matches NumParams::Zero ==> (params.accepts(len as int) <==> len == 0)
            && !params.accepts_bare(),
        params matches NumParams::Any ==> params.accepts(len as int) && params.accepts_bare(),
        params matches NumParams::Unary ==> (params.accepts(len as int) <==> len == 1)
            && params.accepts_bare(),
        params matches NumParams::Exactly(n) ==> (params.accepts(len as int) <==> len == n) && (
        params.accepts_bare() <==> n == 1),
        params matches NumParams::AtLeast(n) ==> (params.accepts(len as int) <==> len >= n) && (
        params.accepts_bare() <==> n >= 1),
        params matches NumParams::Variadic(range) ==> (params.accepts(len as int)
            <==> range.contains_spec(&len)) && (params.accepts_bare() <==> range.contains_spec(
            &1usize,
        )),
{
}

impl Clone for NumParams {
    fn clone(&self) -> (copy: Self)
        ensures
            copy == *self,
    {
        match self {
            NumParams::Zero => NumParams::Zero,
            NumParams::Any => NumParams::Any,
            NumParams::Unary => NumParams::Unary,
            NumParams::Exactly(num) => NumParams::Exactly(*num),
            NumParams::AtLeast(num) => NumParams::AtLeast(*num),
            NumParams::Variadic(range) => NumParams::Variadic(std::ops::Range { start: range.start, end: range.end }),
        }
    }
}

} // verus!
