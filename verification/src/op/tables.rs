//! The tables of built-in operators.

use vstd::prelude::*;

use crate::op::maps::{lemma_first_match_finds, OperatorMap};
use crate::op::num_params::NumParams;
use crate::op::operators::{CommonOperator, DataOperator, LazyOperator, Operator};

verus! {
/// The symbols and parameters of the built-in operators whose arguments are evaluated before they run, in table order.
pub open spec fn builtin_operators() -> Seq<(Seq<char>, NumParams)> {
    seq![
        ("=="@, NumParams::Exactly(2)),
        ("!="@, NumParams::Exactly(2)),
        ("==="@, NumParams::Exactly(2)),
        ("!=="@, NumParams::Exactly(2)),
        ("!"@, NumParams::Unary),
        ("!!"@, NumParams::Unary),
        ("<"@, NumParams::Variadic(std::ops::Range { start: 2, end: 4 })),
        ("<="@, NumParams::Variadic(std::ops::Range { start: 2, end: 4 })),
        (">"@, NumParams::Variadic(std::ops::Range { start: 2, end: 4 })),
        (">="@, NumParams::Variadic(std::ops::Range { start: 2, end: 4 })),
        ("+"@, NumParams::Any),
        ("-"@, NumParams::Variadic(std::ops::Range { start: 1, end: 3 })),
        ("*"@, NumParams::AtLeast(1)),
        ("/"@, NumParams::Exactly(2)),
        ("%"@, NumParams::Exactly(2)),
        ("max"@, NumParams::AtLeast(1)),
        ("min"@, NumParams::AtLeast(1)),
        ("merge"@, NumParams::Any),
        ("in"@, NumParams::Exactly(2)),
        ("cat"@, NumParams::Any),
        ("substr"@, NumParams::Variadic(std::ops::Range { start: 2, end: 4 })),
        ("log"@, NumParams::Unary),
    ]
}

/// The symbols of the built-in operators whose arguments are evaluated first, in table order, with the numbers
/// of arguments that each accepts and whether it takes a bare argument.
pub proof fn lemma_builtin_operator_counts()
    ensures
        builtin_operators().len() == 22,
        builtin_operators()[0].0 == "=="@,
        forall|n: int| #[trigger] builtin_operators()[0].1.accepts(n) <==> n == 2,
        builtin_operators()[0].1.accepts_bare() == false,
        builtin_operators()[1].0 == "!="@,
        forall|n: int| #[trigger] builtin_operators()[1].1.accepts(n) <==> n == 2,
        builtin_operators()[1].1.accepts_bare() == false,
        builtin_operators()[2].0 == "==="@,
        forall|n: int| #[trigger] builtin_operators()[2].1.accepts(n) <==> n == 2,
        builtin_operators()[2].1.accepts_bare() == false,
        builtin_operators()[3].0 == "!=="@,
        forall|n: int| #[trigger] builtin_operators()[3].1.accepts(n) <==> n == 2,
        builtin_operators()[3].1.accepts_bare() == false,
        builtin_operators()[4].0 == "!"@,
        forall|n: int| #[trigger] builtin_operators()[4].1.accepts(n) <==> n == 1,
        builtin_operators()[4].1.accepts_bare() == true,
        builtin_operators()[5].0 == "!!"@,
        forall|n: int| #[trigger] builtin_operators()[5].1.accepts(n) <==> n == 1,
        builtin_operators()[5].1.accepts_bare() == true,
        builtin_operators()[6].0 == "<"@,
        forall|n: int| #[trigger] builtin_operators()[6].1.accepts(n) <==> 2 <= n < 4,
        builtin_operators()[6].1.accepts_bare() == false,
        builtin_operators()[7].0 == "<="@,
        forall|n: int| #[trigger] builtin_operators()[7].1.accepts(n) <==> 2 <= n < 4,
        builtin_operators()[7].1.accepts_bare() == false,
        builtin_operators()[8].0 == ">"@,
        forall|n: int| #[trigger] builtin_operators()[8].1.accepts(n) <==> 2 <= n < 4,
        builtin_operators()[8].1.accepts_bare() == false,
        builtin_operators()[9].0 == ">="@,
        forall|n: int| #[trigger] builtin_operators()[9].1.accepts(n) <==> 2 <= n < 4,
        builtin_operators()[9].1.accepts_bare() == false,
        builtin_operators()[10].0 == "+"@,
        forall|n: int| #[trigger] builtin_operators()[10].1.accepts(n) <==> true,
        builtin_operators()[10].1.accepts_bare() == true,
        builtin_operators()[11].0 == "-"@,
        forall|n: int| #[trigger] builtin_operators()[11].1.accepts(n) <==> 1 <= n < 3,
        builtin_operators()[11].1.accepts_bare() == true,
        builtin_operators()[12].0 == "*"@,
        forall|n: int| #[trigger] builtin_operators()[12].1.accepts(n) <==> n >= 1,
        builtin_operators()[12].1.accepts_bare() == true,
        builtin_operators()[13].0 == "/"@,
        forall|n: int| #[trigger] builtin_operators()[13].1.accepts(n) <==> n == 2,
        builtin_operators()[13].1.accepts_bare() == false,
        builtin_operators()[14].0 == "%"@,
        forall|n: int| #[trigger] builtin_operators()[14].1.accepts(n) <==> n == 2,
        builtin_operators()[14].1.accepts_bare() == false,
        builtin_operators()[15].0 == "max"@,
        forall|n: int| #[trigger] builtin_operators()[15].1.accepts(n) <==> n >= 1,
        builtin_operators()[15].1.accepts_bare() == true,
        builtin_operators()[16].0 == "min"@,
        forall|n: int| #[trigger] builtin_operators()[16].1.accepts(n) <==> n >= 1,
        builtin_operators()[16].1.accepts_bare() == true,
        builtin_operators()[17].0 == "merge"@,
        forall|n: int| #[trigger] builtin_operators()[17].1.accepts(n) <==> true,
        builtin_operators()[17].1.accepts_bare() == true,
        builtin_operators()[18].0 == "in"@,
        forall|n: int| #[trigger] builtin_operators()[18].1.accepts(n) <==> n == 2,
        builtin_operators()[18].1.accepts_bare() == false,
        builtin_operators()[19].0 == "cat"@,
        forall|n: int| #[trigger] builtin_operators()[19].1.accepts(n) <==> true,
        builtin_operators()[19].1.accepts_bare() == true,
        builtin_operators()[20].0 == "substr"@,
        forall|n: int| #[trigger] builtin_operators()[20].1.accepts(n) <==> 2 <= n < 4,
        builtin_operators()[20].1.accepts_bare() == false,
        builtin_operators()[21].0 == "log"@,
        forall|n: int| #[trigger] builtin_operators()[21].1.accepts(n) <==> n == 1,
        builtin_operators()[21].1.accepts_bare() == true,
{
}

/// No symbol occurs twice in `builtin_operators()`.
proof fn lemma_builtin_operators_distinct()
    ensures
        forall|i: int, j: int|
            0 <= i < j < builtin_operators().len() ==> builtin_operators()[i].0
                != builtin_operators()[j].0,
{
    reveal_strlit("==");
    reveal_strlit("!=");
    reveal_strlit("===");
    reveal_strlit("!==");
    reveal_strlit("!");
    reveal_strlit("!!");
    reveal_strlit("<");
    reveal_strlit("<=");
    reveal_strlit(">");
    reveal_strlit(">=");
    reveal_strlit("+");
    reveal_strlit("-");
    reveal_strlit("*");
    reveal_strlit("/");
    reveal_strlit("%");
    reveal_strlit("max");
    reveal_strlit("min");
    reveal_strlit("merge");
    reveal_strlit("in");
    reveal_strlit("cat");
    reveal_strlit("substr");
    reveal_strlit("log");
    let s = builtin_operators();
    assert forall|i: int, j: int| 0 <= i < j < s.len() implies s[i].0 != s[j].0 by {
        if s[i].0 == s[j].0 {
            assert(s[i].0.len() == s[j].0.len());
            assert(s[i].0[0] == s[j].0[0]);
            assert(s[i].0[1] == s[j].0[1]);
            assert(s[i].0[2] == s[j].0[2]);
        }
    }
}

fn operator_entry(symbol: &'static str, num_params: NumParams) -> (entry: (&'static str, Operator))
    ensures
        entry.0 == symbol,
        entry.1.symbol == symbol,
        entry.1.num_params == num_params,
{
    (symbol, Operator { symbol, num_params })
}

/// The table of built-in operators whose arguments are evaluated before they run. Each entry
/// is filed under its operator's symbol, and no symbol occurs twice.
pub fn operator_map() -> (m: OperatorMap<Operator>)
    ensures
        m.entries@.len() == builtin_operators().len(),
        forall|i: int|
            0 <= i < m.entries@.len() ==> {
                &&& #[trigger] m.entries@[i].0@ == builtin_operators()[i].0
                &&& m.entries@[i].1.num_params == builtin_operators()[i].1
            },
        m.files_by_symbol(),
        forall|i: int, j: int|
            0 <= i < j < m.entries@.len() ==> m.entries@[i].0@ != m.entries@[j].0@,
        forall|i: int|
            0 <= i < m.entries@.len() ==> m.spec_get(#[trigger] m.entries@[i].0@) == Some(
                m.entries@[i].1,
            ),
{
    proof {
        lemma_builtin_operators_distinct();
    }
    let entries = vec![
        operator_entry("==", NumParams::Exactly(2)),
        operator_entry("!=", NumParams::Exactly(2)),
        operator_entry("===", NumParams::Exactly(2)),
        operator_entry("!==", NumParams::Exactly(2)),
        operator_entry("!", NumParams::Unary),
        operator_entry("!!", NumParams::Unary),
        operator_entry("<", NumParams::Variadic(std::ops::Range { start: 2, end: 4 })),
        operator_entry("<=", NumParams::Variadic(std::ops::Range { start: 2, end: 4 })),
        operator_entry(">", NumParams::Variadic(std::ops::Range { start: 2, end: 4 })),
        operator_entry(">=", NumParams::Variadic(std::ops::Range { start: 2, end: 4 })),
        operator_entry("+", NumParams::Any),
        operator_entry("-", NumParams::Variadic(std::ops::Range { start: 1, end: 3 })),
        operator_entry("*", NumParams::AtLeast(1)),
        operator_entry("/", NumParams::Exactly(2)),
        operator_entry("%", NumParams::Exactly(2)),
        operator_entry("max", NumParams::AtLeast(1)),
        operator_entry("min", NumParams::AtLeast(1)),
        operator_entry("merge", NumParams::Any),
        operator_entry("in", NumParams::Exactly(2)),
        operator_entry("cat", NumParams::Any),
        operator_entry("substr", NumParams::Variadic(std::ops::Range { start: 2, end: 4 })),
        operator_entry("log", NumParams::Unary),
    ];
    let m = OperatorMap::from_entries(entries);
    proof {
        assert forall|i: int| 0 <= i < m.entries@.len() implies m.spec_get(
            #[trigger] m.entries@[i].0@,
        ) == Some(m.entries@[i].1) by {
            lemma_first_match_finds(m.entries@, i);
        }
    }
    m
}

/// The symbols and parameters of the built-in operators that evaluate their own arguments, in table order.
pub open spec fn builtin_lazy_operators() -> Seq<(Seq<char>, NumParams)> {
    seq![
        ("if"@, NumParams::Any),
        ("?:"@, NumParams::Any),
        ("or"@, NumParams::AtLeast(1)),
        ("and"@, NumParams::AtLeast(1)),
        ("map"@, NumParams::Exactly(2)),
        ("filter"@, NumParams::Exactly(2)),
        ("reduce"@, NumParams::Exactly(3)),
        ("all"@, NumParams::Exactly(2)),
        ("some"@, NumParams::Exactly(2)),
        ("none"@, NumParams::Exactly(2)),
    ]
}

/// The symbols of the built-in operators that evaluate their own arguments, in table order, with the numbers
/// of arguments that each accepts and whether it takes a bare argument.
pub proof fn lemma_builtin_lazy_operator_counts()
    ensures
        builtin_lazy_operators().len() == 10,
        builtin_lazy_operators()[0].0 == "if"@,
        forall|n: int| #[trigger] builtin_lazy_operators()[0].1.accepts(n) <==> true,
        builtin_lazy_operators()[0].1.accepts_bare() == true,
        builtin_lazy_operators()[1].0 == "?:"@,
        forall|n: int| #[trigger] builtin_lazy_operators()[1].1.accepts(n) <==> true,
        builtin_lazy_operators()[1].1.accepts_bare() == true,
        builtin_lazy_operators()[2].0 == "or"@,
        forall|n: int| #[trigger] builtin_lazy_operators()[2].1.accepts(n) <==> n >= 1,
        builtin_lazy_operators()[2].1.accepts_bare() == true,
        builtin_lazy_operators()[3].0 == "and"@,
        forall|n: int| #[trigger] builtin_lazy_operators()[3].1.accepts(n) <==> n >= 1,
        builtin_lazy_operators()[3].1.accepts_bare() == true,
        builtin_lazy_operators()[4].0 == "map"@,
        forall|n: int| #[trigger] builtin_lazy_operators()[4].1.accepts(n) <==> n == 2,
        builtin_lazy_operators()[4].1.accepts_bare() == false,
        builtin_lazy_operators()[5].0 == "filter"@,
        forall|n: int| #[trigger] builtin_lazy_operators()[5].1.accepts(n) <==> n == 2,
        builtin_lazy_operators()[5].1.accepts_bare() == false,
        builtin_lazy_operators()[6].0 == "reduce"@,
        forall|n: int| #[trigger] builtin_lazy_operators()[6].1.accepts(n) <==> n == 3,
        builtin_lazy_operators()[6].1.accepts_bare() == false,
        builtin_lazy_operators()[7].0 == "all"@,
        forall|n: int| #[trigger] builtin_lazy_operators()[7].1.accepts(n) <==> n == 2,
        builtin_lazy_operators()[7].1.accepts_bare() == false,
        builtin_lazy_operators()[8].0 == "some"@,
        forall|n: int| #[trigger] builtin_lazy_operators()[8].1.accepts(n) <==> n == 2,
        builtin_lazy_operators()[8].1.accepts_bare() == false,
        builtin_lazy_operators()[9].0 == "none"@,
        forall|n: int| #[trigger] builtin_lazy_operators()[9].1.accepts(n) <==> n == 2,
        builtin_lazy_operators()[9].1.accepts_bare() == false,
{
}

/// No symbol occurs twice in `builtin_lazy_operators()`.
proof fn lemma_builtin_lazy_operators_distinct()
    ensures
        forall|i: int, j: int|
            0 <= i < j < builtin_lazy_operators().len() ==> builtin_lazy_operators()[i].0
                != builtin_lazy_operators()[j].0,
{
    reveal_strlit("if");
    reveal_strlit("?:");
    reveal_strlit("or");
    reveal_strlit("and");
    reveal_strlit("map");
    reveal_strlit("filter");
    reveal_strlit("reduce");
    reveal_strlit("all");
    reveal_strlit("some");
    reveal_strlit("none");
    let s = builtin_lazy_operators();
    assert forall|i: int, j: int| 0 <= i < j < s.len() implies s[i].0 != s[j].0 by {
        if s[i].0 == s[j].0 {
            assert(s[i].0.len() == s[j].0.len());
            assert(s[i].0[0] == s[j].0[0]);
            assert(s[i].0[1] == s[j].0[1]);
            assert(s[i].0[2] == s[j].0[2]);
        }
    }
}

fn lazy_operator_entry(symbol: &'static str, num_params: NumParams) -> (entry: (&'static str, LazyOperator))
    ensures
        entry.0 == symbol,
        entry.1.symbol == symbol,
        entry.1.num_params == num_params,
{
    (symbol, LazyOperator { symbol, num_params })
}

/// The table of built-in operators that evaluate their own arguments. Each entry
/// is filed under its operator's symbol, and no symbol occurs twice.
pub fn lazy_operator_map() -> (m: OperatorMap<LazyOperator>)
    ensures
        m.entries@.len() == builtin_lazy_operators().len(),
        forall|i: int|
            0 <= i < m.entries@.len() ==> {
                &&& #[trigger] m.entries@[i].0@ == builtin_lazy_operators()[i].0
                &&& m.entries@[i].1.num_params == builtin_lazy_operators()[i].1
            },
        m.files_by_symbol(),
        forall|i: int, j: int|
            0 <= i < j < m.entries@.len() ==> m.entries@[i].0@ != m.entries@[j].0@,
        forall|i: int|
            0 <= i < m.entries@.len() ==> m.spec_get(#[trigger] m.entries@[i].0@) == Some(
                m.entries@[i].1,
            ),
{
    proof {
        lemma_builtin_lazy_operators_distinct();
    }
    let entries = vec![
        lazy_operator_entry("if", NumParams::Any),
        lazy_operator_entry("?:", NumParams::Any),
        lazy_operator_entry("or", NumParams::AtLeast(1)),
        lazy_operator_entry("and", NumParams::AtLeast(1)),
        lazy_operator_entry("map", NumParams::Exactly(2)),
        lazy_operator_entry("filter", NumParams::Exactly(2)),
        lazy_operator_entry("reduce", NumParams::Exactly(3)),
        lazy_operator_entry("all", NumParams::Exactly(2)),
        lazy_operator_entry("some", NumParams::Exactly(2)),
        lazy_operator_entry("none", NumParams::Exactly(2)),
    ];
    let m = OperatorMap::from_entries(entries);
    proof {
        assert forall|i: int| 0 <= i < m.entries@.len() implies m.spec_get(
            #[trigger] m.entries@[i].0@,
        ) == Some(m.entries@[i].1) by {
            lemma_first_match_finds(m.entries@, i);
        }
    }
    m
}

/// The symbols and parameters of the built-in operators on the data that a rule is applied to, in table order.
pub open spec fn builtin_data_operators() -> Seq<(Seq<char>, NumParams)> {
    seq![
        ("var"@, NumParams::Variadic(std::ops::Range { start: 0, end: 3 })),
        ("missing"@, NumParams::Any),
        ("missing_some"@, NumParams::Exactly(2)),
    ]
}

/// The symbols of the built-in operators on the data, in table order, with the numbers
/// of arguments that each accepts and whether it takes a bare argument.
pub proof fn lemma_builtin_data_operator_counts()
    ensures
        builtin_data_operators().len() == 3,
        builtin_data_operators()[0].0 == "var"@,
        forall|n: int| #[trigger] builtin_data_operators()[0].1.accepts(n) <==> 0 <= n < 3,
        builtin_data_operators()[0].1.accepts_bare() == true,
        builtin_data_operators()[1].0 == "missing"@,
        forall|n: int| #[trigger] builtin_data_operators()[1].1.accepts(n) <==> true,
        builtin_data_operators()[1].1.accepts_bare() == true,
        builtin_data_operators()[2].0 == "missing_some"@,
        forall|n: int| #[trigger] builtin_data_operators()[2].1.accepts(n) <==> n == 2,
        builtin_data_operators()[2].1.accepts_bare() == false,
{
}

/// No symbol occurs twice in `builtin_data_operators()`.
proof fn lemma_builtin_data_operators_distinct()
    ensures
        forall|i: int, j: int|
            0 <= i < j < builtin_data_operators().len() ==> builtin_data_operators()[i].0
                != builtin_data_operators()[j].0,
{
    reveal_strlit("var");
    reveal_strlit("missing");
    reveal_strlit("missing_some");
    let s = builtin_data_operators();
    assert forall|i: int, j: int| 0 <= i < j < s.len() implies s[i].0 != s[j].0 by {
        if s[i].0 == s[j].0 {
            assert(s[i].0.len() == s[j].0.len());
            assert(s[i].0[0] == s[j].0[0]);
            assert(s[i].0[1] == s[j].0[1]);
            assert(s[i].0[2] == s[j].0[2]);
        }
    }
}

fn data_operator_entry(symbol: &'static str, num_params: NumParams) -> (entry: (&'static str, DataOperator))
    ensures
        entry.0 == symbol,
        entry.1.symbol == symbol,
        entry.1.num_params == num_params,
{
    (symbol, DataOperator { symbol, num_params })
}

/// The table of built-in operators on the data that a rule is applied to. Each entry
/// is filed under its operator's symbol, and no symbol occurs twice.
pub fn data_operator_map() -> (m: OperatorMap<DataOperator>)
    ensures
        m.entries@.len() == builtin_data_operators().len(),
        forall|i: int|
            0 <= i < m.entries@.len() ==> {
                &&& #[trigger] m.entries@[i].0@ == builtin_data_operators()[i].0
                &&& m.entries@[i].1.num_params == builtin_data_operators()[i].1
            },
        m.files_by_symbol(),
        forall|i: int, j: int|
            0 <= i < j < m.entries@.len() ==> m.entries@[i].0@ != m.entries@[j].0@,
        forall|i: int|
            0 <= i < m.entries@.len() ==> m.spec_get(#[trigger] m.entries@[i].0@) == Some(
                m.entries@[i].1,
            ),
{
    proof {
        lemma_builtin_data_operators_distinct();
    }
    let entries = vec![
        data_operator_entry("var", NumParams::Variadic(std::ops::Range { start: 0, end: 3 })),
        data_operator_entry("missing", NumParams::Any),
        data_operator_entry("missing_some", NumParams::Exactly(2)),
    ];
    let m = OperatorMap::from_entries(entries);
    proof {
        assert forall|i: int| 0 <= i < m.entries@.len() implies m.spec_get(
            #[trigger] m.entries@[i].0@,
        ) == Some(m.entries@[i].1) by {
            lemma_first_match_finds(m.entries@, i);
        }
    }
    m
}

} // verus!
