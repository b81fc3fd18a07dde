//! The parser of the filter language and the evaluation of a filter on a
//! process.
//!
//! Grammar:
//! ```text
//! filter           ::= or_expression
//! or_expression    ::= and_expression ("|" and_expression)*
//! and_expression   ::= primary ("&" primary)*
//! primary          ::= "(" or_expression ")" | comparison
//! comparison       ::= field operator value
//! field            ::= IDENT
//! operator         ::= ">" | ">=" | "=" | "!=" | "<" | "<="
//! value            ::= NUMBER
//! ```

use vstd::prelude::*;
use crate::error::ParseError;
use crate::float_bits::{f32_bits_of_u32, f32_eq, f32_is_nan, f32_lt, f32_rank, u32_to_f32_bits};
use crate::lexer::{Token, TokenModel, tokens_model};
use crate::process::{Process, ProcessModel};

verus! {

/// Grammar Operators
#[derive(Debug, Clone, Copy, PartialEq, Eq)]
pub enum Operator {
    Gt,
    Ge,
    Eq,
    Ne,
    Lt,
    Le,
}

/// Grammar Fields
#[derive(Debug, Clone, Copy, PartialEq, Eq)]
pub enum Field {
    Pid,
    Cpu,
    Mem,
}

/// Grammar Values; a CPU usage is the bit pattern of an `f32`.
#[derive(Debug, PartialEq)]
pub enum Value {
    Pid(u32),
    Cpu(u32),
    Mem(u64),
    Name(String),
}

/// Represents nonterminal/syntactic structures
#[derive(Debug, PartialEq)]
pub enum AST {
    Compare { field: Field, op: Operator, value: Value },
    And(Box<AST>, Box<AST>),
    Or(Box<AST>, Box<AST>),
}

impl Clone for Value {
    fn clone(&self) -> (r: Self)
        ensures
            r == *self,
    {
        match self {
            Value::Pid(n) => Value::Pid(*n),
            Value::Cpu(n) => Value::Cpu(*n),
            Value::Mem(n) => Value::Mem(*n),
            Value::Name(s) => Value::Name(s.clone()),
        }
    }
}

impl Clone for AST {
    fn clone(&self) -> (r: Self)
        ensures
            r == *self,
        decreases self,
    {
        match self {
            AST::Compare { field, op, value } => AST::Compare {
                field: *field,
                op: *op,
                value: value.clone(),
            },
            AST::And(l, r) => AST::And(Box::new((**l).clone()), Box::new((**r).clone())),
            AST::Or(l, r) => AST::Or(Box::new((**l).clone()), Box::new((**r).clone())),
        }
    }
}

/// Whether `lhs op rhs` holds for two integers.
pub open spec fn op_holds(op: Operator, lhs: int, rhs: int) -> bool {
    match op {
        Operator::Gt => lhs > rhs,
        Operator::Ge => lhs >= rhs,
        Operator::Eq => lhs == rhs,
        Operator::Ne => lhs != rhs,
        Operator::Lt => lhs < rhs,
        Operator::Le => lhs <= rhs,
    }
}

/// Whether `lhs op rhs` holds for two `f32` given by their bits: every
/// comparison with a NaN is false but `!=`, which is true.
pub open spec fn op_holds_f32(op: Operator, lhs: u32, rhs: u32) -> bool {
    match op {
        Operator::Gt => f32_lt(rhs, lhs),
        Operator::Ge => f32_lt(rhs, lhs) || f32_eq(lhs, rhs),
        Operator::Eq => f32_eq(lhs, rhs),
        Operator::Ne => !f32_eq(lhs, rhs),
        Operator::Lt => f32_lt(lhs, rhs),
        Operator::Le => f32_lt(lhs, rhs) || f32_eq(lhs, rhs),
    }
}

/// Comparison of two values; values of different kinds never compare.
pub open spec fn compare_spec(op: Operator, lhs: Value, rhs: Value) -> bool {
    match (lhs, rhs) {
        (Value::Pid(a), Value::Pid(b)) => op_holds(op, a as int, b as int),
        (Value::Cpu(a), Value::Cpu(b)) => op_holds_f32(op, a, b),
        (Value::Mem(a), Value::Mem(b)) => op_holds(op, a as int, b as int),
        _ => false,
    }
}

/// The value of a field of a process; the CPU field is the total usage.
pub open spec fn field_value(field: Field, p: ProcessModel) -> Value {
    match field {
        Field::Pid => Value::Pid(p.pid),
        Field::Cpu => Value::Cpu(p.cpu_total),
        Field::Mem => Value::Mem(p.mem),
    }
}

/// Whether a process satisfies a filter.
pub open spec fn ast_matches(ast: AST, p: ProcessModel) -> bool
    decreases ast,
{
    match ast {
        AST::Compare { field, op, value } => compare_spec(op, field_value(field, p), value),
        AST::And(l, r) => ast_matches(*l, p) && ast_matches(*r, p),
        AST::Or(l, r) => ast_matches(*l, p) || ast_matches(*r, p),
    }
}

/// A comparison on the process id or the memory holds exactly when the
/// field's value and the number stand in the operator's relation.
pub proof fn law_integer_comparisons(p: ProcessModel, n: u32, m: u64)
    ensures
        ast_matches(AST::Compare { field: Field::Pid, op: Operator::Gt, value: Value::Pid(n) }, p) <==> p.pid > n,
        ast_matches(AST::Compare { field: Field::Pid, op: Operator::Ge, value: Value::Pid(n) }, p) <==> p.pid >= n,
        ast_matches(AST::Compare { field: Field::Pid, op: Operator::Eq, value: Value::Pid(n) }, p) <==> p.pid == n,
        ast_matches(AST::Compare { field: Field::Pid, op: Operator::Ne, value: Value::Pid(n) }, p) <==> p.pid != n,
        ast_matches(AST::Compare { field: Field::Pid, op: Operator::Lt, value: Value::Pid(n) }, p) <==> p.pid < n,
        ast_matches(AST::Compare { field: Field::Pid, op: Operator::Le, value: Value::Pid(n) }, p) <==> p.pid <= n,
        ast_matches(AST::Compare { field: Field::Mem, op: Operator::Gt, value: Value::Mem(m) }, p) <==> p.mem > m,
        ast_matches(AST::Compare { field: Field::Mem, op: Operator::Ge, value: Value::Mem(m) }, p) <==> p.mem >= m,
        ast_matches(AST::Compare { field: Field::Mem, op: Operator::Eq, value: Value::Mem(m) }, p) <==> p.mem == m,
        ast_matches(AST::Compare { field: Field::Mem, op: Operator::Ne, value: Value::Mem(m) }, p) <==> p.mem != m,
        ast_matches(AST::Compare { field: Field::Mem, op: Operator::Lt, value: Value::Mem(m) }, p) <==> p.mem < m,
        ast_matches(AST::Compare { field: Field::Mem, op: Operator::Le, value: Value::Mem(m) }, p) <==> p.mem <= m,
        !ast_matches(AST::Compare { field: Field::Pid, op: Operator::Ge, value: Value::Mem(m) }, p),
        !ast_matches(AST::Compare { field: Field::Mem, op: Operator::Ge, value: Value::Pid(n) }, p),
{
}

/// A comparison on the CPU usage compares the process's total usage with the
/// number by their real values; with a NaN on either side only `!=` holds.
pub proof fn law_cpu_comparisons(p: ProcessModel, x: u32)
    ensures
        ({
            let ordered = !f32_is_nan(p.cpu_total) && !f32_is_nan(x);
            let a = f32_rank(p.cpu_total);
            let b = f32_rank(x);
            &&& ast_matches(AST::Compare { field: Field::Cpu, op: Operator::Gt, value: Value::Cpu(x) }, p) <==> ordered && a > b
            &&& ast_matches(AST::Compare { field: Field::Cpu, op: Operator::Ge, value: Value::Cpu(x) }, p) <==> ordered && a >= b
            &&& ast_matches(AST::Compare { field: Field::Cpu, op: Operator::Eq, value: Value::Cpu(x) }, p) <==> ordered && a == b
            &&& ast_matches(AST::Compare { field: Field::Cpu, op: Operator::Ne, value: Value::Cpu(x) }, p) <==> !(ordered && a == b)
            &&& ast_matches(AST::Compare { field: Field::Cpu, op: Operator::Lt, value: Value::Cpu(x) }, p) <==> ordered && a < b
            &&& ast_matches(AST::Compare { field: Field::Cpu, op: Operator::Le, value: Value::Cpu(x) }, p) <==> ordered && a <= b
        }),
{
}

/// The word that names a field in the filter language.
pub open spec fn field_word(f: Field) -> Seq<char> {
    match f {
        Field::Pid => "pid"@,
        Field::Cpu => "cpu"@,
        Field::Mem => "mem"@,
    }
}

/// The token of an operator.
pub open spec fn operator_word(op: Operator) -> TokenModel {
    match op {
        Operator::Gt => TokenModel::Gt,
        Operator::Ge => TokenModel::Ge,
        Operator::Eq => TokenModel::Eq,
        Operator::Ne => TokenModel::Ne,
        Operator::Lt => TokenModel::Lt,
        Operator::Le => TokenModel::Le,
    }
}

/// Token `i` of `field op number sep field op number sep ...`, one
/// comparison for each triple of `cs`.
pub open spec fn chain_token(cs: Seq<(Field, Operator, u32)>, sep: TokenModel, i: int) -> TokenModel {
    let k = i / 4;
    let r = i % 4;
    if r == 0 {
        TokenModel::Ident(field_word(cs[k].0))
    } else if r == 1 {
        operator_word(cs[k].1)
    } else if r == 2 {
        TokenModel::Number(cs[k].2)
    } else {
        sep
    }
}

/// The tokens of `field op number sep field op number sep ...`.
pub open spec fn chain_tokens(cs: Seq<(Field, Operator, u32)>, sep: TokenModel) -> Seq<TokenModel> {
    Seq::new((4 * cs.len() - 1) as nat, |i: int| chain_token(cs, sep, i))
}

/// The comparison that a triple writes.
pub open spec fn comparison_of(c: (Field, Operator, u32)) -> AST {
    AST::Compare { field: c.0, op: c.1, value: field_number(c.0, c.2) }
}

proof fn lemma_field_word(f: Field)
    ensures
        field_named(field_word(f)) == Some(f),
{
    reveal_strlit("pid");
    reveal_strlit("cpu");
    reveal_strlit("mem");
    assert("cpu"@[0] != "pid"@[0]);
    assert("mem"@[0] != "pid"@[0]);
    assert("mem"@[0] != "cpu"@[0]);
}

proof fn lemma_conjunction_tail(cs: Seq<(Field, Operator, u32)>, j: int, lhs: AST, p: ProcessModel)
    requires
        1 <= j <= cs.len(),
    ensures
        ({
            let t = chain_tokens(cs, TokenModel::And);
            &&& parse_and_tail_spec(t, lhs, 0, (4 * j - 1) as nat) is Ok
            &&& parse_and_tail_spec(t, lhs, 0, (4 * j - 1) as nat) matches Ok((a, c)) ==> {
                &&& c == 4 * cs.len() - 1
                &&& (ast_matches(a, p) <==> (ast_matches(lhs, p) && forall|i: int|
                    j <= i < cs.len() ==> #[trigger] ast_matches(comparison_of(cs[i]), p)))
            }
        }),
    decreases cs.len() - j,
{
    let t = chain_tokens(cs, TokenModel::And);
    reveal_strlit("pid");
    reveal_strlit("cpu");
    reveal_strlit("mem");
    if j < cs.len() {
        let q = 4 * j - 1;
        assert(q / 4 == j - 1 && q % 4 == 3);
        assert((4 * j) / 4 == j && (4 * j) % 4 == 0);
        assert((4 * j + 1) / 4 == j && (4 * j + 1) % 4 == 1);
        assert((4 * j + 2) / 4 == j && (4 * j + 2) % 4 == 2);
        assert(t[q] == TokenModel::And);
        assert(t[4 * j] == TokenModel::Ident(field_word(cs[j].0)));
        assert(t[4 * j + 1] == operator_word(cs[j].1));
        assert(t[4 * j + 2] == TokenModel::Number(cs[j].2));
        lemma_field_word(cs[j].0);
        assert(operator_token(operator_word(cs[j].1)) == Some(cs[j].1));
        assert(parse_comparison_spec(t, 4 * j) == Ok::<(AST, nat), ParseFailure>((comparison_of(cs[j]), 3nat)));
        assert(parse_primary_spec(t, 4 * j) == Ok::<(AST, nat), ParseFailure>((comparison_of(cs[j]), 3nat)));
        let next = AST::And(Box::new(lhs), Box::new(comparison_of(cs[j])));
        lemma_conjunction_tail(cs, j + 1, next, p);
        assert(parse_and_tail_spec(t, lhs, 0, (4 * j - 1) as nat) == parse_and_tail_spec(
            t,
            next,
            0,
            (4 * (j + 1) - 1) as nat,
        ));
        assert(ast_matches(next, p) == (ast_matches(lhs, p) && ast_matches(comparison_of(cs[j]), p)));
        assert((forall|i: int| j <= i < cs.len() ==> #[trigger] ast_matches(comparison_of(cs[i]), p))
            == (ast_matches(comparison_of(cs[j]), p) && forall|i: int|
            j + 1 <= i < cs.len() ==> #[trigger] ast_matches(comparison_of(cs[i]), p)));
    } else {
        assert(t.len() == 4 * j - 1);
        assert(parse_and_tail_spec(t, lhs, 0, (4 * j - 1) as nat) == Ok::<(AST, nat), ParseFailure>(
            (lhs, (4 * j - 1) as nat),
        ));
    }
}

/// `c1 & c2 & ... & ck` reads as a filter for every number `k >= 1` of
/// comparisons, and a process satisfies it exactly when it satisfies every
/// one of them.
pub proof fn law_conjunction_chain(cs: Seq<(Field, Operator, u32)>, p: ProcessModel)
    requires
        cs.len() >= 1,
    ensures
        parse_tokens(chain_tokens(cs, TokenModel::And)) is Ok,
        parse_tokens(chain_tokens(cs, TokenModel::And)) matches Ok(ast) ==> (ast_matches(ast, p) <==> forall|i: int|
            0 <= i < cs.len() ==> #[trigger] ast_matches(comparison_of(cs[i]), p)),
{
    let t = chain_tokens(cs, TokenModel::And);
    reveal_strlit("pid");
    reveal_strlit("cpu");
    reveal_strlit("mem");
    assert(0int / 4 == 0 && 0int % 4 == 0);
    assert(1int / 4 == 0 && 1int % 4 == 1);
    assert(2int / 4 == 0 && 2int % 4 == 2);
    assert(t[0] == TokenModel::Ident(field_word(cs[0].0)));
    assert(t[1] == operator_word(cs[0].1));
    assert(t[2] == TokenModel::Number(cs[0].2));
    lemma_field_word(cs[0].0);
    assert(operator_token(operator_word(cs[0].1)) == Some(cs[0].1));
    assert(parse_comparison_spec(t, 0) == Ok::<(AST, nat), ParseFailure>((comparison_of(cs[0]), 3nat)));
    assert(parse_primary_spec(t, 0) == Ok::<(AST, nat), ParseFailure>((comparison_of(cs[0]), 3nat)));
    lemma_conjunction_tail(cs, 1, comparison_of(cs[0]), p);
    assert(parse_and_spec(t, 0) == parse_and_tail_spec(t, comparison_of(cs[0]), 0, 3));
    let (a, c) = parse_and_spec(t, 0)->Ok_0;
    assert(parse_or_spec(t, 0) == parse_or_tail_spec(t, a, 0, c));
    assert(parse_or_tail_spec(t, a, 0, c) == Ok::<(AST, nat), ParseFailure>((a, c)));
    assert forall|i: int| 0 <= i < cs.len() implies (#[trigger] ast_matches(comparison_of(cs[i]), p)
        <== (ast_matches(comparison_of(cs[0]), p) && forall|i2: int|
        1 <= i2 < cs.len() ==> #[trigger] ast_matches(comparison_of(cs[i2]), p))) by {
    }
}

proof fn lemma_chain_comparison(cs: Seq<(Field, Operator, u32)>, sep: TokenModel, j: int)
    requires
        0 <= j < cs.len(),
        !(sep is And),
    ensures
        parse_primary_spec(chain_tokens(cs, sep), 4 * j) == Ok::<(AST, nat), ParseFailure>(
            (comparison_of(cs[j]), 3nat),
        ),
        parse_and_spec(chain_tokens(cs, sep), 4 * j) == Ok::<(AST, nat), ParseFailure>(
            (comparison_of(cs[j]), 3nat),
        ),
{
    let t = chain_tokens(cs, sep);
    assert((4 * j) / 4 == j && (4 * j) % 4 == 0);
    assert((4 * j + 1) / 4 == j && (4 * j + 1) % 4 == 1);
    assert((4 * j + 2) / 4 == j && (4 * j + 2) % 4 == 2);
    assert(t[4 * j] == TokenModel::Ident(field_word(cs[j].0)));
    assert(t[4 * j + 1] == operator_word(cs[j].1));
    assert(t[4 * j + 2] == TokenModel::Number(cs[j].2));
    lemma_field_word(cs[j].0);
    assert(operator_token(operator_word(cs[j].1)) == Some(cs[j].1));
    assert(parse_comparison_spec(t, 4 * j) == Ok::<(AST, nat), ParseFailure>((comparison_of(cs[j]), 3nat)));
    if j + 1 < cs.len() {
        assert((4 * j + 3) / 4 == j && (4 * j + 3) % 4 == 3);
        assert(t[4 * j + 3] == sep);
    }
    assert(parse_and_tail_spec(t, comparison_of(cs[j]), 4 * j, 3) == Ok::<(AST, nat), ParseFailure>(
        (comparison_of(cs[j]), 3nat),
    ));
}

proof fn lemma_disjunction_tail(cs: Seq<(Field, Operator, u32)>, j: int, lhs: AST, p: ProcessModel)
    requires
        1 <= j <= cs.len(),
    ensures
        ({
            let t = chain_tokens(cs, TokenModel::Or);
            &&& parse_or_tail_spec(t, lhs, 0, (4 * j - 1) as nat) is Ok
            &&& parse_or_tail_spec(t, lhs, 0, (4 * j - 1) as nat) matches Ok((a, c)) ==> {
                &&& c == 4 * cs.len() - 1
                &&& (ast_matches(a, p) <==> (ast_matches(lhs, p) || exists|i: int|
                    j <= i < cs.len() && #[trigger] ast_matches(comparison_of(cs[i]), p)))
            }
        }),
    decreases cs.len() - j,
{
    let t = chain_tokens(cs, TokenModel::Or);
    if j < cs.len() {
        let q = 4 * j - 1;
        assert(q / 4 == j - 1 && q % 4 == 3);
        assert(t[q] == TokenModel::Or);
        lemma_chain_comparison(cs, TokenModel::Or, j);
        let next = AST::Or(Box::new(lhs), Box::new(comparison_of(cs[j])));
        lemma_disjunction_tail(cs, j + 1, next, p);
        assert(parse_or_tail_spec(t, lhs, 0, (4 * j - 1) as nat) == parse_or_tail_spec(
            t,
            next,
            0,
            (4 * (j + 1) - 1) as nat,
        ));
        assert(ast_matches(next, p) == (ast_matches(lhs, p) || ast_matches(comparison_of(cs[j]), p)));
        assert((exists|i: int| j <= i < cs.len() && #[trigger] ast_matches(comparison_of(cs[i]), p))
            == (ast_matches(comparison_of(cs[j]), p) || exists|i: int|
            j + 1 <= i < cs.len() && #[trigger] ast_matches(comparison_of(cs[i]), p)));
    } else {
        assert(t.len() == 4 * j - 1);
    }
}

/// `c1 | c2 | ... | ck` reads as a filter for every number `k >= 1` of
/// comparisons, and a process satisfies it exactly when it satisfies one of
/// them.
pub proof fn law_disjunction_chain(cs: Seq<(Field, Operator, u32)>, p: ProcessModel)
    requires
        cs.len() >= 1,
    ensures
        parse_tokens(chain_tokens(cs, TokenModel::Or)) is Ok,
        parse_tokens(chain_tokens(cs, TokenModel::Or)) matches Ok(ast) ==> (ast_matches(ast, p) <==> exists|i: int|
            0 <= i < cs.len() && #[trigger] ast_matches(comparison_of(cs[i]), p)),
{
    let t = chain_tokens(cs, TokenModel::Or);
    lemma_chain_comparison(cs, TokenModel::Or, 0);
    lemma_disjunction_tail(cs, 1, comparison_of(cs[0]), p);
    assert(parse_or_spec(t, 0) == parse_or_tail_spec(t, comparison_of(cs[0]), 0, 3));
    assert((exists|i: int| 0 <= i < cs.len() && #[trigger] ast_matches(comparison_of(cs[i]), p))
        == (ast_matches(comparison_of(cs[0]), p) || exists|i: int|
        1 <= i < cs.len() && #[trigger] ast_matches(comparison_of(cs[i]), p)));
}

pub fn f32_less_bits(a: u32, b: u32) -> (r: bool)
    ensures
        r == f32_lt(a, b),
{
    let a_nan = a % 0x8000_0000 > 0x7f80_0000;
    let b_nan = b % 0x8000_0000 > 0x7f80_0000;
    if a_nan || b_nan {
        return false;
    }
    if a >= 0x8000_0000 {
        if b >= 0x8000_0000 {
            a > b
        } else {
            !(a == 0x8000_0000 && b == 0)
        }
    } else {
        if b >= 0x8000_0000 {
            false
        } else {
            a < b
        }
    }
}

pub fn f32_equal_bits(a: u32, b: u32) -> (r: bool)
    ensures
        r == f32_eq(a, b),
{
    let a_nan = a % 0x8000_0000 > 0x7f80_0000;
    let b_nan = b % 0x8000_0000 > 0x7f80_0000;
    if a_nan || b_nan {
        return false;
    }
    a == b || (a % 0x8000_0000 == 0 && b % 0x8000_0000 == 0)
}

impl Operator {
    fn compare(&self, lhs: &Value, rhs: &Value) -> (r: bool)
        ensures
            r == compare_spec(*self, *lhs, *rhs),
    {
        match (lhs, rhs) {
            (Value::Pid(lhs), Value::Pid(rhs)) => self.compare_values(*lhs as u64, *rhs as u64),
            (Value::Cpu(lhs), Value::Cpu(rhs)) => self.compare_f32(*lhs, *rhs),
            (Value::Mem(lhs), Value::Mem(rhs)) => self.compare_values(*lhs, *rhs),
            // Different types can never meaningfully compare.
            _ => false,
        }
    }

    fn compare_values(&self, lhs: u64, rhs: u64) -> (r: bool)
        ensures
            r == op_holds(*self, lhs as int, rhs as int),
    {
        match self {
            Operator::Gt => lhs > rhs,
            Operator::Ge => lhs >= rhs,
            Operator::Eq => lhs == rhs,
            Operator::Ne => lhs != rhs,
            Operator::Lt => lhs < rhs,
            Operator::Le => lhs <= rhs,
        }
    }

    fn compare_f32(&self, lhs: u32, rhs: u32) -> (r: bool)
        ensures
            r == op_holds_f32(*self, lhs, rhs),
    {
        match self {
            Operator::Gt => f32_less_bits(rhs, lhs),
            Operator::Ge => f32_less_bits(rhs, lhs) || f32_equal_bits(lhs, rhs),
            Operator::Eq => f32_equal_bits(lhs, rhs),
            Operator::Ne => !f32_equal_bits(lhs, rhs),
            Operator::Lt => f32_less_bits(lhs, rhs),
            Operator::Le => f32_less_bits(lhs, rhs) || f32_equal_bits(lhs, rhs),
        }
    }
}

impl AST {
    /// Whether `process` satisfies this filter.
    pub fn matches(&self, process: &Process) -> (r: bool)
        ensures
            r == ast_matches(*self, process@),
        decreases self,
    {
        match self {
            AST::Compare { field, op, value } => {
                let field_value = match field {
                    Field::Pid => Value::Pid(process.pid().as_u32()),
                    Field::Cpu => Value::Cpu(process.cpu_total().to_bits()),
                    Field::Mem => Value::Mem(process.mem().as_u64()),
                };
                op.compare(&field_value, value)
            },
            AST::And(left, right) => left.matches(process) && right.matches(process),
            AST::Or(left, right) => left.matches(process) || right.matches(process),
        }
    }
}

/// A parse error as a mathematical value.
pub enum ParseFailure {
    UnknownField(Seq<char>),
    ExpectedField,
    ExpectedOperator,
    ExpectedNumber,
    ExpectedRParen,
    ExpectedLParen,
    UnexpectedToken,
}

impl View for ParseError {
    type V = ParseFailure;

    open spec fn view(&self) -> ParseFailure {
        match self {
            ParseError::UnknownField(s) => ParseFailure::UnknownField(s@),
            ParseError::ExpectedField => ParseFailure::ExpectedField,
            ParseError::ExpectedOperator => ParseFailure::ExpectedOperator,
            ParseError::ExpectedNumber => ParseFailure::ExpectedNumber,
            ParseError::ExpectedRParen => ParseFailure::ExpectedRParen,
            ParseError::ExpectedLParen => ParseFailure::ExpectedLParen,
            ParseError::UnexpectedToken => ParseFailure::UnexpectedToken,
        }
    }
}

/// The tokens left from position `p` on.
pub open spec fn remaining(t: Seq<TokenModel>, p: int) -> nat {
    if p < t.len() {
        (t.len() - p) as nat
    } else {
        0
    }
}

pub open spec fn field_named(name: Seq<char>) -> Option<Field> {
    if name == "pid"@ {
        Some(Field::Pid)
    } else if name == "cpu"@ {
        Some(Field::Cpu)
    } else if name == "mem"@ {
        Some(Field::Mem)
    } else {
        None
    }
}

pub open spec fn operator_token(t: TokenModel) -> Option<Operator> {
    match t {
        TokenModel::Gt => Some(Operator::Gt),
        TokenModel::Ge => Some(Operator::Ge),
        TokenModel::Eq => Some(Operator::Eq),
        TokenModel::Ne => Some(Operator::Ne),
        TokenModel::Lt => Some(Operator::Lt),
        TokenModel::Le => Some(Operator::Le),
        _ => None,
    }
}

/// The value of a number written for a field: a CPU usage is the number as
/// an `f32`, a memory size the number widened.
pub open spec fn field_number(field: Field, n: u32) -> Value {
    match field {
        Field::Pid => Value::Pid(n),
        Field::Cpu => Value::Cpu(f32_bits_of_u32(n)),
        Field::Mem => Value::Mem(n as u64),
    }
}

/// `comparison ::= field operator value` at position `p`: the comparison and
/// the number of tokens it takes.
pub open spec fn parse_comparison_spec(t: Seq<TokenModel>, p: int) -> Result<(AST, nat), ParseFailure> {
    if !(0 <= p < t.len()) {
        Err(ParseFailure::ExpectedField)
    } else {
        match t[p] {
            TokenModel::Ident(name) => match field_named(name) {
                None => Err(ParseFailure::UnknownField(name)),
                Some(field) => if !(p + 1 < t.len()) {
                    Err(ParseFailure::ExpectedOperator)
                } else {
                    match operator_token(t[p + 1]) {
                        None => Err(ParseFailure::ExpectedOperator),
                        Some(op) => if !(p + 2 < t.len()) {
                            Err(ParseFailure::ExpectedNumber)
                        } else {
                            match t[p + 2] {
                                TokenModel::Number(n) => Ok(
                                    (AST::Compare { field, op, value: field_number(field, n) }, 3),
                                ),
                                _ => Err(ParseFailure::ExpectedNumber),
                            }
                        },
                    }
                },
            },
            _ => Err(ParseFailure::ExpectedField),
        }
    }
}

/// `primary ::= "(" or_expression ")" | comparison` at position `p`.
pub open spec fn parse_primary_spec(t: Seq<TokenModel>, p: int) -> Result<(AST, nat), ParseFailure>
    decreases remaining(t, p), 0nat,
{
    if 0 <= p < t.len() && t[p] is LParen {
        match parse_or_spec(t, p + 1) {
            Ok((inner, c)) => if p + 1 + c < t.len() && t[p + 1 + c] is RParen {
                Ok((inner, c + 2))
            } else {
                Err(ParseFailure::ExpectedRParen)
            },
            Err(e) => Err(e),
        }
    } else {
        parse_comparison_spec(t, p)
    }
}

/// The rest of an `and_expression` whose first `c` tokens from `p` read as
/// `lhs`: each `"&" primary` folds into a left-leaning `And`.
pub open spec fn parse_and_tail_spec(t: Seq<TokenModel>, lhs: AST, p: int, c: nat) -> Result<
    (AST, nat),
    ParseFailure,
>
    decreases remaining(t, p + c), 1nat,
{
    let q = p + c;
    if 0 <= q < t.len() && t[q] is And {
        match parse_primary_spec(t, q + 1) {
            Ok((rhs, c2)) => parse_and_tail_spec(
                t,
                AST::And(Box::new(lhs), Box::new(rhs)),
                p,
                c + 1 + c2,
            ),
            Err(e) => Err(e),
        }
    } else {
        Ok((lhs, c))
    }
}

/// `and_expression ::= primary ("&" primary)*` at position `p`.
pub open spec fn parse_and_spec(t: Seq<TokenModel>, p: int) -> Result<(AST, nat), ParseFailure>
    decreases remaining(t, p), 2nat,
{
    match parse_primary_spec(t, p) {
        Ok((lhs, c)) => parse_and_tail_spec(t, lhs, p, c),
        Err(e) => Err(e),
    }
}

/// The rest of an `or_expression` whose first `c` tokens from `p` read as
/// `lhs`: each `"|" and_expression` folds into a left-leaning `Or`.
pub open spec fn parse_or_tail_spec(t: Seq<TokenModel>, lhs: AST, p: int, c: nat) -> Result<
    (AST, nat),
    ParseFailure,
>
    decreases remaining(t, p + c), 3nat,
{
    let q = p + c;
    if 0 <= q < t.len() && t[q] is Or {
        match parse_and_spec(t, q + 1) {
            Ok((rhs, c2)) => parse_or_tail_spec(
                t,
                AST::Or(Box::new(lhs), Box::new(rhs)),
                p,
                c + 1 + c2,
            ),
            Err(e) => Err(e),
        }
    } else {
        Ok((lhs, c))
    }
}

/// `or_expression ::= and_expression ("|" and_expression)*` at position `p`.
pub open spec fn parse_or_spec(t: Seq<TokenModel>, p: int) -> Result<(AST, nat), ParseFailure>
    decreases remaining(t, p), 4nat,
{
    match parse_and_spec(t, p) {
        Ok((lhs, c)) => parse_or_tail_spec(t, lhs, p, c),
        Err(e) => Err(e),
    }
}

/// A whole filter from position `p`: an `or_expression` that takes every
/// token left.
pub open spec fn parse_filter_spec(t: Seq<TokenModel>, p: int) -> Result<AST, ParseFailure> {
    match parse_or_spec(t, p) {
        Ok((ast, c)) => if p + c < t.len() {
            Err(ParseFailure::UnexpectedToken)
        } else {
            Ok(ast)
        },
        Err(e) => Err(e),
    }
}

/// The filter that a list of tokens reads as.
pub open spec fn parse_tokens(t: Seq<TokenModel>) -> Result<AST, ParseFailure> {
    parse_filter_spec(t, 0)
}

/// Whether two strings have the same characters.
pub fn str_equal(a: &str, b: &str) -> (r: bool)
    ensures
        r == (a@ == b@),
{
    let n = a.unicode_len();
    let m = b.unicode_len();
    if n != m {
        return false;
    }
    let mut i: usize = 0;
    while i < n
        invariant
            n == a@.len(),
            m == b@.len(),
            n == m,
            i <= n,
            forall|j: int| 0 <= j < i ==> a@[j] == b@[j],
        decreases n - i,
    {
        if a.get_char(i) != b.get_char(i) {
            return false;
        }
        i = i + 1;
    }
    assert(a@ =~= b@);
    true
}

/// A recursive-descent parser of filters over a list of tokens.
pub struct Parser {
    tokens: Vec<Token>,
    pos: usize,
}

impl Parser {
    /// The tokens, as values.
    pub closed spec fn token_models(&self) -> Seq<TokenModel> {
        tokens_model(self.tokens@)
    }

    /// The position of the next token to read.
    pub closed spec fn position(&self) -> usize {
        self.pos
    }

    pub fn new(tokens: Vec<Token>) -> (r: Self)
        ensures
            r.token_models() == tokens_model(tokens@),
            r.position() == 0,
    {
        Parser { tokens, pos: 0 }
    }

    fn peek_is_or(&self) -> (r: bool)
        ensures
            r == (self.pos < self.tokens@.len() && self.token_models()[self.pos as int] is Or),
            self.tokens@.len() <= usize::MAX,
    {
        if self.pos < self.tokens.len() {
            match &self.tokens[self.pos] {
                Token::Or => true,
                _ => false,
            }
        } else {
            false
        }
    }

    fn peek_is_and(&self) -> (r: bool)
        ensures
            r == (self.pos < self.tokens@.len() && self.token_models()[self.pos as int] is And),
            self.tokens@.len() <= usize::MAX,
    {
        if self.pos < self.tokens.len() {
            match &self.tokens[self.pos] {
                Token::And => true,
                _ => false,
            }
        } else {
            false
        }
    }

    fn peek_is_lparen(&self) -> (r: bool)
        ensures
            r == (self.pos < self.tokens@.len() && self.token_models()[self.pos as int] is LParen),
            self.tokens@.len() <= usize::MAX,
    {
        if self.pos < self.tokens.len() {
            match &self.tokens[self.pos] {
                Token::LParen => true,
                _ => false,
            }
        } else {
            false
        }
    }

    /// Takes the next token, if any, and moves past it.
    fn next(&mut self) -> (r: Option<Token>)
        ensures
            final(self).tokens == old(self).tokens,
            old(self).pos < old(self).tokens@.len() ==> r is Some && r->0@ == old(
                self,
            ).token_models()[old(self).pos as int] && final(self).pos == old(self).pos + 1,
            old(self).pos >= old(self).tokens@.len() ==> r is None && final(self).pos == old(
                self,
            ).pos,
    {
        if self.pos < self.tokens.len() {
            let token = self.tokens[self.pos].duplicate();
            self.pos = self.pos + 1;
            Some(token)
        } else {
            None
        }
    }

    /// Parses a whole filter from the current position.
    pub fn parse(&mut self) -> (r: Result<AST, ParseError>)
        ensures
            final(self).token_models() == old(self).token_models(),
            match r {
                Ok(ast) => parse_filter_spec(old(self).token_models(), old(self).position() as int)
                    == Ok::<AST, ParseFailure>(ast),
                Err(e) => parse_filter_spec(old(self).token_models(), old(self).position() as int)
                    == Err::<AST, ParseFailure>(e@),
            },
    {
        let filter = self.parse_or()?;
        if self.pos < self.tokens.len() {
            return Err(ParseError::UnexpectedToken);
        }
        Ok(filter)
    }

    fn parse_or(&mut self) -> (r: Result<AST, ParseError>)
        ensures
            final(self).tokens == old(self).tokens,
            match r {
                Ok(ast) => final(self).pos >= old(self).pos && parse_or_spec(
                    old(self).token_models(),
                    old(self).pos as int,
                ) == Ok::<(AST, nat), ParseFailure>(
                    (ast, (final(self).pos - old(self).pos) as nat),
                ),
                Err(e) => parse_or_spec(old(self).token_models(), old(self).pos as int) == Err::<
                    (AST, nat),
                    ParseFailure,
                >(e@),
            },
        decreases remaining(old(self).token_models(), old(self).pos as int), 4nat,
    {
        let ghost t = self.token_models();
        let ghost start = self.pos as int;
        let mut lhs = self.parse_and()?;
        while self.peek_is_or()
            invariant
                self.tokens == old(self).tokens,
                t == self.token_models(),
                t == old(self).token_models(),
                start == old(self).pos,
                self.pos >= start,
                parse_or_spec(t, start) == parse_or_tail_spec(
                    t,
                    lhs,
                    start,
                    (self.pos - start) as nat,
                ),
            decreases remaining(t, self.pos as int),
        {
            let ghost before = self.pos as int;
            let ghost lhs0 = lhs;
            self.pos = self.pos + 1;
            proof {
                assert(remaining(t, self.pos as int) < remaining(t, start));
            }
            let rhs = self.parse_and()?;
            lhs = AST::Or(Box::new(lhs), Box::new(rhs));
            proof {
                assert((before - start) as nat + 1 + (self.pos - (before + 1)) as nat == (self.pos
                    - start) as nat);
            }
        }
        Ok(lhs)
    }

    fn parse_and(&mut self) -> (r: Result<AST, ParseError>)
        ensures
            final(self).tokens == old(self).tokens,
            match r {
                Ok(ast) => final(self).pos >= old(self).pos && parse_and_spec(
                    old(self).token_models(),
                    old(self).pos as int,
                ) == Ok::<(AST, nat), ParseFailure>(
                    (ast, (final(self).pos - old(self).pos) as nat),
                ),
                Err(e) => parse_and_spec(old(self).token_models(), old(self).pos as int) == Err::<
                    (AST, nat),
                    ParseFailure,
                >(e@),
            },
        decreases remaining(old(self).token_models(), old(self).pos as int), 2nat,
    {
        let ghost t = self.token_models();
        let ghost start = self.pos as int;
        let mut lhs = self.parse_primary()?;
        while self.peek_is_and()
            invariant
                self.tokens == old(self).tokens,
                t == self.token_models(),
                t == old(self).token_models(),
                start == old(self).pos,
                self.pos >= start,
                parse_and_spec(t, start) == parse_and_tail_spec(
                    t,
                    lhs,
                    start,
                    (self.pos - start) as nat,
                ),
            decreases remaining(t, self.pos as int),
        {
            let ghost before = self.pos as int;
            self.pos = self.pos + 1;
            proof {
                assert(remaining(t, self.pos as int) < remaining(t, start));
            }
            let rhs = self.parse_primary()?;
            lhs = AST::And(Box::new(lhs), Box::new(rhs));
            proof {
                assert((before - start) as nat + 1 + (self.pos - (before + 1)) as nat == (self.pos
                    - start) as nat);
            }
        }
        Ok(lhs)
    }

    fn parse_primary(&mut self) -> (r: Result<AST, ParseError>)
        ensures
            final(self).tokens == old(self).tokens,
            match r {
                Ok(ast) => final(self).pos >= old(self).pos && parse_primary_spec(
                    old(self).token_models(),
                    old(self).pos as int,
                ) == Ok::<(AST, nat), ParseFailure>(
                    (ast, (final(self).pos - old(self).pos) as nat),
                ),
                Err(e) => parse_primary_spec(old(self).token_models(), old(self).pos as int)
                    == Err::<(AST, nat), ParseFailure>(e@),
            },
        decreases remaining(old(self).token_models(), old(self).pos as int), 0nat,
    {
        if self.peek_is_lparen() {
            self.pos = self.pos + 1;
            let result = self.parse_or()?;
            match self.next() {
                Some(Token::RParen) => Ok(result),
                _ => Err(ParseError::ExpectedRParen),
            }
        } else {
            self.parse_comparison()
        }
    }

    fn parse_comparison(&mut self) -> (r: Result<AST, ParseError>)
        ensures
            final(self).tokens == old(self).tokens,
            match r {
                Ok(ast) => final(self).pos >= old(self).pos && parse_comparison_spec(
                    old(self).token_models(),
                    old(self).pos as int,
                ) == Ok::<(AST, nat), ParseFailure>(
                    (ast, (final(self).pos - old(self).pos) as nat),
                ),
                Err(e) => parse_comparison_spec(old(self).token_models(), old(self).pos as int)
                    == Err::<(AST, nat), ParseFailure>(e@),
            },
    {
        proof {
            reveal_strlit("pid");
            reveal_strlit("cpu");
            reveal_strlit("mem");
        }
        let field = match self.next() {
            Some(Token::Ident(name)) => {
                if str_equal(name.as_str(), "pid") {
                    Field::Pid
                } else if str_equal(name.as_str(), "cpu") {
                    Field::Cpu
                } else if str_equal(name.as_str(), "mem") {
                    Field::Mem
                } else {
                    return Err(ParseError::UnknownField(name));
                }
            },
            _ => return Err(ParseError::ExpectedField),
        };
        let op = match self.next() {
            Some(Token::Gt) => Operator::Gt,
            Some(Token::Ge) => Operator::Ge,
            Some(Token::Eq) => Operator::Eq,
            Some(Token::Ne) => Operator::Ne,
            Some(Token::Lt) => Operator::Lt,
            Some(Token::Le) => Operator::Le,
            _ => return Err(ParseError::ExpectedOperator),
        };
        let value = match self.next() {
            Some(Token::Number(n)) => match field {
                Field::Pid => Value::Pid(n),
                Field::Cpu => Value::Cpu(u32_to_f32_bits(n)),
                Field::Mem => Value::Mem(n as u64),
            },
            _ => return Err(ParseError::ExpectedNumber),
        };
        Ok(AST::Compare { field, op, value })
    }
}

} // verus!
