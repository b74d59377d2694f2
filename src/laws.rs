//! Facts about rendered text that hold for every tree.
use crate::ast::{BinaryOp, BinaryOpTy, Expression, Literal};
use crate::codegen::{binary_text, decimal, digit_char, expression_text, Codegen};
use vstd::prelude::*;

verus! {

/// How many times `c` occurs in `s`.
pub open spec fn count_char(s: Seq<char>, c: char) -> nat
    decreases s.len(),
{
    if s.len() == 0 {
        0
    } else {
        count_char(s.drop_last(), c) + if s.last() == c {
            1nat
        } else {
            0nat
        }
    }
}

/// How many binary operation nodes `e` holds, itself included.
pub open spec fn binary_nodes(e: Expression) -> nat
    decreases e,
{
    match e {
        Expression::Ident(_) => 0,
        Expression::Literal(_) => 0,
        Expression::BinaryOp(b) => 1 + binary_nodes(b.lhs) + binary_nodes(b.rhs),
    }
}

/// No identifier in `e` holds the character `c`.
pub open spec fn names_avoid(e: Expression, c: char) -> bool
    decreases e,
{
    match e {
        Expression::Ident(id) => !id.0@.contains(c),
        Expression::Literal(_) => true,
        Expression::BinaryOp(b) => names_avoid(b.lhs, c) && names_avoid(b.rhs, c),
    }
}

proof fn lemma_count_concat(a: Seq<char>, b: Seq<char>, c: char)
    ensures
        count_char(a + b, c) == count_char(a, c) + count_char(b, c),
    decreases b.len(),
{
    if b.len() == 0 {
        assert(a + b =~= a);
    } else {
        lemma_count_concat(a, b.drop_last(), c);
        assert((a + b).drop_last() =~= a + b.drop_last());
    }
}

proof fn lemma_count_absent(s: Seq<char>, c: char)
    requires
        !s.contains(c),
    ensures
        count_char(s, c) == 0,
    decreases s.len(),
{
    if s.len() > 0 {
        assert(s.last() == s[s.len() - 1]);
        assert forall|i: int| 0 <= i < s.drop_last().len() implies s.drop_last()[i] != c by {
            assert(s.drop_last()[i] == s[i]);
        }
        lemma_count_absent(s.drop_last(), c);
    }
}

proof fn lemma_decimal_digits_only(n: nat, c: char)
    requires
        c == '(' || c == ')',
    ensures
        count_char(decimal(n), c) == 0,
    decreases n,
{
    lemma_digit_not_paren((n % 10) as nat, c);
    lemma_one(digit_char(n % 10), c);
    if n >= 10 {
        lemma_decimal_digits_only(n / 10, c);
        lemma_count_concat(decimal(n / 10), seq![digit_char(n % 10)], c);
    }
}

proof fn lemma_digit_not_paren(d: nat, c: char)
    requires
        d < 10,
        c == '(' || c == ')',
    ensures
        digit_char(d) != c,
{
    let digits = seq!['0', '1', '2', '3', '4', '5', '6', '7', '8', '9'];
    assert(forall|i: int| 0 <= i < 10 ==> #[trigger] digits[i] != '(' && digits[i] != ')');
}

proof fn lemma_symbol_no_parens(ty: BinaryOpTy, c: char)
    requires
        c == '(' || c == ')',
    ensures
        count_char(ty.spec_symbol(), c) == 0,
{
    let s = ty.spec_symbol();
    assert(!s.contains(c)) by {
        if s.contains(c) {
            let i = choose|i: int| 0 <= i < s.len() && s[i] == c;
            assert(s.len() <= 2);
        }
    }
    lemma_count_absent(s, c);
}

proof fn lemma_one(x: char, c: char)
    ensures
        count_char(seq![x], c) == if x == c {
            1nat
        } else {
            0nat
        },
{
    assert(seq![x].drop_last() =~= Seq::<char>::empty());
    assert(count_char(Seq::<char>::empty(), c) == 0);
}

/// Where no identifier holds a parenthesis, an expression's text holds one
/// `(` and one `)` for each binary operation node in it.
pub proof fn lemma_expression_parens(e: Expression, c: char)
    requires
        c == '(' || c == ')',
        names_avoid(e, '('),
        names_avoid(e, ')'),
    ensures
        count_char(expression_text(e), c) == binary_nodes(e),
    decreases e,
{
    match e {
        Expression::Ident(id) => {
            lemma_count_absent(id.0@, c);
        },
        Expression::Literal(Literal::Integer(n)) => {
            lemma_decimal_digits_only(n as nat, c);
        },
        Expression::BinaryOp(b) => {
            lemma_binary_parens(*b, c);
            lemma_one('(', c);
            lemma_one(')', c);
            lemma_count_concat(seq!['('], binary_text(*b), c);
            lemma_count_concat(seq!['('] + binary_text(*b), seq![')'], c);
        },
    }
}

/// Where no identifier holds a parenthesis, the text of a binary operation
/// rendered on its own holds exactly one pair of parentheses for each binary
/// operation nested in its operands, at any depth, and none for itself.
pub proof fn lemma_binary_parens(b: BinaryOp, c: char)
    requires
        c == '(' || c == ')',
        names_avoid(b.lhs, '('),
        names_avoid(b.lhs, ')'),
        names_avoid(b.rhs, '('),
        names_avoid(b.rhs, ')'),
    ensures
        count_char(binary_text(b), c) == binary_nodes(b.lhs) + binary_nodes(b.rhs),
    decreases b,
{
    lemma_expression_parens(b.lhs, c);
    lemma_expression_parens(b.rhs, c);
    lemma_symbol_no_parens(b.ty, c);
    lemma_one(' ', c);
    let l = expression_text(b.lhs);
    let sym = b.ty.spec_symbol();
    let r = expression_text(b.rhs);
    lemma_count_concat(l, seq![' '], c);
    lemma_count_concat(l + seq![' '], sym, c);
    lemma_count_concat(l + seq![' '] + sym, seq![' '], c);
    lemma_count_concat(l + seq![' '] + sym + seq![' '], r, c);
}

/// Rendering is deterministic: two renderings of the same node give the same
/// text, character for character.
pub proof fn lemma_render_deterministic<T: Codegen>(node: &T, first: String, second: String)
    requires
        first@ == node.text(),
        second@ == node.text(),
    ensures
        first@ == second@,
{
}

} // verus!
