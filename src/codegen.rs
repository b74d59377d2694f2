//! Rendering of the tree as Verilog source text.
//!
//! Each node appends its text to a `String`. Appending to a `String` cannot
//! fail, so rendering is total: every node has a text, fixed by its structure.
use crate::ast::{
    Assignment, BinaryOp, BinaryOpTy, Dir, Edge, Expression, Ident, Literal, Trigger, UnaryOpTy,
};
use vstd::prelude::*;

verus! {

/// The digit that stands for `d` (below ten).
pub open spec fn digit_char(d: nat) -> char {
    seq!['0', '1', '2', '3', '4', '5', '6', '7', '8', '9'][d as int]
}

/// `n` written in decimal: no sign, no leading zeros, `0` for zero.
pub open spec fn decimal(n: nat) -> Seq<char>
    decreases n,
{
    if n < 10 {
        seq![digit_char(n)]
    } else {
        decimal(n / 10) + seq![digit_char(n % 10)]
    }
}

/// The text of an expression used as a value.
///
/// A binary operation in that place is wrapped in one pair of parentheses;
/// identifiers and literals stand as they are.
pub open spec fn expression_text(e: Expression) -> Seq<char>
    decreases e,
{
    match e {
        Expression::Ident(id) => id.0@,
        Expression::Literal(Literal::Integer(n)) => decimal(n as nat),
        Expression::BinaryOp(b) => seq!['('] + binary_text(*b) + seq![')'],
    }
}

/// The text of a binary operation on its own: its operands, each rendered as
/// an expression, around the operator's symbol with one space on each side.
pub open spec fn binary_text(b: BinaryOp) -> Seq<char>
    decreases b,
{
    expression_text(b.lhs) + seq![' '] + b.ty.spec_symbol() + seq![' '] + expression_text(b.rhs)
}

/// Implemented by the nodes of the tree to emit Verilog.
pub trait Codegen {
    /// The text of this node.
    spec fn text(&self) -> Seq<char>;

    /// Appends the text of this node to `w`.
    fn gen(&self, w: &mut String)
        ensures
            final(w)@ == old(w)@ + self.text(),
    ;

    /// The text of this node, as a new `String`.
    fn to_string(&self) -> (r: String)
        ensures
            r@ == self.text(),
    {
        let mut string = String::new();
        self.gen(&mut string);
        proof {
            assert(string@ =~= self.text());
        }
        string
    }
}

/// The one-character text of the digit `d`.
fn digit_str(d: u64) -> (r: &'static str)
    requires
        d < 10,
    ensures
        r@ == seq![digit_char(d as nat)],
{
    let r: &'static str = match d {
        0 => "0",
        1 => "1",
        2 => "2",
        3 => "3",
        4 => "4",
        5 => "5",
        6 => "6",
        7 => "7",
        8 => "8",
        _ => "9",
    };
    proof {
        reveal_strlit("0");
        reveal_strlit("1");
        reveal_strlit("2");
        reveal_strlit("3");
        reveal_strlit("4");
        reveal_strlit("5");
        reveal_strlit("6");
        reveal_strlit("7");
        reveal_strlit("8");
        reveal_strlit("9");
        assert(r@ =~= seq![digit_char(d as nat)]);
    }
    r
}

/// Appends `n`, written in decimal, to `w`.
fn write_decimal(n: u64, w: &mut String)
    ensures
        final(w)@ == old(w)@ + decimal(n as nat),
    decreases n,
{
    if n >= 10 {
        write_decimal(n / 10, w);
    }
    w.append(digit_str(n % 10));
    proof {
        assert(w@ =~= old(w)@ + decimal(n as nat));
    }
}

impl Codegen for Ident {
    open spec fn text(&self) -> Seq<char> {
        self.0@
    }

    fn gen(&self, w: &mut String) {
        w.append(self.0.as_str());
    }
}

impl Codegen for Dir {
    open spec fn text(&self) -> Seq<char> {
        self.spec_symbol()
    }

    fn gen(&self, w: &mut String) {
        w.append(self.symbol());
    }
}

impl Codegen for Edge {
    open spec fn text(&self) -> Seq<char> {
        self.spec_symbol()
    }

    fn gen(&self, w: &mut String) {
        w.append(self.symbol());
    }
}

impl Codegen for BinaryOpTy {
    open spec fn text(&self) -> Seq<char> {
        self.spec_symbol()
    }

    fn gen(&self, w: &mut String) {
        w.append(self.symbol());
    }
}

impl Codegen for UnaryOpTy {
    open spec fn text(&self) -> Seq<char> {
        self.spec_symbol()
    }

    fn gen(&self, w: &mut String) {
        w.append(self.symbol());
    }
}

impl Codegen for Literal {
    open spec fn text(&self) -> Seq<char> {
        match self {
            Literal::Integer(n) => decimal(*n as nat),
        }
    }

    fn gen(&self, w: &mut String) {
        match self {
            Literal::Integer(x) => write_decimal(*x, w),
        }
    }
}

impl Codegen for Trigger {
    /// The edge's keyword, one space, and the signal's name.
    open spec fn text(&self) -> Seq<char> {
        self.edge.spec_symbol() + seq![' '] + self.signal.0@
    }

    fn gen(&self, w: &mut String) {
        w.append(self.edge.symbol());
        w.append(" ");
        w.append(self.signal.0.as_str());
        proof {
            reveal_strlit(" ");
            assert(w@ =~= old(w)@ + self.text());
        }
    }
}

impl Codegen for Expression {
    open spec fn text(&self) -> Seq<char> {
        expression_text(*self)
    }

    fn gen(&self, w: &mut String)
        decreases self,
    {
        match self {
            Expression::Ident(id) => id.gen(w),
            Expression::Literal(lit) => lit.gen(w),
            Expression::BinaryOp(op) => {
                w.append("(");
                op.gen(w);
                w.append(")");
                proof {
                    reveal_strlit("(");
                    reveal_strlit(")");
                    assert(w@ =~= old(w)@ + self.text());
                }
            },
        }
    }
}

impl Codegen for BinaryOp {
    open spec fn text(&self) -> Seq<char> {
        binary_text(*self)
    }

    fn gen(&self, w: &mut String)
        decreases self,
    {
        self.lhs.gen(w);
        w.append(" ");
        w.append(self.ty.symbol());
        w.append(" ");
        self.rhs.gen(w);
        proof {
            reveal_strlit(" ");
            assert(w@ =~= old(w)@ + self.text());
        }
    }
}

impl Codegen for Assignment {
    /// `assign`, the target, `=`, the value's text and a closing semicolon.
    open spec fn text(&self) -> Seq<char> {
        seq!['a', 's', 's', 'i', 'g', 'n', ' '] + self.lhs.0@ + seq![' ', '=', ' ']
            + expression_text(self.rhs) + seq![';']
    }

    fn gen(&self, w: &mut String) {
        w.append("assign ");
        w.append(self.lhs.0.as_str());
        w.append(" = ");
        self.rhs.gen(w);
        w.append(";");
        proof {
            reveal_strlit("assign ");
            reveal_strlit(" = ");
            reveal_strlit(";");
            assert(w@ =~= old(w)@ + self.text());
        }
    }
}

} // verus!
