use verilog::{
    Assignment, BinaryOp, BinaryOpTy, Codegen, Dir, Edge, Expression, Ident, Literal, Trigger,
    UnaryOpTy,
};

fn ident(name: &str) -> Expression {
    Expression::Ident(Ident::new(name))
}

fn binary(ty: BinaryOpTy, lhs: Expression, rhs: Expression) -> Expression {
    Expression::BinaryOp(Box::new(BinaryOp { ty, lhs, rhs }))
}

#[test]
fn triggers() {
    let rising = Trigger {
        signal: Ident::new("foo"),
        edge: Edge::Rising,
    };

    assert_eq!(rising.to_string(), "posedge foo");

    let falling = Trigger {
        signal: Ident::new("bar"),
        edge: Edge::Falling,
    };

    assert_eq!(falling.to_string(), "negedge bar");
}

#[test]
fn assignments() {
    let assign = Assignment {
        lhs: Ident::new("foo"),
        rhs: Expression::Ident(Ident::new("bar")),
    };

    assert_eq!(assign.to_string(), "assign foo = bar;");
}

#[test]
fn binary_op() {
    let add = BinaryOp {
        ty: BinaryOpTy::Add,
        lhs: Expression::Ident(Ident::new("a")),
        rhs: Expression::Ident(Ident::new("b")),
    };

    assert_eq!(add.to_string(), "a + b");
}

#[test]
fn literal() {
    let int = Literal::Integer(1612);
    assert_eq!(int.to_string(), "1612");
}

#[test]
fn binary_symbols() {
    let table = [
        (BinaryOpTy::Add, "+"),
        (BinaryOpTy::Sub, "-"),
        (BinaryOpTy::Mul, "*"),
        (BinaryOpTy::Div, "/"),
        (BinaryOpTy::Eq, "=="),
        (BinaryOpTy::Neq, "!="),
        (BinaryOpTy::Lt, "<"),
        (BinaryOpTy::Gt, ">"),
        (BinaryOpTy::Lte, "<="),
        (BinaryOpTy::Gte, ">="),
        (BinaryOpTy::Or, "||"),
        (BinaryOpTy::And, "&&"),
        (BinaryOpTy::BitOr, "|"),
        (BinaryOpTy::BitAnd, "&"),
        (BinaryOpTy::LShift, "<<"),
        (BinaryOpTy::RShift, ">>"),
    ];
    for (ty, symbol) in table.iter() {
        assert_eq!(ty.symbol(), *symbol);
        assert_eq!(ty.to_string(), *symbol);
    }
}

#[test]
fn unary_symbol() {
    assert_eq!(UnaryOpTy::Not.symbol(), "!");
    assert_eq!(UnaryOpTy::Not.to_string(), "!");
}

#[test]
fn edge_and_dir_keywords() {
    assert_eq!(Edge::Rising.to_string(), "posedge");
    assert_eq!(Edge::Falling.to_string(), "negedge");
    assert_eq!(Dir::In.to_string(), "in");
    assert_eq!(Dir::Out.to_string(), "out");
}

#[test]
fn trigger_clock_and_reset() {
    let clk = Trigger {
        signal: Ident::new("clk"),
        edge: Edge::Rising,
    };
    assert_eq!(clk.to_string(), "posedge clk");
    let rst = Trigger {
        signal: Ident::new("rst"),
        edge: Edge::Falling,
    };
    assert_eq!(rst.to_string(), "negedge rst");
}

#[test]
fn literal_zero_and_largest() {
    assert_eq!(Literal::Integer(0).to_string(), "0");
    assert_eq!(Literal::Integer(7).to_string(), "7");
    assert_eq!(Literal::Integer(10).to_string(), "10");
    assert_eq!(
        Literal::Integer(u64::MAX).to_string(),
        "18446744073709551615"
    );
}

#[test]
fn embedded_binary_gets_parentheses() {
    let add = BinaryOp {
        ty: BinaryOpTy::Add,
        lhs: ident("a"),
        rhs: ident("b"),
    };
    assert_eq!(add.to_string(), "a + b");
    let mul = BinaryOp {
        ty: BinaryOpTy::Mul,
        lhs: binary(BinaryOpTy::Add, ident("a"), ident("b")),
        rhs: ident("c"),
    };
    assert_eq!(mul.to_string(), "(a + b) * c");
}

#[test]
fn expression_binary_is_wrapped() {
    let e = binary(BinaryOpTy::Add, ident("a"), ident("b"));
    assert_eq!(e.to_string(), "(a + b)");
    let assign = Assignment {
        lhs: Ident::new("x"),
        rhs: binary(
            BinaryOpTy::Eq,
            Expression::Literal(Literal::Integer(42)),
            ident("y"),
        ),
    };
    assert_eq!(assign.to_string(), "assign x = (42 == y);");
}

#[test]
fn gen_appends_to_sink() {
    let mut sink = String::from("// ");
    let t = Trigger {
        signal: Ident::new("clk"),
        edge: Edge::Rising,
    };
    t.gen(&mut sink);
    assert_eq!(sink, "// posedge clk");
}

#[test]
fn rendering_is_deterministic() {
    let e = binary(
        BinaryOpTy::BitAnd,
        binary(BinaryOpTy::LShift, ident("a"), Expression::Literal(Literal::Integer(3))),
        ident("mask"),
    );
    let first = e.to_string();
    let second = e.to_string();
    assert_eq!(first, second);
    assert_eq!(first, "((a << 3) & mask)");
}

#[test]
fn nesting_depth_counts_parentheses() {
    let depth: usize = 50;
    let mut e = ident("x0");
    for i in 1..depth {
        e = binary(BinaryOpTy::Sub, e, ident(&format!("x{}", i)));
    }
    let top = BinaryOp {
        ty: BinaryOpTy::Add,
        lhs: e,
        rhs: ident("last"),
    };
    let text = top.to_string();
    assert_eq!(text.matches('(').count(), depth - 1);
    assert_eq!(text.matches(')').count(), depth - 1);
    assert!(text.starts_with("((((") && text.ends_with(" + last"));
}
