//! The tree that describes Verilog code: identifiers, literals, operators,
//! expressions, triggers and continuous assignments.
//!
//! Every node is built once by its owner and never changed. Sub-expressions
//! are owned by exactly one parent, so a tree is finite and has no cycles.
use vstd::prelude::*;

verus! {

/// A Verilog identifier: a port, a wire, a register and so on.
///
/// The name is kept as it is given; its syntax is not checked.
#[derive(Debug)]
pub struct Ident(pub String);

impl Ident {
    pub fn new(ident: &str) -> (r: Ident)
        ensures
            r.0@ == ident@,
    {
        Ident(String::from_str(ident))
    }
}

/// A constant.
#[derive(Debug)]
pub enum Literal {
    /// An unsigned integer, written in decimal.
    Integer(u64),
}

/// Port directionality.
#[derive(Debug)]
pub enum Dir {
    In,
    Out,
}

impl Dir {
    /// The text that stands for the direction in Verilog.
    pub open spec fn spec_symbol(&self) -> Seq<char> {
        match self {
            Dir::In => seq!['i', 'n'],
            Dir::Out => seq!['o', 'u', 't'],
        }
    }

    /// The text that stands for the direction in Verilog.
    pub fn symbol(&self) -> (r: &'static str)
        ensures
            r@ == self.spec_symbol(),
    {
        match self {
            Dir::In => {
                proof {
                    reveal_strlit("in");
                }
                "in"
            },
            Dir::Out => {
                proof {
                    reveal_strlit("out");
                }
                "out"
            },
        }
    }
}

/// Edge side (rising/+ or falling/-).
#[derive(Debug)]
pub enum Edge {
    Rising,
    Falling,
}

impl Edge {
    /// The text that stands for the edge in Verilog.
    pub open spec fn spec_symbol(&self) -> Seq<char> {
        match self {
            Edge::Rising => seq!['p', 'o', 's', 'e', 'd', 'g', 'e'],
            Edge::Falling => seq!['n', 'e', 'g', 'e', 'd', 'g', 'e'],
        }
    }

    /// The text that stands for the edge in Verilog.
    pub fn symbol(&self) -> (r: &'static str)
        ensures
            r@ == self.spec_symbol(),
    {
        match self {
            Edge::Rising => {
                proof {
                    reveal_strlit("posedge");
                }
                "posedge"
            },
            Edge::Falling => {
                proof {
                    reveal_strlit("negedge");
                }
                "negedge"
            },
        }
    }
}

/// A trigger (edge side + signal).
#[derive(Debug)]
pub struct Trigger {
    /// Identifier of the signal to trigger on
    pub signal: Ident,
    /// Signal transition edge to trigger on
    pub edge: Edge,
}

/// A Verilog expression.
#[derive(Debug)]
pub enum Expression {
    Ident(Ident),
    Literal(Literal),
    BinaryOp(Box<BinaryOp>),
}

/// A continuous assignment statement.
#[derive(Debug)]
pub struct Assignment {
    pub lhs: Ident,
    pub rhs: Expression,
}

/// Binary operations
#[derive(Debug)]
pub struct BinaryOp {
    pub ty: BinaryOpTy,
    pub lhs: Expression,
    pub rhs: Expression,
}

/// Operators with arity two.
#[derive(Debug)]
pub enum BinaryOpTy {
    Add,
    Sub,
    Mul,
    Div,
    Eq,
    Neq,
    Lt,
    Gt,
    Lte,
    Gte,
    Or,
    And,
    BitOr,
    BitAnd,
    LShift,
    RShift,
}

impl BinaryOpTy {
    /// The text that stands for the operator in Verilog.
    pub open spec fn spec_symbol(&self) -> Seq<char> {
        match self {
            BinaryOpTy::Add => seq!['+'],
            BinaryOpTy::Sub => seq!['-'],
            BinaryOpTy::Mul => seq!['*'],
            BinaryOpTy::Div => seq!['/'],
            BinaryOpTy::Eq => seq!['=', '='],
            BinaryOpTy::Neq => seq!['!', '='],
            BinaryOpTy::Lt => seq!['<'],
            BinaryOpTy::Gt => seq!['>'],
            BinaryOpTy::Lte => seq!['<', '='],
            BinaryOpTy::Gte => seq!['>', '='],
            BinaryOpTy::Or => seq!['|', '|'],
            BinaryOpTy::And => seq!['&', '&'],
            BinaryOpTy::BitOr => seq!['|'],
            BinaryOpTy::BitAnd => seq!['&'],
            BinaryOpTy::LShift => seq!['<', '<'],
            BinaryOpTy::RShift => seq!['>', '>'],
        }
    }

    /// The text that stands for the operator in Verilog.
    pub fn symbol(&self) -> (r: &'static str)
        ensures
            r@ == self.spec_symbol(),
    {
        match self {
            BinaryOpTy::Add => {
                proof {
                    reveal_strlit("+");
                }
                "+"
            },
            BinaryOpTy::Sub => {
                proof {
                    reveal_strlit("-");
                }
                "-"
            },
            BinaryOpTy::Mul => {
                proof {
                    reveal_strlit("*");
                }
                "*"
            },
            BinaryOpTy::Div => {
                proof {
                    reveal_strlit("/");
                }
                "/"
            },
            BinaryOpTy::Eq => {
                proof {
                    reveal_strlit("==");
                }
                "=="
            },
            BinaryOpTy::Neq => {
                proof {
                    reveal_strlit("!=");
                }
                "!="
            },
            BinaryOpTy::Lt => {
                proof {
                    reveal_strlit("<");
                }
                "<"
            },
            BinaryOpTy::Gt => {
                proof {
                    reveal_strlit(">");
                }
                ">"
            },
            BinaryOpTy::Lte => {
                proof {
                    reveal_strlit("<=");
                }
                "<="
            },
            BinaryOpTy::Gte => {
                proof {
                    reveal_strlit(">=");
                }
                ">="
            },
            BinaryOpTy::Or => {
                proof {
                    reveal_strlit("||");
                }
                "||"
            },
            BinaryOpTy::And => {
                proof {
                    reveal_strlit("&&");
                }
                "&&"
            },
            BinaryOpTy::BitOr => {
                proof {
                    reveal_strlit("|");
                }
                "|"
            },
            BinaryOpTy::BitAnd => {
                proof {
                    reveal_strlit("&");
                }
                "&"
            },
            BinaryOpTy::LShift => {
                proof {
                    reveal_strlit("<<");
                }
                "<<"
            },
            BinaryOpTy::RShift => {
                proof {
                    reveal_strlit(">>");
                }
                ">>"
            },
        }
    }
}

/// Operators with arity one.
#[derive(Debug)]
pub enum UnaryOpTy {
    Not,
}

impl UnaryOpTy {
    /// The text that stands for the operator in Verilog.
    pub open spec fn spec_symbol(&self) -> Seq<char> {
        match self {
            UnaryOpTy::Not => seq!['!'],
        }
    }

    /// The text that stands for the operator in Verilog.
    pub fn symbol(&self) -> (r: &'static str)
        ensures
            r@ == self.spec_symbol(),
    {
        match self {
            UnaryOpTy::Not => {
                proof {
                    reveal_strlit("!");
                }
                "!"
            },
        }
    }
}

} // verus!
