//! The grammar read from left to right: for each kind of syntax tree, the
//! one tree that starts at a given token and the position at which it
//! ends, or `None` where no tree of that kind starts there.
//!
//! [`crate::proof`] shows that these functions find a tree exactly where
//! [`crate::syntax`] admits one.

use crate::syntax::{
    Args, BlockItem, BlockItems, Brackets, CompUnit, Decl, Def, Defs, Expr, FuncDef, InitVal,
    Inits, Item, Items, Param, Params, Role, Stmt, Tail,
};
use crate::token::{peek, Token, UNARY_LEVEL};
use vstd::prelude::*;

verus! {

/// `PrimaryExpr → '(' Expr ')' | Number | Ident '(' (Expr (',' Expr)*)? ')'
/// | Ident ('[' Expr ']')*`
pub open spec fn primary_at(ts: Seq<Token>, i: int) -> Option<(Expr, int)>
    decreases ts.len() - i, 0int,
{
    match peek(ts, i) {
        Some(Token::LParen) => match level_at(ts, i + 1, 1) {
            Some((e, j)) => if peek(ts, j) == Some(Token::RParen) {
                Some((Expr::Paren(Box::new(e)), j + 1))
            } else {
                None
            },
            None => None,
        },
        Some(Token::Decimal) => Some((Expr::Number(Token::Decimal), i + 1)),
        Some(Token::Octal) => Some((Expr::Number(Token::Octal), i + 1)),
        Some(Token::Hexadecimal) => Some((Expr::Number(Token::Hexadecimal), i + 1)),
        Some(Token::Ident) => if peek(ts, i + 1) == Some(Token::LParen) {
            if peek(ts, i + 2) == Some(Token::RParen) {
                Some((Expr::Call(Args::Nil), i + 3))
            } else {
                match args_at(ts, i + 2) {
                    Some((args, j)) => if peek(ts, j) == Some(Token::RParen) {
                        Some((Expr::Call(args), j + 1))
                    } else {
                        None
                    },
                    None => None,
                }
            }
        } else {
            match brackets_at(ts, i + 1, Role::Subscript) {
                Some((subs, j)) => Some((Expr::LVal(subs), j)),
                None => None,
            }
        },
        _ => None,
    }
}

/// `UnaryExpr → ('+' | '-' | '!') UnaryExpr | PrimaryExpr`
pub open spec fn unary_at(ts: Seq<Token>, i: int) -> Option<(Expr, int)>
    decreases ts.len() - i, 1int,
{
    match peek(ts, i) {
        Some(op) => if op.is_prefix() {
            match unary_at(ts, i + 1) {
                Some((e, j)) => Some((Expr::Unary(op, Box::new(e)), j)),
                None => None,
            }
        } else {
            primary_at(ts, i)
        },
        None => None,
    }
}

/// An expression of precedence level `lvl` or tighter: an operand of the
/// next tighter level, then every operator of level `lvl` that follows,
/// each with its operand. Level 7 is a unary expression.
pub open spec fn level_at(ts: Seq<Token>, i: int, lvl: int) -> Option<(Expr, int)>
    decreases ts.len() - i,
        if lvl >= UNARY_LEVEL {
            2int
        } else {
            9 - lvl
        },
{
    if lvl >= UNARY_LEVEL {
        unary_at(ts, i)
    } else {
        match level_at(ts, i, lvl + 1) {
            Some((first, j)) => if i < j <= ts.len() {
                match tail_at(ts, j, lvl) {
                    Some((tail, k)) => Some(
                        (
                            if tail is Nil {
                                first
                            } else {
                                Expr::Chain(Box::new(first), tail)
                            },
                            k,
                        ),
                    ),
                    None => None,
                }
            } else {
                None
            },
            None => None,
        }
    }
}

/// Every operator of level `lvl` from position `i` on, each with its
/// operand.
pub open spec fn tail_at(ts: Seq<Token>, i: int, lvl: int) -> Option<(Tail, int)>
    decreases ts.len() - i, 0int,
{
    match peek(ts, i) {
        Some(op) => if op.level() == lvl {
            match level_at(ts, i + 1, lvl + 1) {
                Some((e, j)) => if i < j <= ts.len() {
                    match tail_at(ts, j, lvl) {
                        Some((rest, k)) => Some(
                            (Tail::Cons(op, Box::new(e), Box::new(rest)), k),
                        ),
                        None => None,
                    }
                } else {
                    None
                },
                None => None,
            }
        } else {
            Some((Tail::Nil, i))
        },
        None => Some((Tail::Nil, i)),
    }
}

/// `('[' Expr ']')*`, each bracketed expression in the role `role`.
pub open spec fn brackets_at(ts: Seq<Token>, i: int, role: Role) -> Option<(Brackets, int)>
    decreases ts.len() - i, 0int,
{
    if peek(ts, i) == Some(Token::LBracket) {
        match level_at(ts, i + 1, 1) {
            Some((e, j)) => if i < j && peek(ts, j) == Some(Token::RBracket) {
                match brackets_at(ts, j + 1, role) {
                    Some((rest, k)) => Some((Brackets::Cons(role, Box::new(e), Box::new(rest)), k)),
                    None => None,
                }
            } else {
                None
            },
            None => None,
        }
    } else {
        Some((Brackets::Nil, i))
    }
}

/// `Expr (',' Expr)*`
pub open spec fn args_at(ts: Seq<Token>, i: int) -> Option<(Args, int)>
    decreases ts.len() - i, 10int,
{
    match level_at(ts, i, 1) {
        Some((e, j)) => if peek(ts, j) == Some(Token::Comma) {
            if i <= j {
                match args_at(ts, j + 1) {
                    Some((rest, k)) => Some((Args::Cons(Box::new(e), Box::new(rest)), k)),
                    None => None,
                }
            } else {
                None
            }
        } else {
            Some((Args::Cons(Box::new(e), Box::new(Args::Nil)), j))
        },
        None => None,
    }
}

/// `Expr → LOrExpr`: the expression that starts at `i`.
pub open spec fn expr_at(ts: Seq<Token>, i: int) -> Option<(Expr, int)> {
    match level_at(ts, i, 1) {
        Some((e, j)) => if i < j <= ts.len() {
            Some((e, j))
        } else {
            None
        },
        None => None,
    }
}

/// `InitVal → Expr | '{' (InitVal (',' InitVal)*)? '}'`, and the same for a
/// constant, where the expression is a constant expression.
pub open spec fn init_at(ts: Seq<Token>, i: int, konst: bool) -> Option<(InitVal, int)>
    decreases ts.len() - i, 0int,
{
    if peek(ts, i) == Some(Token::LBrace) {
        if peek(ts, i + 1) == Some(Token::RBrace) {
            Some((InitVal::Braces(konst, Inits::Nil), i + 2))
        } else {
            match inits_at(ts, i + 1, konst) {
                Some((l, j)) => if peek(ts, j) == Some(Token::RBrace) {
                    Some((InitVal::Braces(konst, l), j + 1))
                } else {
                    None
                },
                None => None,
            }
        }
    } else {
        match expr_at(ts, i) {
            Some((e, j)) => Some((InitVal::Single(konst, e), j)),
            None => None,
        }
    }
}

/// `InitVal (',' InitVal)*`
pub open spec fn inits_at(ts: Seq<Token>, i: int, konst: bool) -> Option<(Inits, int)>
    decreases ts.len() - i, 1int,
{
    match init_at(ts, i, konst) {
        Some((v, j)) => if peek(ts, j) == Some(Token::Comma) {
            if i <= j {
                match inits_at(ts, j + 1, konst) {
                    Some((rest, k)) => Some((Inits::Cons(Box::new(v), Box::new(rest)), k)),
                    None => None,
                }
            } else {
                None
            }
        } else {
            Some((Inits::Cons(Box::new(v), Box::new(Inits::Nil)), j))
        },
        None => None,
    }
}

/// `ConstDef → Ident ('[' ConstExpr ']')* '=' ConstInitVal` and
/// `VarDef → Ident ('[' ConstExpr ']')* ('=' InitVal)?`
pub open spec fn def_at(ts: Seq<Token>, i: int, konst: bool) -> Option<(Def, int)> {
    if peek(ts, i) == Some(Token::Ident) {
        match brackets_at(ts, i + 1, Role::Dimension) {
            Some((dims, j)) => if peek(ts, j) == Some(Token::Assign) {
                match init_at(ts, j + 1, konst) {
                    Some((v, k)) => Some((Def { konst, dims, init: Some(v) }, k)),
                    None => None,
                }
            } else if konst {
                None
            } else {
                Some((Def { konst, dims, init: None }, j))
            },
            None => None,
        }
    } else {
        None
    }
}

/// `Def (',' Def)*`
pub open spec fn defs_at(ts: Seq<Token>, i: int, konst: bool) -> Option<(Defs, int)>
    decreases ts.len() - i,
{
    match def_at(ts, i, konst) {
        Some((d, j)) => if peek(ts, j) == Some(Token::Comma) {
            if i <= j {
                match defs_at(ts, j + 1, konst) {
                    Some((rest, k)) => Some((Defs::Cons(d, Box::new(rest)), k)),
                    None => None,
                }
            } else {
                None
            }
        } else {
            Some((Defs::Cons(d, Box::new(Defs::Nil)), j))
        },
        None => None,
    }
}

/// `ConstDecl → 'const' 'int' ConstDef (',' ConstDef)* ';'` and
/// `VarDecl → 'int' VarDef (',' VarDef)* ';'`
pub open spec fn decl_at(ts: Seq<Token>, i: int) -> Option<(Decl, int)> {
    let konst = peek(ts, i) == Some(Token::Const);
    let start = if konst {
        i + 1
    } else {
        i
    };
    if peek(ts, start) == Some(Token::Int) {
        match defs_at(ts, start + 1, konst) {
            Some((defs, j)) => if start < j && peek(ts, j) == Some(Token::Semicolon) {
                Some((Decl { konst, defs }, j + 1))
            } else {
                None
            },
            None => None,
        }
    } else {
        None
    }
}

/// `FuncFParam → 'int' Ident ('[' ']' ('[' Expr ']')*)?`
pub open spec fn param_at(ts: Seq<Token>, i: int) -> Option<(Param, int)> {
    if peek(ts, i) == Some(Token::Int) && peek(ts, i + 1) == Some(Token::Ident) {
        if peek(ts, i + 2) == Some(Token::LBracket) {
            if peek(ts, i + 3) == Some(Token::RBracket) {
                match brackets_at(ts, i + 4, Role::Extent) {
                    Some((l, j)) => Some((Param { extents: Some(l) }, j)),
                    None => None,
                }
            } else {
                None
            }
        } else {
            Some((Param { extents: None }, i + 2))
        }
    } else {
        None
    }
}

/// `FuncFParam (',' FuncFParam)*`
pub open spec fn params_at(ts: Seq<Token>, i: int) -> Option<(Params, int)>
    decreases ts.len() - i,
{
    match param_at(ts, i) {
        Some((p, j)) => if peek(ts, j) == Some(Token::Comma) {
            if i <= j {
                match params_at(ts, j + 1) {
                    Some((rest, k)) => Some((Params::Cons(p, Box::new(rest)), k)),
                    None => None,
                }
            } else {
                None
            }
        } else {
            Some((Params::Cons(p, Box::new(Params::Nil)), j))
        },
        None => None,
    }
}

/// A statement. An `else` is taken by the `if` that has just been read, the
/// nearest one; what starts with an expression is an assignment where `=`
/// follows the expression, which must then be a name with its subscripts.
pub open spec fn stmt_at(ts: Seq<Token>, i: int) -> Option<(Stmt, int)>
    decreases ts.len() - i, 0int,
{
    match peek(ts, i) {
        Some(Token::Semicolon) => Some((Stmt::Eval(None), i + 1)),
        Some(Token::LBrace) => match block_at(ts, i + 1) {
            Some((items, j)) => if peek(ts, j) == Some(Token::RBrace) {
                Some((Stmt::Block(items), j + 1))
            } else {
                None
            },
            None => None,
        },
        Some(Token::If) => if peek(ts, i + 1) == Some(Token::LParen) {
            match expr_at(ts, i + 2) {
                Some((cond, j)) => if peek(ts, j) == Some(Token::RParen) {
                    match stmt_at(ts, j + 1) {
                        Some((then, k)) => if peek(ts, k) == Some(Token::Else) {
                            if j < k {
                                match stmt_at(ts, k + 1) {
                                    Some((other, m)) => Some(
                                        (Stmt::IfElse(cond, Box::new(then), Box::new(other)), m),
                                    ),
                                    None => None,
                                }
                            } else {
                                None
                            }
                        } else {
                            Some((Stmt::If(cond, Box::new(then)), k))
                        },
                        None => None,
                    }
                } else {
                    None
                },
                None => None,
            }
        } else {
            None
        },
        Some(Token::While) => if peek(ts, i + 1) == Some(Token::LParen) {
            match expr_at(ts, i + 2) {
                Some((cond, j)) => if peek(ts, j) == Some(Token::RParen) {
                    match stmt_at(ts, j + 1) {
                        Some((body, k)) => Some((Stmt::While(cond, Box::new(body)), k)),
                        None => None,
                    }
                } else {
                    None
                },
                None => None,
            }
        } else {
            None
        },
        Some(Token::Break) => if peek(ts, i + 1) == Some(Token::Semicolon) {
            Some((Stmt::Break, i + 2))
        } else {
            None
        },
        Some(Token::Continue) => if peek(ts, i + 1) == Some(Token::Semicolon) {
            Some((Stmt::Continue, i + 2))
        } else {
            None
        },
        Some(Token::Return) => if peek(ts, i + 1) == Some(Token::Semicolon) {
            Some((Stmt::Return(None), i + 2))
        } else {
            match expr_at(ts, i + 1) {
                Some((e, j)) => if peek(ts, j) == Some(Token::Semicolon) {
                    Some((Stmt::Return(Some(e)), j + 1))
                } else {
                    None
                },
                None => None,
            }
        },
        _ => match expr_at(ts, i) {
            Some((e, j)) => if peek(ts, j) == Some(Token::Semicolon) {
                Some((Stmt::Eval(Some(e)), j + 1))
            } else if peek(ts, j) == Some(Token::Assign) && e is LVal {
                match expr_at(ts, j + 1) {
                    Some((value, k)) => if peek(ts, k) == Some(Token::Semicolon) {
                        Some((Stmt::Assign(e, value), k + 1))
                    } else {
                        None
                    },
                    None => None,
                }
            } else {
                None
            },
            None => None,
        },
    }
}

/// `BlockItem → Decl | Stmt`
pub open spec fn block_item_at(ts: Seq<Token>, i: int) -> Option<(BlockItem, int)>
    decreases ts.len() - i, 1int,
{
    if peek(ts, i) == Some(Token::Const) || peek(ts, i) == Some(Token::Int) {
        match decl_at(ts, i) {
            Some((d, j)) => Some((BlockItem::Decl(d), j)),
            None => None,
        }
    } else {
        match stmt_at(ts, i) {
            Some((s, j)) => Some((BlockItem::Stmt(s), j)),
            None => None,
        }
    }
}

/// `BlockItem*`, up to the `}` that closes the block.
pub open spec fn block_at(ts: Seq<Token>, i: int) -> Option<(BlockItems, int)>
    decreases ts.len() - i, 2int,
{
    if peek(ts, i) == Some(Token::RBrace) {
        Some((BlockItems::Nil, i))
    } else {
        match block_item_at(ts, i) {
            Some((it, j)) => if i < j <= ts.len() {
                match block_at(ts, j) {
                    Some((rest, k)) => Some((BlockItems::Cons(Box::new(it), Box::new(rest)), k)),
                    None => None,
                }
            } else {
                None
            },
            None => None,
        }
    }
}

/// `FuncDef → ('void' | 'int') Ident '(' (FuncFParam (',' FuncFParam)*)? ')'
/// Block`
pub open spec fn func_at(ts: Seq<Token>, i: int) -> Option<(FuncDef, int)> {
    let returns_int = peek(ts, i) == Some(Token::Int);
    if (returns_int || peek(ts, i) == Some(Token::Void)) && peek(ts, i + 1) == Some(Token::Ident)
        && peek(ts, i + 2) == Some(Token::LParen) {
        let head = if peek(ts, i + 3) == Some(Token::RParen) {
            Some((Params::Nil, i + 3))
        } else {
            params_at(ts, i + 3)
        };
        match head {
            Some((params, j)) => if peek(ts, j) == Some(Token::RParen) && peek(ts, j + 1) == Some(
                Token::LBrace,
            ) {
                match block_at(ts, j + 2) {
                    Some((body, k)) => if peek(ts, k) == Some(Token::RBrace) {
                        Some((FuncDef { returns_int, params, body }, k + 1))
                    } else {
                        None
                    },
                    None => None,
                }
            } else {
                None
            },
            None => None,
        }
    } else {
        None
    }
}

/// A top-level item: what starts with a type, a name and `(` is a
/// function, anything else a declaration.
pub open spec fn item_at(ts: Seq<Token>, i: int) -> Option<(Item, int)> {
    if peek(ts, i) == Some(Token::Void) || (peek(ts, i) == Some(Token::Int) && peek(ts, i + 1)
        == Some(Token::Ident) && peek(ts, i + 2) == Some(Token::LParen)) {
        match func_at(ts, i) {
            Some((f, j)) => Some((Item::Func(f), j)),
            None => None,
        }
    } else {
        match decl_at(ts, i) {
            Some((d, j)) => Some((Item::Decl(d), j)),
            None => None,
        }
    }
}

/// `(Decl | FuncDef)+`, up to the end of the tokens.
pub open spec fn items_at(ts: Seq<Token>, i: int) -> Option<(Items, int)>
    decreases ts.len() - i,
{
    match item_at(ts, i) {
        Some((it, j)) => if j >= ts.len() {
            Some((Items::Cons(it, Box::new(Items::Nil)), j))
        } else if i < j {
            match items_at(ts, j) {
                Some((rest, k)) => Some((Items::Cons(it, Box::new(rest)), k)),
                None => None,
            }
        } else {
            None
        },
        None => None,
    }
}

/// `CompUnit → (Decl | FuncDef)+`: the program that the tokens spell, if
/// they spell one.
pub open spec fn unit_of(ts: Seq<Token>) -> Option<CompUnit> {
    match items_at(ts, 0) {
        Some((items, _)) => Some(CompUnit { items }),
        None => None,
    }
}

} // verus!
