//! What the grammar finds is a tree that the grammar admits, and it spells
//! the tokens over which it was found.

use crate::grammar::{
    args_at, block_at, block_item_at, brackets_at, decl_at, def_at, defs_at, expr_at, func_at,
    init_at, inits_at, item_at, items_at, level_at, param_at, params_at, primary_at, stmt_at,
    tail_at, unary_at, unit_of,
};
use crate::statistics::Counter;
use crate::syntax::{
    args_hits, args_ok, args_tokens, block_item_ok, block_item_tokens, block_ok, block_tokens,
    brackets_hits, brackets_ok, brackets_tokens, dangles, decl_ok, decl_tokens, def_ok,
    def_tokens, defs_ok, defs_tokens, expr_fits, expr_hits, expr_tokens, func_ok, func_tokens,
    init_ok, init_tokens, inits_ok, inits_tokens, item_ok, item_tokens, items_ok, items_tokens,
    param_ok, param_tokens, params_ok, params_tokens, stmt_ok, stmt_tokens, tail_hits, tail_ok,
    tail_tokens, Args, Brackets, Expr, Params, Role, Tail,
};
use crate::token::{peek, Token, UNARY_LEVEL};
use vstd::prelude::*;

verus! {

/// The expression found from `i` ends after `i`, within the tokens; it
/// fits the level `lvl`; and it spells the tokens from `i` to its end.
pub open spec fn sound_expr(ts: Seq<Token>, i: int, found: Option<(Expr, int)>, lvl: int) -> bool {
    found matches Some((e, j)) ==> 0 <= i < j <= ts.len() && expr_fits(e, lvl) && ts.subrange(i, j)
        == expr_tokens(e)
}

/// An expression that fits a level fits every looser level.
pub proof fn lemma_fits_looser(e: Expr, tight: int, loose: int)
    requires
        expr_fits(e, tight),
        loose <= tight,
    ensures
        expr_fits(e, loose),
{
}

/// What the grammar finds at `i` as a primary expression is well formed and
/// spells the tokens from `i` to its end.
pub proof fn lemma_primary_sound(ts: Seq<Token>, i: int)
    ensures
        sound_expr(ts, i, primary_at(ts, i), UNARY_LEVEL as int),
    decreases ts.len() - i, 0int,
{
    match peek(ts, i) {
        Some(Token::LParen) => {
            lemma_level_sound(ts, i + 1, 1);
            if let Some((e, j)) = level_at(ts, i + 1, 1) {
                if peek(ts, j) == Some(Token::RParen) {
                    assert(ts.subrange(i, j + 1) =~= seq![Token::LParen] + ts.subrange(i + 1, j)
                        + seq![Token::RParen]);
                }
            }
        },
        Some(Token::Decimal) => {
            assert(ts.subrange(i, i + 1) =~= seq![Token::Decimal]);
        },
        Some(Token::Octal) => {
            assert(ts.subrange(i, i + 1) =~= seq![Token::Octal]);
        },
        Some(Token::Hexadecimal) => {
            assert(ts.subrange(i, i + 1) =~= seq![Token::Hexadecimal]);
        },
        Some(Token::Ident) => {
            if peek(ts, i + 1) == Some(Token::LParen) {
                if peek(ts, i + 2) == Some(Token::RParen) {
                    reveal_with_fuel(expr_tokens, 2);
                    reveal_with_fuel(expr_fits, 2);
                    assert(ts.subrange(i, i + 3) =~= seq![Token::Ident, Token::LParen]
                        + Seq::<Token>::empty() + seq![Token::RParen]);
                } else {
                    lemma_args_sound(ts, i + 2);
                    if let Some((args, j)) = args_at(ts, i + 2) {
                        if peek(ts, j) == Some(Token::RParen) {
                            assert(ts.subrange(i, j + 1) =~= seq![Token::Ident, Token::LParen]
                                + ts.subrange(i + 2, j) + seq![Token::RParen]);
                        }
                    }
                }
            } else {
                lemma_brackets_sound(ts, i + 1, Role::Subscript);
                if let Some((subs, j)) = brackets_at(ts, i + 1, Role::Subscript) {
                    assert(ts.subrange(i, j) =~= seq![Token::Ident] + ts.subrange(i + 1, j));
                }
            }
        },
        _ => {},
    }
}

/// What the grammar finds at `i` as a unary expression is well formed and
/// spells the tokens from `i` to its end.
pub proof fn lemma_unary_sound(ts: Seq<Token>, i: int)
    ensures
        sound_expr(ts, i, unary_at(ts, i), UNARY_LEVEL as int),
    decreases ts.len() - i, 1int,
{
    match peek(ts, i) {
        Some(op) => {
            if op.is_prefix() {
                lemma_unary_sound(ts, i + 1);
                if let Some((e, j)) = unary_at(ts, i + 1) {
                    assert(ts.subrange(i, j) =~= seq![op] + ts.subrange(i + 1, j));
                }
            } else {
                lemma_primary_sound(ts, i);
            }
        },
        None => {},
    }
}

/// What the grammar finds at `i` as an expression of a precedence level is
/// well formed and spells the tokens from `i` to its end.
pub proof fn lemma_level_sound(ts: Seq<Token>, i: int, lvl: int)
    requires
        1 <= lvl <= UNARY_LEVEL,
    ensures
        sound_expr(ts, i, level_at(ts, i, lvl), lvl),
    decreases ts.len() - i, 9 - lvl,
{
    if lvl >= UNARY_LEVEL {
        lemma_unary_sound(ts, i);
    } else {
        lemma_level_sound(ts, i, lvl + 1);
        if let Some((first, j)) = level_at(ts, i, lvl + 1) {
            lemma_tail_sound(ts, j, lvl);
            if let Some((tail, k)) = tail_at(ts, j, lvl) {
                assert(ts.subrange(i, k) =~= ts.subrange(i, j) + ts.subrange(j, k));
                if tail is Nil {
                    assert(ts.subrange(j, k) =~= Seq::<Token>::empty());
                    assert(ts.subrange(i, k) =~= ts.subrange(i, j));
                    lemma_fits_looser(first, lvl + 1, lvl);
                }
            }
        }
    }
}

/// What the grammar finds at `i` as a row of binary operators with their
/// operands is well formed and spells the tokens from `i` to its end.
pub proof fn lemma_tail_sound(ts: Seq<Token>, i: int, lvl: int)
    requires
        1 <= lvl < UNARY_LEVEL,
        0 <= i <= ts.len(),
    ensures
        tail_at(ts, i, lvl) matches Some((t, j)) ==> i <= j <= ts.len() && tail_ok(t, lvl)
            && ts.subrange(i, j) == tail_tokens(t),
    decreases ts.len() - i, 0int,
{
    match peek(ts, i) {
        Some(op) => {
            if op.level() == lvl {
                lemma_level_sound(ts, i + 1, lvl + 1);
                if let Some((e, j)) = level_at(ts, i + 1, lvl + 1) {
                    lemma_tail_sound(ts, j, lvl);
                    if let Some((rest, k)) = tail_at(ts, j, lvl) {
                        assert(ts.subrange(i, k) =~= seq![op] + ts.subrange(i + 1, j)
                            + ts.subrange(j, k));
                    }
                }
            } else {
                assert(ts.subrange(i, i) =~= Seq::<Token>::empty());
            }
        },
        None => {
            assert(ts.subrange(i, i) =~= Seq::<Token>::empty());
        },
    }
}

/// What the grammar finds at `i` as bracketed expressions in a row are well
/// formed and spell the tokens from `i` to their end.
pub proof fn lemma_brackets_sound(ts: Seq<Token>, i: int, role: Role)
    requires
        0 <= i <= ts.len(),
    ensures
        brackets_at(ts, i, role) matches Some((l, j)) ==> i <= j <= ts.len() && brackets_ok(
            l,
            role,
        ) && ts.subrange(i, j) == brackets_tokens(l),
    decreases ts.len() - i, 0int,
{
    if peek(ts, i) == Some(Token::LBracket) {
        lemma_level_sound(ts, i + 1, 1);
        if let Some((e, j)) = level_at(ts, i + 1, 1) {
            if peek(ts, j) == Some(Token::RBracket) {
                lemma_brackets_sound(ts, j + 1, role);
                if let Some((rest, k)) = brackets_at(ts, j + 1, role) {
                    assert(ts.subrange(i, k) =~= seq![Token::LBracket] + ts.subrange(i + 1, j)
                        + seq![Token::RBracket] + ts.subrange(j + 1, k));
                }
            }
        }
    } else {
        assert(ts.subrange(i, i) =~= Seq::<Token>::empty());
    }
}

/// What the grammar finds at `i` as expressions parted by commas are well
/// formed and spell the tokens from `i` to their end.
pub proof fn lemma_args_sound(ts: Seq<Token>, i: int)
    ensures
        args_at(ts, i) matches Some((l, j)) ==> 0 <= i < j <= ts.len() && args_ok(l) && !(l is Nil)
            && ts.subrange(i, j) == args_tokens(l),
    decreases ts.len() - i, 10int,
{
    lemma_level_sound(ts, i, 1);
    if let Some((e, j)) = level_at(ts, i, 1) {
        if peek(ts, j) == Some(Token::Comma) {
            lemma_args_sound(ts, j + 1);
            if let Some((rest, k)) = args_at(ts, j + 1) {
                assert(ts.subrange(i, k) =~= ts.subrange(i, j) + seq![Token::Comma]
                    + ts.subrange(j + 1, k));
            }
        } else {
            reveal_with_fuel(args_tokens, 2);
            reveal_with_fuel(args_ok, 2);
        }
    }
}

/// The expression found from `i` fits the loosest level and spells the
/// tokens from `i` to its end.
pub proof fn lemma_expr_sound(ts: Seq<Token>, i: int)
    ensures
        sound_expr(ts, i, expr_at(ts, i), 1),
{
    lemma_level_sound(ts, i, 1);
}

/// What the grammar finds at `i` as an initial value is well formed and
/// spells the tokens from `i` to its end.
pub proof fn lemma_init_sound(ts: Seq<Token>, i: int, konst: bool)
    ensures
        init_at(ts, i, konst) matches Some((v, j)) ==> 0 <= i < j <= ts.len() && init_ok(v, konst)
            && ts.subrange(i, j) == init_tokens(v),
    decreases ts.len() - i, 0int,
{
    if peek(ts, i) == Some(Token::LBrace) {
        if peek(ts, i + 1) == Some(Token::RBrace) {
            reveal_with_fuel(init_tokens, 2);
            reveal_with_fuel(init_ok, 2);
            assert(ts.subrange(i, i + 2) =~= seq![Token::LBrace] + Seq::<Token>::empty()
                + seq![Token::RBrace]);
        } else {
            lemma_inits_sound(ts, i + 1, konst);
            if let Some((l, j)) = inits_at(ts, i + 1, konst) {
                if peek(ts, j) == Some(Token::RBrace) {
                    assert(ts.subrange(i, j + 1) =~= seq![Token::LBrace] + ts.subrange(i + 1, j)
                        + seq![Token::RBrace]);
                }
            }
        }
    } else {
        lemma_expr_sound(ts, i);
    }
}

/// What the grammar finds at `i` as initial values parted by commas are
/// well formed and spell the tokens from `i` to their end.
pub proof fn lemma_inits_sound(ts: Seq<Token>, i: int, konst: bool)
    ensures
        inits_at(ts, i, konst) matches Some((l, j)) ==> 0 <= i < j <= ts.len() && inits_ok(
            l,
            konst,
        ) && !(l is Nil) && ts.subrange(i, j) == inits_tokens(l),
    decreases ts.len() - i, 1int,
{
    lemma_init_sound(ts, i, konst);
    if let Some((v, j)) = init_at(ts, i, konst) {
        if peek(ts, j) == Some(Token::Comma) {
            lemma_inits_sound(ts, j + 1, konst);
            if let Some((rest, k)) = inits_at(ts, j + 1, konst) {
                assert(ts.subrange(i, k) =~= ts.subrange(i, j) + seq![Token::Comma]
                    + ts.subrange(j + 1, k));
            }
        } else {
            reveal_with_fuel(inits_tokens, 2);
            reveal_with_fuel(inits_ok, 2);
        }
    }
}

/// What the grammar finds at `i` as a definition is well formed and spells
/// the tokens from `i` to its end.
pub proof fn lemma_def_sound(ts: Seq<Token>, i: int, konst: bool)
    ensures
        def_at(ts, i, konst) matches Some((d, j)) ==> 0 <= i < j <= ts.len() && def_ok(d, konst)
            && ts.subrange(i, j) == def_tokens(d),
{
    if peek(ts, i) == Some(Token::Ident) {
        lemma_brackets_sound(ts, i + 1, Role::Dimension);
        if let Some((dims, j)) = brackets_at(ts, i + 1, Role::Dimension) {
            if peek(ts, j) == Some(Token::Assign) {
                lemma_init_sound(ts, j + 1, konst);
                if let Some((v, k)) = init_at(ts, j + 1, konst) {
                    assert(ts.subrange(i, k) =~= seq![Token::Ident] + ts.subrange(i + 1, j) + (
                    seq![Token::Assign] + ts.subrange(j + 1, k)));
                }
            } else {
                assert(ts.subrange(i, j) =~= seq![Token::Ident] + ts.subrange(i + 1, j)
                    + Seq::<Token>::empty());
            }
        }
    }
}

/// What the grammar finds at `i` as definitions parted by commas are well
/// formed and spell the tokens from `i` to their end.
pub proof fn lemma_defs_sound(ts: Seq<Token>, i: int, konst: bool)
    ensures
        defs_at(ts, i, konst) matches Some((l, j)) ==> 0 <= i < j <= ts.len() && defs_ok(l, konst)
            && !(l is Nil) && ts.subrange(i, j) == defs_tokens(l),
    decreases ts.len() - i,
{
    lemma_def_sound(ts, i, konst);
    if let Some((d, j)) = def_at(ts, i, konst) {
        if peek(ts, j) == Some(Token::Comma) {
            lemma_defs_sound(ts, j + 1, konst);
            if let Some((rest, k)) = defs_at(ts, j + 1, konst) {
                assert(ts.subrange(i, k) =~= ts.subrange(i, j) + seq![Token::Comma]
                    + ts.subrange(j + 1, k));
            }
        } else {
            reveal_with_fuel(defs_tokens, 2);
            reveal_with_fuel(defs_ok, 2);
        }
    }
}

/// What the grammar finds at `i` as a declaration is well formed and spells
/// the tokens from `i` to its end.
pub proof fn lemma_decl_sound(ts: Seq<Token>, i: int)
    ensures
        decl_at(ts, i) matches Some((d, j)) ==> 0 <= i < j <= ts.len() && decl_ok(d)
            && ts.subrange(i, j) == decl_tokens(d),
{
    let konst = peek(ts, i) == Some(Token::Const);
    let start = if konst {
        i + 1
    } else {
        i
    };
    if peek(ts, start) == Some(Token::Int) {
        lemma_defs_sound(ts, start + 1, konst);
        if let Some((defs, j)) = defs_at(ts, start + 1, konst) {
            if peek(ts, j) == Some(Token::Semicolon) {
                if konst {
                    assert(ts.subrange(i, j + 1) =~= seq![Token::Const, Token::Int]
                        + ts.subrange(start + 1, j) + seq![Token::Semicolon]);
                } else {
                    assert(ts.subrange(i, j + 1) =~= seq![Token::Int] + ts.subrange(start + 1, j)
                        + seq![Token::Semicolon]);
                }
            }
        }
    }
}

/// What the grammar finds at `i` as a parameter is well formed and spells
/// the tokens from `i` to its end.
pub proof fn lemma_param_sound(ts: Seq<Token>, i: int)
    ensures
        param_at(ts, i) matches Some((p, j)) ==> 0 <= i < j <= ts.len() && param_ok(p)
            && ts.subrange(i, j) == param_tokens(p),
{
    if peek(ts, i) == Some(Token::Int) && peek(ts, i + 1) == Some(Token::Ident) {
        if peek(ts, i + 2) == Some(Token::LBracket) {
            if peek(ts, i + 3) == Some(Token::RBracket) {
                lemma_brackets_sound(ts, i + 4, Role::Extent);
                if let Some((l, j)) = brackets_at(ts, i + 4, Role::Extent) {
                    assert(ts.subrange(i, j) =~= seq![Token::Int, Token::Ident] + (
                    seq![Token::LBracket, Token::RBracket] + ts.subrange(i + 4, j)));
                }
            }
        } else {
            assert(ts.subrange(i, i + 2) =~= seq![Token::Int, Token::Ident]
                + Seq::<Token>::empty());
        }
    }
}

/// What the grammar finds at `i` as parameters parted by commas are well
/// formed and spell the tokens from `i` to their end.
pub proof fn lemma_params_sound(ts: Seq<Token>, i: int)
    ensures
        params_at(ts, i) matches Some((l, j)) ==> 0 <= i < j <= ts.len() && params_ok(l) && !(l
            is Nil) && ts.subrange(i, j) == params_tokens(l),
    decreases ts.len() - i,
{
    lemma_param_sound(ts, i);
    if let Some((p, j)) = param_at(ts, i) {
        if peek(ts, j) == Some(Token::Comma) {
            lemma_params_sound(ts, j + 1);
            if let Some((rest, k)) = params_at(ts, j + 1) {
                assert(ts.subrange(i, k) =~= ts.subrange(i, j) + seq![Token::Comma]
                    + ts.subrange(j + 1, k));
            }
        } else {
            reveal_with_fuel(params_tokens, 2);
            reveal_with_fuel(params_ok, 2);
        }
    }
}

/// What is owed of the statement found from `i`: it is well formed and
/// spells the tokens from `i` to its end; and where it ends in an `if`
/// without `else`, no `else` follows it.
pub open spec fn sound_stmt(ts: Seq<Token>, i: int) -> bool {
    stmt_at(ts, i) matches Some((s, j)) ==> 0 <= i < j <= ts.len() && stmt_ok(s) && ts.subrange(
        i,
        j,
    ) == stmt_tokens(s) && (dangles(s) ==> peek(ts, j) != Some(Token::Else))
}

/// What the grammar finds at `i` as an `if` without `else` is well formed
/// and spells the tokens from `i` to its end.
proof fn lemma_if_sound(ts: Seq<Token>, i: int)
    requires
        peek(ts, i) == Some(Token::If),
    ensures
        sound_stmt(ts, i),
    decreases ts.len() - i, 0int,
{
    if peek(ts, i + 1) == Some(Token::LParen) {
        lemma_expr_sound(ts, i + 2);
        if let Some((cond, j)) = expr_at(ts, i + 2) {
            if peek(ts, j) == Some(Token::RParen) {
                lemma_stmt_sound(ts, j + 1);
                if let Some((then, k)) = stmt_at(ts, j + 1) {
                    if peek(ts, k) == Some(Token::Else) {
                        lemma_stmt_sound(ts, k + 1);
                        if let Some((other, m)) = stmt_at(ts, k + 1) {
                            assert(ts.subrange(i, m) =~= seq![Token::If, Token::LParen]
                                + ts.subrange(i + 2, j) + seq![Token::RParen] + ts.subrange(
                                j + 1,
                                k,
                            ) + seq![Token::Else] + ts.subrange(k + 1, m));
                        }
                    } else {
                        assert(ts.subrange(i, k) =~= seq![Token::If, Token::LParen]
                            + ts.subrange(i + 2, j) + seq![Token::RParen] + ts.subrange(j + 1, k));
                    }
                }
            }
        }
    }
}

/// What the grammar finds at `i` as a `while` statement is well formed and
/// spells the tokens from `i` to its end.
proof fn lemma_while_sound(ts: Seq<Token>, i: int)
    requires
        peek(ts, i) == Some(Token::While),
    ensures
        sound_stmt(ts, i),
    decreases ts.len() - i, 0int,
{
    if peek(ts, i + 1) == Some(Token::LParen) {
        lemma_expr_sound(ts, i + 2);
        if let Some((cond, j)) = expr_at(ts, i + 2) {
            if peek(ts, j) == Some(Token::RParen) {
                lemma_stmt_sound(ts, j + 1);
                if let Some((body, k)) = stmt_at(ts, j + 1) {
                    assert(ts.subrange(i, k) =~= seq![Token::While, Token::LParen] + ts.subrange(
                        i + 2,
                        j,
                    ) + seq![Token::RParen] + ts.subrange(j + 1, k));
                }
            }
        }
    }
}

/// What the grammar finds at `i` as a `break`, `continue` or `return`
/// statement is well formed and spells the tokens from `i` to its end.
proof fn lemma_jump_sound(ts: Seq<Token>, i: int)
    requires
        peek(ts, i) == Some(Token::Break) || peek(ts, i) == Some(Token::Continue) || peek(ts, i)
            == Some(Token::Return) || peek(ts, i) == Some(Token::Semicolon),
    ensures
        sound_stmt(ts, i),
{
    match peek(ts, i) {
        Some(Token::Semicolon) => {
            assert(ts.subrange(i, i + 1) =~= Seq::<Token>::empty() + seq![Token::Semicolon]);
        },
        Some(Token::Break) => {
            if peek(ts, i + 1) == Some(Token::Semicolon) {
                assert(ts.subrange(i, i + 2) =~= seq![Token::Break, Token::Semicolon]);
            }
        },
        Some(Token::Continue) => {
            if peek(ts, i + 1) == Some(Token::Semicolon) {
                assert(ts.subrange(i, i + 2) =~= seq![Token::Continue, Token::Semicolon]);
            }
        },
        _ => {
            if peek(ts, i + 1) == Some(Token::Semicolon) {
                assert(ts.subrange(i, i + 2) =~= seq![Token::Return] + Seq::<Token>::empty()
                    + seq![Token::Semicolon]);
            } else {
                lemma_expr_sound(ts, i + 1);
                if let Some((e, j)) = expr_at(ts, i + 1) {
                    if peek(ts, j) == Some(Token::Semicolon) {
                        assert(ts.subrange(i, j + 1) =~= seq![Token::Return] + ts.subrange(
                            i + 1,
                            j,
                        ) + seq![Token::Semicolon]);
                    }
                }
            }
        },
    }
}

/// The statement that starts with the token at `i` starts with an
/// expression, if it is a statement at all.
pub open spec fn opens_plainly(ts: Seq<Token>, i: int) -> bool {
    match peek(ts, i) {
        Some(Token::Semicolon)
        | Some(Token::LBrace)
        | Some(Token::If)
        | Some(Token::While)
        | Some(Token::Break)
        | Some(Token::Continue)
        | Some(Token::Return) => false,
        _ => true,
    }
}

/// What the grammar finds at `i` as an assignment or an expression
/// statement is well formed and spells the tokens from `i` to its end.
proof fn lemma_plain_sound(ts: Seq<Token>, i: int)
    requires
        opens_plainly(ts, i),
    ensures
        sound_stmt(ts, i),
{
    lemma_expr_sound(ts, i);
    if let Some((e, j)) = expr_at(ts, i) {
        if peek(ts, j) == Some(Token::Semicolon) {
            assert(ts.subrange(i, j + 1) =~= ts.subrange(i, j) + seq![Token::Semicolon]);
        } else if peek(ts, j) == Some(Token::Assign) && e is LVal {
            lemma_expr_sound(ts, j + 1);
            if let Some((value, k)) = expr_at(ts, j + 1) {
                if peek(ts, k) == Some(Token::Semicolon) {
                    assert(ts.subrange(i, k + 1) =~= ts.subrange(i, j) + seq![Token::Assign]
                        + ts.subrange(j + 1, k) + seq![Token::Semicolon]);
                }
            }
        }
    }
}

/// The statement found from `i` is well formed and spells the tokens from
/// `i` to its end; and where it ends in an `if` without `else`, no `else`
/// follows it.
pub proof fn lemma_stmt_sound(ts: Seq<Token>, i: int)
    ensures
        sound_stmt(ts, i),
    decreases ts.len() - i, 1int,
{
    match peek(ts, i) {
        Some(Token::LBrace) => {
            lemma_block_sound(ts, i + 1);
            if let Some((items, j)) = block_at(ts, i + 1) {
                if peek(ts, j) == Some(Token::RBrace) {
                    assert(ts.subrange(i, j + 1) =~= seq![Token::LBrace] + ts.subrange(i + 1, j)
                        + seq![Token::RBrace]);
                }
            }
        },
        Some(Token::If) => {
            lemma_if_sound(ts, i);
        },
        Some(Token::While) => {
            lemma_while_sound(ts, i);
        },
        Some(Token::Semicolon) | Some(Token::Break) | Some(Token::Continue) | Some(
            Token::Return,
        ) => {
            lemma_jump_sound(ts, i);
        },
        _ => {
            lemma_plain_sound(ts, i);
        },
    }
}

/// What the grammar finds at `i` as an item of a block is well formed and
/// spells the tokens from `i` to its end.
pub proof fn lemma_block_item_sound(ts: Seq<Token>, i: int)
    ensures
        block_item_at(ts, i) matches Some((it, j)) ==> 0 <= i < j <= ts.len() && block_item_ok(it)
            && ts.subrange(i, j) == block_item_tokens(it),
    decreases ts.len() - i, 2int,
{
    if peek(ts, i) == Some(Token::Const) || peek(ts, i) == Some(Token::Int) {
        lemma_decl_sound(ts, i);
    } else {
        lemma_stmt_sound(ts, i);
    }
}

/// The items found from `i` stop before a `}`.
pub proof fn lemma_block_sound(ts: Seq<Token>, i: int)
    requires
        0 <= i <= ts.len(),
    ensures
        block_at(ts, i) matches Some((l, j)) ==> i <= j <= ts.len() && block_ok(l) && ts.subrange(
            i,
            j,
        ) == block_tokens(l) && peek(ts, j) == Some(Token::RBrace),
    decreases ts.len() - i, 3int,
{
    if peek(ts, i) == Some(Token::RBrace) {
        assert(ts.subrange(i, i) =~= Seq::<Token>::empty());
    } else {
        lemma_block_item_sound(ts, i);
        if let Some((it, j)) = block_item_at(ts, i) {
            lemma_block_sound(ts, j);
            if let Some((rest, k)) = block_at(ts, j) {
                assert(ts.subrange(i, k) =~= ts.subrange(i, j) + ts.subrange(j, k));
            }
        }
    }
}

/// What the grammar finds at `i` as the definition of a function is well
/// formed and spells the tokens from `i` to its end.
pub proof fn lemma_func_sound(ts: Seq<Token>, i: int)
    ensures
        func_at(ts, i) matches Some((f, j)) ==> 0 <= i < j <= ts.len() && func_ok(f)
            && ts.subrange(i, j) == func_tokens(f),
{
    let returns_int = peek(ts, i) == Some(Token::Int);
    if (returns_int || peek(ts, i) == Some(Token::Void)) && peek(ts, i + 1) == Some(Token::Ident)
        && peek(ts, i + 2) == Some(Token::LParen) {
        if peek(ts, i + 3) != Some(Token::RParen) {
            lemma_params_sound(ts, i + 3);
        }
        let head = if peek(ts, i + 3) == Some(Token::RParen) {
            Some((Params::Nil, i + 3))
        } else {
            params_at(ts, i + 3)
        };
        if let Some((params, j)) = head {
            assert(ts.subrange(i + 3, j) =~= params_tokens(params));
            if peek(ts, j) == Some(Token::RParen) && peek(ts, j + 1) == Some(Token::LBrace) {
                lemma_block_sound(ts, j + 2);
                if let Some((body, k)) = block_at(ts, j + 2) {
                    if peek(ts, k) == Some(Token::RBrace) {
                        assert(ts.subrange(i, k + 1) =~= seq![ts[i], Token::Ident, Token::LParen]
                            + ts.subrange(i + 3, j) + seq![Token::RParen, Token::LBrace]
                            + ts.subrange(j + 2, k) + seq![Token::RBrace]);
                    }
                }
            }
        }
    }
}

/// What the grammar finds at `i` as a top-level item is well formed and
/// spells the tokens from `i` to its end.
pub proof fn lemma_item_sound(ts: Seq<Token>, i: int)
    ensures
        item_at(ts, i) matches Some((it, j)) ==> 0 <= i < j <= ts.len() && item_ok(it)
            && ts.subrange(i, j) == item_tokens(it),
{
    lemma_func_sound(ts, i);
    lemma_decl_sound(ts, i);
}

/// What the grammar finds at `i` as top-level items in a row are well
/// formed and spell the tokens from `i` to their end.
pub proof fn lemma_items_sound(ts: Seq<Token>, i: int)
    ensures
        items_at(ts, i) matches Some((l, j)) ==> 0 <= i < j == ts.len() && items_ok(l) && !(l
            is Nil) && ts.subrange(i, j) == items_tokens(l),
    decreases ts.len() - i,
{
    lemma_item_sound(ts, i);
    if let Some((it, j)) = item_at(ts, i) {
        if j >= ts.len() {
            reveal_with_fuel(items_tokens, 2);
            reveal_with_fuel(items_ok, 2);
            assert(ts.subrange(i, j) =~= ts.subrange(i, j) + Seq::<Token>::empty());
        } else {
            lemma_items_sound(ts, j);
            if let Some((rest, k)) = items_at(ts, j) {
                assert(ts.subrange(i, k) =~= ts.subrange(i, j) + ts.subrange(j, k));
            }
        }
    }
}

/// The program that the grammar reads out of the tokens is well formed and
/// spells exactly those tokens.
pub proof fn lemma_unit_sound(ts: Seq<Token>)
    ensures
        unit_of(ts) matches Some(unit) ==> unit.well_formed() && unit.tokens() == ts,
{
    lemma_items_sound(ts, 0);
    if let Some((items, j)) = items_at(ts, 0) {
        assert(ts.subrange(0, j) =~= ts);
    }
}

/// The counter is one that an expression can hit: a lexical counter, or
/// the counter of a kind of expression.
pub open spec fn of_expressions(c: Counter) -> bool {
    match c {
        Counter::Ids
        | Counter::Decimals
        | Counter::Octals
        | Counter::Hexadecimals
        | Counter::UnaryOps
        | Counter::BinaryOps
        | Counter::ArrayAccesses
        | Counter::ParenExprs
        | Counter::FuncCalls
        | Counter::UnaryExprs
        | Counter::MulExprs
        | Counter::AddExprs
        | Counter::RelExprs
        | Counter::EqExprs
        | Counter::LandExprs
        | Counter::LorExprs => true,
        _ => false,
    }
}

/// A well-formed expression hits no counter but those of expressions.
pub proof fn lemma_expr_hits(e: Expr, lvl: int, c: Counter)
    requires
        expr_fits(e, lvl),
        !of_expressions(c),
    ensures
        expr_hits(e, c) == 0,
    decreases e,
{
    match e {
        Expr::Number(_) => {},
        Expr::LVal(subs) => {
            lemma_brackets_hits(subs, Role::Subscript, c);
        },
        Expr::Call(args) => {
            lemma_args_hits(args, c);
        },
        Expr::Paren(inner) => {
            lemma_expr_hits(*inner, 1, c);
        },
        Expr::Unary(_, inner) => {
            lemma_expr_hits(*inner, UNARY_LEVEL as int, c);
        },
        Expr::Chain(first, tail) => {
            match tail {
                Tail::Nil => {},
                Tail::Cons(op, _, _) => {
                    lemma_expr_hits(*first, op.level() + 1, c);
                    lemma_tail_hits(tail, op.level(), c);
                },
            }
        },
    }
}

/// Well-formed bracketed expressions hit no counter but those of
/// expressions and that of their role.
pub proof fn lemma_brackets_hits(l: Brackets, role: Role, c: Counter)
    requires
        brackets_ok(l, role),
        !of_expressions(c),
        role.hits(c) == 0,
    ensures
        brackets_hits(l, c) == 0,
    decreases l,
{
    match l {
        Brackets::Nil => {},
        Brackets::Cons(_, e, rest) => {
            lemma_expr_hits(*e, 1, c);
            lemma_brackets_hits(*rest, role, c);
        },
    }
}

/// Well-formed expressions parted by commas hit no counter but those of
/// expressions.
pub proof fn lemma_args_hits(l: Args, c: Counter)
    requires
        args_ok(l),
        !of_expressions(c),
    ensures
        args_hits(l, c) == 0,
    decreases l,
{
    match l {
        Args::Nil => {},
        Args::Cons(e, rest) => {
            lemma_expr_hits(*e, 1, c);
            lemma_args_hits(*rest, c);
        },
    }
}

/// A well-formed row of binary operators with their operands hits no
/// counter but those of expressions.
pub proof fn lemma_tail_hits(l: Tail, lvl: int, c: Counter)
    requires
        tail_ok(l, lvl),
        !of_expressions(c),
    ensures
        tail_hits(l, c) == 0,
    decreases l,
{
    match l {
        Tail::Nil => {},
        Tail::Cons(_, e, rest) => {
            lemma_expr_hits(*e, lvl + 1, c);
            lemma_tail_hits(*rest, lvl, c);
        },
    }
}

} // verus!
