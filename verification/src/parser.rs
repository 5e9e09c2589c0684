//! The recognizer: one pass over the tokens that counts what it matches.

use crate::grammar::{
    args_at, block_at, block_item_at, brackets_at, decl_at, def_at, defs_at, expr_at, func_at,
    init_at, inits_at, item_at, items_at, level_at, param_at, params_at, primary_at, stmt_at,
    tail_at, unary_at, unit_of,
};
use crate::lexer::{lex, tokenize};
use crate::completeness::lemma_unit_complete;
use crate::soundness::{lemma_expr_hits, lemma_expr_sound, lemma_unit_sound};
use crate::statistics::{larger, Counter, Statistics};
use crate::syntax::{
    args_hits, defs_hits, expr_hits, init_hits, inits_hits, items_hits, items_widest, params_hits,
    params_len, BlockItem, CompUnit, Decl, Expr, Node, Role,
};
use crate::token::{peek, Token, UNARY_LEVEL};
use vstd::prelude::*;
use vstd::string::StringSliceAdditionalSpecFns;
use vstd::utf8::encode_utf8;

verus! {

/// The statistics `after` are the statistics `before` and what the tree
/// `node` adds to them.
pub open spec fn counted<N: Node>(node: N, before: Statistics, after: Statistics) -> bool {
    &&& forall|c: Counter| #[trigger] after.get(c) == before.get(c) + node.hits(c)
    &&& after.widest() == larger(before.widest(), node.widest())
}

/// No counter of `after` is more than `n` above its value in `before`.
pub open spec fn grew(before: Statistics, after: Statistics, n: int) -> bool {
    forall|c: Counter| #[trigger] after.get(c) <= before.get(c) + n
}

/// What a recognizing function owes: where the grammar finds a tree at
/// `pos`, the position at which the tree ends, and statistics that have
/// taken the tree in, no counter having grown by more than the tokens
/// read; where it finds none, `None`.
pub open spec fn recorded<N: Node>(
    found: Option<(N, int)>,
    r: Option<usize>,
    before: Statistics,
    after: Statistics,
    pos: int,
    len: int,
) -> bool {
    match found {
        Some((node, end)) => r == Some(end as usize) && pos <= end <= len && counted(
            node,
            before,
            after,
        ) && grew(before, after, end - pos),
        None => r is None,
    }
}

/// As [`recorded`], for an expression: the result also tells whether the
/// expression is a name with its subscripts, which alone can be assigned
/// to.
pub open spec fn recorded_expr(
    found: Option<(Expr, int)>,
    r: Option<(usize, bool)>,
    before: Statistics,
    after: Statistics,
    pos: int,
    len: int,
) -> bool {
    match found {
        Some((e, end)) => r == Some((end as usize, e is LVal)) && pos < end <= len && counted(
            e,
            before,
            after,
        ) && grew(before, after, end - pos),
        None => r is None,
    }
}

/// In a repetition: what is still to be read from here decides what the
/// whole repetition is, and the counts are as far as the reading is.
pub open spec fn carries<N: Node>(
    whole: Option<(N, int)>,
    rest: Option<(N, int)>,
    base: Statistics,
    now: Statistics,
) -> bool {
    match rest {
        Some((r, end)) => match whole {
            Some((w, e)) => e == end && (forall|c: Counter| #[trigger]
                now.get(c) + r.hits(c) == base.get(c) + w.hits(c)) && larger(
                now.widest(),
                r.widest(),
            ) == larger(base.widest(), w.widest()),
            None => false,
        },
        None => whole is None,
    }
}

/// The position is within the tokens, and every counter can take as many
/// increments as there are tokens left.
pub open spec fn ready(ts: Seq<Token>, pos: int, stats: Statistics) -> bool {
    0 <= pos <= ts.len() <= usize::MAX && stats.has_room(ts.len() - pos)
}

/// Tells whether the token at position `i` is `t`.
pub(crate) fn at(ts: &[Token], i: usize, t: Token) -> (r: bool)
    ensures
        r == (peek(ts@, i as int) == Some(t)),
{
    i < ts.len() && ts[i] == t
}

/// Recognizes a primary expression.
pub(crate) fn parse_primary(ts: &[Token], pos: usize, stats: &mut Statistics) -> (r: Option<
    (usize, bool),
>)
    requires
        ready(ts@, pos as int, *old(stats)),
    ensures
        recorded_expr(
            primary_at(ts@, pos as int),
            r,
            *old(stats),
            *final(stats),
            pos as int,
            ts@.len() as int,
        ),
    decreases ts@.len() - pos, 0int,
{
    if pos >= ts.len() {
        return None;
    }
    let t = ts[pos];
    match t {
        Token::LParen => {
            stats.bump(Counter::ParenExprs);
            match parse_level(ts, pos + 1, 1, stats) {
                Some((j, _)) => {
                    if at(ts, j, Token::RParen) {
                        return Some((j + 1, false));
                    } else {
                        None
                    }
                },
                None => None,
            }
        },
        Token::Decimal | Token::Octal | Token::Hexadecimal => {
            stats.bump(t.base());
            return Some((pos + 1, false));
        },
        Token::Ident => {
            stats.bump(Counter::Ids);
            if at(ts, pos + 1, Token::LParen) {
                stats.bump(Counter::FuncCalls);
                if at(ts, pos + 2, Token::RParen) {
                    proof {
                        reveal_with_fuel(expr_hits, 2);
                    }
                    return Some((pos + 3, false));
                } else {
                    match parse_args(ts, pos + 2, stats) {
                        Some(j) => {
                            if at(ts, j, Token::RParen) {
                                return Some((j + 1, false));
                            } else {
                                None
                            }
                        },
                        None => None,
                    }
                }
            } else {
                match parse_brackets(ts, pos + 1, Role::Subscript, stats) {
                    Some(j) => { return Some((j, true)); },
                    None => None,
                }
            }
        },
        _ => None,
    }
}

/// Recognizes a unary expression.
pub(crate) fn parse_unary(ts: &[Token], pos: usize, stats: &mut Statistics) -> (r: Option<(usize, bool)>)
    requires
        ready(ts@, pos as int, *old(stats)),
    ensures
        recorded_expr(
            unary_at(ts@, pos as int),
            r,
            *old(stats),
            *final(stats),
            pos as int,
            ts@.len() as int,
        ),
    decreases ts@.len() - pos, 1int,
{
    if pos >= ts.len() {
        return None;
    }
    if ts[pos].prefix() {
        stats.bump(Counter::UnaryOps);
        stats.bump(Counter::UnaryExprs);
        match parse_unary(ts, pos + 1, stats) {
            Some((j, _)) => Some((j, false)),
            None => None,
        }
    } else {
        parse_primary(ts, pos, stats)
    }
}

/// Recognizes an expression of precedence level `lvl` or tighter.
pub(crate) fn parse_level(ts: &[Token], pos: usize, lvl: u8, stats: &mut Statistics) -> (r: Option<
    (usize, bool),
>)
    requires
        ready(ts@, pos as int, *old(stats)),
        1 <= lvl <= UNARY_LEVEL,
    ensures
        recorded_expr(
            level_at(ts@, pos as int, lvl as int),
            r,
            *old(stats),
            *final(stats),
            pos as int,
            ts@.len() as int,
        ),
    decreases ts@.len() - pos, 9 - lvl,
{
    if lvl >= UNARY_LEVEL {
        return parse_unary(ts, pos, stats);
    }
    let ghost before = *stats;
    let (start, first_lval) = match parse_level(ts, pos, lvl + 1, stats) {
        Some(x) => x,
        None => {
            return None;
        },
    };
    let ghost base = *stats;
    let ghost first = level_at(ts@, pos as int, lvl + 1).unwrap().0;
    let mut cur = start;
    let mut lval = first_lval;
    loop
        invariant
            pos < start <= cur <= ts@.len() <= usize::MAX,
            1 <= lvl < UNARY_LEVEL,
            before == *old(stats),
            level_at(ts@, pos as int, lvl + 1) == Some((first, start as int)),
            counted(first, before, base),
            first_lval == (first is LVal),
            before.has_room(ts@.len() - pos),
            grew(before, *stats, cur - pos),
            carries(tail_at(ts@, start as int, lvl as int), tail_at(ts@, cur as int, lvl as int), base, *stats),
            lval == (first_lval && cur == start),
            cur > start ==> (tail_at(ts@, start as int, lvl as int) matches Some((w, _)) ==> w is Cons),
        decreases ts@.len() - cur,
    {
        if cur < ts.len() && ts[cur].precedence() == lvl {
            let op = ts[cur];
            stats.bump(Counter::BinaryOps);
            stats.bump(op.kind());
            match parse_level(ts, cur + 1, lvl + 1, stats) {
                None => {
                    return None;
                },
                Some((k, _)) => {
                    cur = k;
                    lval = false;
                },
            }
        } else {
            return Some((cur, lval));
        }
    }
}

/// Recognizes bracketed expressions in a row, each counted by its role.
pub(crate) fn parse_brackets(ts: &[Token], pos: usize, role: Role, stats: &mut Statistics) -> (r:
    Option<usize>)
    requires
        ready(ts@, pos as int, *old(stats)),
    ensures
        recorded(
            brackets_at(ts@, pos as int, role),
            r,
            *old(stats),
            *final(stats),
            pos as int,
            ts@.len() as int,
        ),
    decreases ts@.len() - pos, 0int,
{
    let ghost before = *stats;
    let mut cur = pos;
    loop
        invariant
            pos <= cur <= ts@.len() <= usize::MAX,
            before == *old(stats),
            before.has_room(ts@.len() - pos),
            grew(before, *stats, cur - pos),
            carries(brackets_at(ts@, pos as int, role), brackets_at(ts@, cur as int, role), before, *stats),
        decreases ts@.len() - cur,
    {
        if !at(ts, cur, Token::LBracket) {
            return Some(cur);
        }
        match role.counter() {
            Some(k) => {
                stats.bump(k);
            },
            None => {},
        }
        match parse_level(ts, cur + 1, 1, stats) {
            None => {
                return None;
            },
            Some((j, _)) => {
                if !at(ts, j, Token::RBracket) {
                    return None;
                }
                cur = j + 1;
            },
        }
    }
}

/// Recognizes one or more expressions parted by commas.
pub(crate) fn parse_args(ts: &[Token], pos: usize, stats: &mut Statistics) -> (r: Option<usize>)
    requires
        ready(ts@, pos as int, *old(stats)),
    ensures
        recorded(
            args_at(ts@, pos as int),
            r,
            *old(stats),
            *final(stats),
            pos as int,
            ts@.len() as int,
        ),
    decreases ts@.len() - pos, 10int,
{
    let ghost before = *stats;
    let mut cur = pos;
    loop
        invariant
            pos <= cur <= ts@.len() <= usize::MAX,
            before == *old(stats),
            before.has_room(ts@.len() - pos),
            grew(before, *stats, cur - pos),
            carries(args_at(ts@, pos as int), args_at(ts@, cur as int), before, *stats),
        decreases ts@.len() - cur,
    {
        match parse_level(ts, cur, 1, stats) {
            None => {
                return None;
            },
            Some((j, _)) => {
                if at(ts, j, Token::Comma) {
                    cur = j + 1;
                } else {
                    proof {
                        reveal_with_fuel(args_hits, 2);
                    }
                    return Some(j);
                }
            },
        }
    }
}

/// Recognizes an expression.
pub(crate) fn parse_expr(ts: &[Token], pos: usize, stats: &mut Statistics) -> (r: Option<(usize, bool)>)
    requires
        ready(ts@, pos as int, *old(stats)),
    ensures
        recorded_expr(
            expr_at(ts@, pos as int),
            r,
            *old(stats),
            *final(stats),
            pos as int,
            ts@.len() as int,
        ),
{
    parse_level(ts, pos, 1, stats)
}

/// The token at position `i`, if there is one.
pub(crate) fn look(ts: &[Token], i: usize) -> (r: Option<Token>)
    ensures
        r == peek(ts@, i as int),
{
    if i < ts.len() {
        Some(ts[i])
    } else {
        None
    }
}

/// Recognizes an initial value, of a constant or of a variable.
pub(crate) fn parse_init(ts: &[Token], pos: usize, konst: bool, stats: &mut Statistics) -> (r: Option<
    usize,
>)
    requires
        ready(ts@, pos as int, *old(stats)),
    ensures
        recorded(
            init_at(ts@, pos as int, konst),
            r,
            *old(stats),
            *final(stats),
            pos as int,
            ts@.len() as int,
        ),
    decreases ts@.len() - pos, 0int,
{
    if at(ts, pos, Token::LBrace) {
        stats.bump(
            if konst {
                Counter::ConstInitLists
            } else {
                Counter::VarInitLists
            },
        );
        if at(ts, pos + 1, Token::RBrace) {
            proof {
                reveal_with_fuel(init_hits, 2);
            }
            return Some(pos + 2);
        }
        match parse_inits(ts, pos + 1, konst, stats) {
            Some(j) => {
                if at(ts, j, Token::RBrace) {
                    return Some(j + 1);
                }
                return None;
            },
            None => {
                return None;
            },
        }
    }
    match parse_expr(ts, pos, stats) {
        Some((j, _)) => {
            proof {
                lemma_expr_sound(ts@, pos as int);
                let e = expr_at(ts@, pos as int).unwrap().0;
                lemma_expr_hits(e, 1, Counter::ConstInitExprs);
                lemma_expr_hits(e, 1, Counter::ConstExprs);
                lemma_expr_hits(e, 1, Counter::VarInitExprs);
            }
            if konst {
                stats.bump(Counter::ConstInitExprs);
                stats.bump(Counter::ConstExprs);
            } else {
                stats.bump(Counter::VarInitExprs);
            }
            return Some(j);
        },
        None => {
            return None;
        },
    }
}

/// Recognizes one or more initial values parted by commas.
pub(crate) fn parse_inits(ts: &[Token], pos: usize, konst: bool, stats: &mut Statistics) -> (r: Option<
    usize,
>)
    requires
        ready(ts@, pos as int, *old(stats)),
    ensures
        recorded(
            inits_at(ts@, pos as int, konst),
            r,
            *old(stats),
            *final(stats),
            pos as int,
            ts@.len() as int,
        ),
    decreases ts@.len() - pos, 1int,
{
    let ghost before = *stats;
    let mut cur = pos;
    loop
        invariant
            pos <= cur <= ts@.len() <= usize::MAX,
            before == *old(stats),
            before.has_room(ts@.len() - pos),
            grew(before, *stats, cur - pos),
            carries(
                inits_at(ts@, pos as int, konst),
                inits_at(ts@, cur as int, konst),
                before,
                *stats,
            ),
        decreases ts@.len() - cur,
    {
        match parse_init(ts, cur, konst, stats) {
            None => {
                return None;
            },
            Some(j) => {
                if at(ts, j, Token::Comma) {
                    cur = j + 1;
                } else {
                    proof {
                        reveal_with_fuel(inits_hits, 2);
                    }
                    return Some(j);
                }
            },
        }
    }
}

/// Recognizes one definition of a declaration.
pub(crate) fn parse_def(ts: &[Token], pos: usize, konst: bool, stats: &mut Statistics) -> (r: Option<
    usize,
>)
    requires
        ready(ts@, pos as int, *old(stats)),
    ensures
        recorded(
            def_at(ts@, pos as int, konst),
            r,
            *old(stats),
            *final(stats),
            pos as int,
            ts@.len() as int,
        ),
{
    if !at(ts, pos, Token::Ident) {
        return None;
    }
    stats.bump(Counter::Ids);
    stats.bump(
        if konst {
            Counter::ConstDefs
        } else {
            Counter::VarDefs
        },
    );
    if at(ts, pos + 1, Token::LBracket) {
        stats.bump(
            if konst {
                Counter::ConstArrayDefs
            } else {
                Counter::VarArrayDefs
            },
        );
    }
    match parse_brackets(ts, pos + 1, Role::Dimension, stats) {
        None => None,
        Some(j) => {
            if at(ts, j, Token::Assign) {
                parse_init(ts, j + 1, konst, stats)
            } else if konst {
                None
            } else {
                Some(j)
            }
        },
    }
}

/// Recognizes one or more definitions parted by commas.
pub(crate) fn parse_defs(ts: &[Token], pos: usize, konst: bool, stats: &mut Statistics) -> (r: Option<
    usize,
>)
    requires
        ready(ts@, pos as int, *old(stats)),
    ensures
        recorded(
            defs_at(ts@, pos as int, konst),
            r,
            *old(stats),
            *final(stats),
            pos as int,
            ts@.len() as int,
        ),
{
    let ghost before = *stats;
    let mut cur = pos;
    loop
        invariant
            pos <= cur <= ts@.len() <= usize::MAX,
            before == *old(stats),
            before.has_room(ts@.len() - pos),
            grew(before, *stats, cur - pos),
            carries(
                defs_at(ts@, pos as int, konst),
                defs_at(ts@, cur as int, konst),
                before,
                *stats,
            ),
        decreases ts@.len() - cur,
    {
        match parse_def(ts, cur, konst, stats) {
            None => {
                return None;
            },
            Some(j) => {
                if at(ts, j, Token::Comma) {
                    cur = j + 1;
                } else {
                    proof {
                        reveal_with_fuel(defs_hits, 2);
                    }
                    return Some(j);
                }
            },
        }
    }
}

/// The declaration that starts at `i`, as an item of a block.
pub open spec fn local_decl_at(ts: Seq<Token>, i: int) -> Option<(BlockItem, int)> {
    match decl_at(ts, i) {
        Some((d, j)) => Some((BlockItem::Decl(d), j)),
        None => None,
    }
}

/// Recognizes a declaration. `local` tells whether it stands in a block,
/// where it counts as a local declaration too.
pub(crate) fn parse_decl(ts: &[Token], pos: usize, local: bool, stats: &mut Statistics) -> (r: Option<
    usize,
>)
    requires
        ready(ts@, pos as int, *old(stats)),
    ensures
        local ==> recorded(
            local_decl_at(ts@, pos as int),
            r,
            *old(stats),
            *final(stats),
            pos as int,
            ts@.len() as int,
        ),
        !local ==> recorded(
            decl_at(ts@, pos as int),
            r,
            *old(stats),
            *final(stats),
            pos as int,
            ts@.len() as int,
        ),
        r matches Some(end) ==> pos < end,
{
    let konst = at(ts, pos, Token::Const);
    let start = if konst {
        pos + 1
    } else {
        pos
    };
    if !at(ts, start, Token::Int) {
        return None;
    }
    stats.bump(
        if konst {
            Counter::ConstDecls
        } else {
            Counter::VarDecls
        },
    );
    if local {
        stats.bump(Counter::LocalDecls);
    }
    match parse_defs(ts, start + 1, konst, stats) {
        Some(j) => {
            if at(ts, j, Token::Semicolon) {
                Some(j + 1)
            } else {
                None
            }
        },
        None => None,
    }
}

/// Recognizes one parameter of a function.
pub(crate) fn parse_param(ts: &[Token], pos: usize, stats: &mut Statistics) -> (r: Option<usize>)
    requires
        ready(ts@, pos as int, *old(stats)),
    ensures
        recorded(
            param_at(ts@, pos as int),
            r,
            *old(stats),
            *final(stats),
            pos as int,
            ts@.len() as int,
        ),
        r matches Some(end) ==> pos < end,
{
    if !(at(ts, pos, Token::Int) && at(ts, pos + 1, Token::Ident)) {
        return None;
    }
    stats.bump(Counter::FuncParams);
    stats.bump(Counter::Ids);
    if at(ts, pos + 2, Token::LBracket) {
        if !at(ts, pos + 3, Token::RBracket) {
            return None;
        }
        stats.bump(Counter::FuncArrayParams);
        parse_brackets(ts, pos + 4, Role::Extent, stats)
    } else {
        Some(pos + 2)
    }
}

/// Recognizes one or more parameters parted by commas, and counts them.
pub(crate) fn parse_params(ts: &[Token], pos: usize, stats: &mut Statistics) -> (r: Option<
    (usize, usize),
>)
    requires
        ready(ts@, pos as int, *old(stats)),
    ensures
        recorded(
            params_at(ts@, pos as int),
            match r {
                Some((end, _)) => Some(end),
                None => None,
            },
            *old(stats),
            *final(stats),
            pos as int,
            ts@.len() as int,
        ),
        r matches Some((_, n)) ==> params_at(ts@, pos as int) matches Some((l, _)) && n
            == params_len(l),
{
    let ghost before = *stats;
    let mut cur = pos;
    let mut n: usize = 0;
    loop
        invariant
            pos <= cur <= ts@.len() <= usize::MAX,
            before == *old(stats),
            before.has_room(ts@.len() - pos),
            grew(before, *stats, cur - pos),
            carries(params_at(ts@, pos as int), params_at(ts@, cur as int), before, *stats),
            n <= cur - pos,
            params_at(ts@, cur as int) matches Some((rest, _)) ==> params_at(ts@, pos as int)
                matches Some((whole, _)) && params_len(whole) == n + params_len(rest),
        decreases ts@.len() - cur,
    {
        match parse_param(ts, cur, stats) {
            None => {
                return None;
            },
            Some(j) => {
                n = n + 1;
                if at(ts, j, Token::Comma) {
                    cur = j + 1;
                } else {
                    proof {
                        reveal_with_fuel(params_hits, 2);
                        reveal_with_fuel(params_len, 2);
                    }
                    return Some((j, n));
                }
            },
        }
    }
}

/// Recognizes a statement.
pub(crate) fn parse_stmt(ts: &[Token], pos: usize, stats: &mut Statistics) -> (r: Option<usize>)
    requires
        ready(ts@, pos as int, *old(stats)),
    ensures
        recorded(
            stmt_at(ts@, pos as int),
            r,
            *old(stats),
            *final(stats),
            pos as int,
            ts@.len() as int,
        ),
        r matches Some(end) ==> pos < end,
    decreases ts@.len() - pos, 0int,
{
    match look(ts, pos) {
        Some(Token::Semicolon) => {
            stats.bump(Counter::ExprStmts);
            return Some(pos + 1);
        },
        Some(Token::LBrace) => {
            stats.bump(Counter::BlockStmts);
            match parse_block(ts, pos + 1, stats) {
                Some(j) => {
                    if at(ts, j, Token::RBrace) {
                        return Some(j + 1);
                    }
                    return None;
                },
                None => {
                    return None;
                },
            }
        },
        Some(Token::If) => {
            if !at(ts, pos + 1, Token::LParen) {
                return None;
            }
            let j = match parse_expr(ts, pos + 2, stats) {
                Some((j, _)) => j,
                None => {
                    return None;
                },
            };
            if !at(ts, j, Token::RParen) {
                return None;
            }
            let k = match parse_stmt(ts, j + 1, stats) {
                Some(k) => k,
                None => {
                    return None;
                },
            };
            if at(ts, k, Token::Else) {
                stats.bump(Counter::IfElseStmts);
                return parse_stmt(ts, k + 1, stats);
            }
            stats.bump(Counter::IfStmts);
            return Some(k);
        },
        Some(Token::While) => {
            if !at(ts, pos + 1, Token::LParen) {
                return None;
            }
            stats.bump(Counter::WhileStmts);
            let j = match parse_expr(ts, pos + 2, stats) {
                Some((j, _)) => j,
                None => {
                    return None;
                },
            };
            if !at(ts, j, Token::RParen) {
                return None;
            }
            return parse_stmt(ts, j + 1, stats);
        },
        Some(Token::Break) => {
            if !at(ts, pos + 1, Token::Semicolon) {
                return None;
            }
            stats.bump(Counter::BreakStmts);
            return Some(pos + 2);
        },
        Some(Token::Continue) => {
            if !at(ts, pos + 1, Token::Semicolon) {
                return None;
            }
            stats.bump(Counter::ContinueStmts);
            return Some(pos + 2);
        },
        Some(Token::Return) => {
            stats.bump(Counter::ReturnStmts);
            if at(ts, pos + 1, Token::Semicolon) {
                return Some(pos + 2);
            }
            match parse_expr(ts, pos + 1, stats) {
                Some((j, _)) => {
                    if at(ts, j, Token::Semicolon) {
                        return Some(j + 1);
                    }
                    return None;
                },
                None => {
                    return None;
                },
            }
        },
        _ => {
            let (j, lval) = match parse_expr(ts, pos, stats) {
                Some(x) => x,
                None => {
                    return None;
                },
            };
            if at(ts, j, Token::Semicolon) {
                stats.bump(Counter::ExprStmts);
                return Some(j + 1);
            }
            if !(at(ts, j, Token::Assign) && lval) {
                return None;
            }
            stats.bump(Counter::AssignStmts);
            match parse_expr(ts, j + 1, stats) {
                Some((k, _)) => {
                    if at(ts, k, Token::Semicolon) {
                        return Some(k + 1);
                    }
                    return None;
                },
                None => {
                    return None;
                },
            }
        },
    }
}

/// Recognizes one item of a block.
pub(crate) fn parse_block_item(ts: &[Token], pos: usize, stats: &mut Statistics) -> (r: Option<usize>)
    requires
        ready(ts@, pos as int, *old(stats)),
    ensures
        recorded(
            block_item_at(ts@, pos as int),
            r,
            *old(stats),
            *final(stats),
            pos as int,
            ts@.len() as int,
        ),
        r matches Some(end) ==> pos < end,
    decreases ts@.len() - pos, 1int,
{
    if at(ts, pos, Token::Const) || at(ts, pos, Token::Int) {
        parse_decl(ts, pos, true, stats)
    } else {
        parse_stmt(ts, pos, stats)
    }
}

/// Recognizes the items of a block, up to the `}` that closes it.
pub(crate) fn parse_block(ts: &[Token], pos: usize, stats: &mut Statistics) -> (r: Option<usize>)
    requires
        ready(ts@, pos as int, *old(stats)),
    ensures
        recorded(
            block_at(ts@, pos as int),
            r,
            *old(stats),
            *final(stats),
            pos as int,
            ts@.len() as int,
        ),
    decreases ts@.len() - pos, 2int,
{
    let ghost before = *stats;
    let mut cur = pos;
    loop
        invariant
            pos <= cur <= ts@.len() <= usize::MAX,
            before == *old(stats),
            before.has_room(ts@.len() - pos),
            grew(before, *stats, cur - pos),
            carries(block_at(ts@, pos as int), block_at(ts@, cur as int), before, *stats),
        decreases ts@.len() - cur,
    {
        if at(ts, cur, Token::RBrace) {
            return Some(cur);
        }
        match parse_block_item(ts, cur, stats) {
            None => {
                return None;
            },
            Some(k) => {
                cur = k;
            },
        }
    }
}

/// Recognizes the definition of a function.
pub(crate) fn parse_func(ts: &[Token], pos: usize, stats: &mut Statistics) -> (r: Option<usize>)
    requires
        ready(ts@, pos as int, *old(stats)),
    ensures
        recorded(
            func_at(ts@, pos as int),
            r,
            *old(stats),
            *final(stats),
            pos as int,
            ts@.len() as int,
        ),
        r matches Some(end) ==> pos < end,
{
    let returns_int = at(ts, pos, Token::Int);
    if !((returns_int || at(ts, pos, Token::Void)) && at(ts, pos + 1, Token::Ident) && at(
        ts,
        pos + 2,
        Token::LParen,
    )) {
        return None;
    }
    stats.bump(
        if returns_int {
            Counter::IntFuncDefs
        } else {
            Counter::VoidFuncDefs
        },
    );
    stats.bump(Counter::Ids);
    let (j, n) = if at(ts, pos + 3, Token::RParen) {
        (pos + 3, 0)
    } else {
        match parse_params(ts, pos + 3, stats) {
            Some(x) => x,
            None => {
                return None;
            },
        }
    };
    if !(at(ts, j, Token::RParen) && at(ts, j + 1, Token::LBrace)) {
        return None;
    }
    stats.observe_params(n);
    match parse_block(ts, j + 2, stats) {
        Some(k) => {
            if at(ts, k, Token::RBrace) {
                Some(k + 1)
            } else {
                None
            }
        },
        None => None,
    }
}

/// Recognizes a top-level item.
pub(crate) fn parse_item(ts: &[Token], pos: usize, stats: &mut Statistics) -> (r: Option<usize>)
    requires
        ready(ts@, pos as int, *old(stats)),
    ensures
        recorded(
            item_at(ts@, pos as int),
            r,
            *old(stats),
            *final(stats),
            pos as int,
            ts@.len() as int,
        ),
        r matches Some(end) ==> pos < end,
{
    if at(ts, pos, Token::Void) || (at(ts, pos, Token::Int) && at(ts, pos + 1, Token::Ident)
        && at(ts, pos + 2, Token::LParen)) {
        parse_func(ts, pos, stats)
    } else {
        parse_decl(ts, pos, false, stats)
    }
}

/// Recognizes one or more top-level items, up to the end of the tokens.
pub(crate) fn parse_items(ts: &[Token], pos: usize, stats: &mut Statistics) -> (r: Option<usize>)
    requires
        ready(ts@, pos as int, *old(stats)),
    ensures
        recorded(
            items_at(ts@, pos as int),
            r,
            *old(stats),
            *final(stats),
            pos as int,
            ts@.len() as int,
        ),
{
    let ghost before = *stats;
    let mut cur = pos;
    loop
        invariant
            pos <= cur <= ts@.len() <= usize::MAX,
            before == *old(stats),
            before.has_room(ts@.len() - pos),
            grew(before, *stats, cur - pos),
            carries(items_at(ts@, pos as int), items_at(ts@, cur as int), before, *stats),
        decreases ts@.len() - cur,
    {
        match parse_item(ts, cur, stats) {
            None => {
                return None;
            },
            Some(k) => {
                if k >= ts.len() {
                    proof {
                        reveal_with_fuel(items_hits, 2);
                        reveal_with_fuel(items_widest, 2);
                    }
                    return Some(k);
                }
                cur = k;
            },
        }
    }
}

/// The statistics are the census of the program: every additive counter
/// holds the number of times the program hits it, and the running maximum
/// holds the largest number of parameters of any of its functions.
pub open spec fn census(stats: Statistics, unit: CompUnit) -> bool {
    &&& forall|c: Counter| #[trigger] stats.get(c) == unit.hits(c)
    &&& stats.widest() == unit.widest()
}

/// Recognizes a program in its tokens and adds its census to the
/// statistics that the caller holds; `false` where the tokens spell no
/// program, and the statistics are then of no use.
pub fn recognize_into(ts: &[Token], stats: &mut Statistics) -> (r: bool)
    requires
        old(stats).has_room(ts@.len() as int),
    ensures
        r ==> exists|unit: CompUnit|
            unit.well_formed() && #[trigger] unit.tokens() == ts@ && counted(
                unit,
                *old(stats),
                *final(stats),
            ),
        !r ==> forall|unit: CompUnit| !(unit.well_formed() && #[trigger] unit.tokens() == ts@),
        match unit_of(ts@) {
            Some(unit) => r && counted(unit, *old(stats), *final(stats)),
            None => !r,
        },
{
    proof {
        lemma_unit_sound(ts@);
        if unit_of(ts@) is None {
            assert forall|unit: CompUnit|
                !(unit.well_formed() && #[trigger] unit.tokens() == ts@) by {
                if unit.well_formed() && unit.tokens() == ts@ {
                    lemma_unit_complete(ts@, unit);
                }
            }
        }
    }
    if ts.len() == 0 {
        return false;
    }
    match parse_items(ts, 0, stats) {
        Some(_) => true,
        None => false,
    }
}

/// Recognizes a program in its tokens and takes its census; `None` where
/// the tokens spell no program.
pub fn recognize(ts: &[Token]) -> (r: Option<Statistics>)
    ensures
        match r {
            Some(stats) => exists|unit: CompUnit|
                unit.well_formed() && #[trigger] unit.tokens() == ts@ && census(stats, unit),
            None => forall|unit: CompUnit|
                !(unit.well_formed() && #[trigger] unit.tokens() == ts@),
        },
        match unit_of(ts@) {
            Some(unit) => r matches Some(stats) && census(stats, unit),
            None => r is None,
        },
{
    let mut stats = Statistics::new();
    proof {
        Statistics::lemma_zero();
        vstd::slice::axiom_spec_len(ts);
    }
    if recognize_into(ts, &mut stats) {
        Some(stats)
    } else {
        None
    }
}

/// Why a text could not be taken in.
#[derive(Clone, Copy, Debug, PartialEq, Eq, Structural)]
pub enum Error {
    /// The text is no program of the language.
    Parser,
}

/// The text spells the program: the program is well formed, and the bytes
/// of the text split into exactly the tokens of the program.
pub open spec fn spells(text: Seq<char>, unit: CompUnit) -> bool {
    unit.well_formed() && lex(encode_utf8(text)) == Some(unit.tokens())
}

/// The program that a text spells, as the grammar reads it from left to
/// right: the bytes are split into tokens, and the tokens are read.
pub open spec fn program_of(text: Seq<char>) -> Option<CompUnit> {
    match lex(encode_utf8(text)) {
        Some(ts) => unit_of(ts),
        None => None,
    }
}

/// Parses a program into statistics that the caller holds: on success
/// every counter has grown by what the program adds to it, and the running
/// maximum has taken in the functions of the program. On failure the text
/// is no program, and the statistics are of no use: what was counted
/// before the failure is in them.
///
/// Every counter must be able to take as many increments as the text has
/// bytes; counters that start at zero can.
pub fn parse_into(stats: &mut Statistics, program: &str) -> (r: Result<(), Error>)
    requires
        old(stats).has_room(encode_utf8(program@).len() as int),
    ensures
        match r {
            Ok(_) => exists|unit: CompUnit| #[trigger]
                spells(program@, unit) && counted(unit, *old(stats), *final(stats)),
            Err(e) => e == Error::Parser && forall|unit: CompUnit| !#[trigger] spells(
                program@,
                unit,
            ),
        },
        match program_of(program@) {
            Some(unit) => r is Ok && counted(unit, *old(stats), *final(stats)),
            None => r is Err,
        },
{
    match tokenize(program.as_bytes()) {
        Some(ts) => {
            let ghost before = *stats;
            if recognize_into(ts.as_slice(), stats) {
                proof {
                    let unit = choose|unit: CompUnit|
                        unit.well_formed() && #[trigger] unit.tokens() == ts@ && counted(
                            unit,
                            before,
                            *stats,
                        );
                    assert(spells(program@, unit));
                }
                Ok(())
            } else {
                assert forall|unit: CompUnit| !#[trigger] spells(program@, unit) by {
                    if spells(program@, unit) {
                        assert(unit.tokens() == ts@);
                    }
                }
                Err(Error::Parser)
            }
        },
        None => Err(Error::Parser),
    }
}

/// Parses a program and returns its statistics, or fails where the text is
/// no program.
///
/// The text is a program exactly where it spells a well-formed syntax
/// tree; the statistics are then the census of that tree. Trailing text
/// that belongs to no item, a byte that starts no token, and any other
/// departure from the grammar make the whole text fail.
pub fn parse(program: &str) -> (r: Result<Statistics, Error>)
    ensures
        match r {
            Ok(stats) => exists|unit: CompUnit| #[trigger]
                spells(program@, unit) && census(stats, unit),
            Err(e) => e == Error::Parser && forall|unit: CompUnit| !#[trigger] spells(
                program@,
                unit,
            ),
        },
        match program_of(program@) {
            Some(unit) => r matches Ok(stats) && census(stats, unit),
            None => r is Err,
        },
{
    match tokenize(program.as_bytes()) {
        Some(ts) => match recognize(ts.as_slice()) {
            Some(stats) => {
                proof {
                    let unit = choose|unit: CompUnit|
                        unit.well_formed() && #[trigger] unit.tokens() == ts@ && census(
                            stats,
                            unit,
                        );
                    assert(spells(program@, unit));
                }
                Ok(stats)
            },
            None => {
                assert forall|unit: CompUnit| !#[trigger] spells(program@, unit) by {
                    if spells(program@, unit) {
                        assert(unit.tokens() == ts@);
                    }
                }
                Err(Error::Parser)
            },
        },
        None => Err(Error::Parser),
    }
}

} // verus!
