//! Wherever the tokens spell a tree that the grammar admits, the grammar
//! finds that tree: reading from left to right loses nothing, and no other
//! tree spells the same tokens.

use crate::grammar::{
    args_at, block_at, block_item_at, brackets_at, decl_at, def_at, defs_at, expr_at, func_at,
    init_at, inits_at, item_at, items_at, level_at, param_at, params_at, primary_at, stmt_at,
    tail_at, unary_at, unit_of,
};
use crate::syntax::{
    args_ok, args_tokens, block_item_ok, block_item_tokens, block_ok, block_tokens, brackets_ok,
    brackets_tokens, dangles, decl_ok, decl_tokens, def_ok, def_tokens, defs_ok, defs_tokens,
    expr_fits, expr_tokens, func_ok, func_tokens, init_ok, init_tokens, inits_ok, inits_tokens,
    item_ok, item_tokens, items_ok, items_tokens, param_ok, param_tokens, params_ok,
    params_tokens, stmt_ok, stmt_tokens, tail_ok, tail_tokens, Args, BlockItem, BlockItems,
    Brackets, CompUnit, Decl, Def, Defs, Expr, FuncDef, InitVal, Inits, Item, Items, Param,
    Params, Role, Stmt, Tail,
};
use crate::token::{peek, Token, UNARY_LEVEL};
use vstd::assert_by_contradiction;
use vstd::prelude::*;

verus! {

/// The tokens from `i` to `k` are `a` followed by `b`: then `a` stands at
/// `i`, and `b` after it.
pub proof fn lemma_split(ts: Seq<Token>, i: int, k: int, a: Seq<Token>, b: Seq<Token>)
    requires
        0 <= i <= k <= ts.len(),
        ts.subrange(i, k) == a + b,
    ensures
        k == i + a.len() + b.len(),
        ts.subrange(i, i + a.len()) == a,
        ts.subrange(i + a.len(), k) == b,
{
    let s = ts.subrange(i, k);
    assert(s.len() == a.len() + b.len());
    assert forall|n: int| 0 <= n < a.len() implies ts.subrange(i, i + a.len())[n] == a[n] by {
        assert(s[n] == (a + b)[n]);
    }
    assert(ts.subrange(i, i + a.len()) =~= a);
    assert forall|n: int| 0 <= n < b.len() implies ts.subrange(i + a.len(), k)[n] == b[n] by {
        assert(s[a.len() + n] == (a + b)[a.len() + n]);
    }
    assert(ts.subrange(i + a.len(), k) =~= b);
}

/// The tokens from `i` to `k` are `t` followed by `b`: then `t` stands at
/// `i`, and `b` after it.
pub proof fn lemma_head(ts: Seq<Token>, i: int, k: int, t: Token, b: Seq<Token>)
    requires
        0 <= i <= k <= ts.len(),
        ts.subrange(i, k) == seq![t] + b,
    ensures
        i < k,
        peek(ts, i) == Some(t),
        ts.subrange(i + 1, k) == b,
{
    lemma_split(ts, i, k, seq![t], b);
    assert(ts.subrange(i, i + 1)[0] == t);
}

/// The tokens from `i` to `k` are `a` followed by `t`: then `t` stands
/// just before `k`, and `a` before it.
pub proof fn lemma_last(ts: Seq<Token>, i: int, k: int, a: Seq<Token>, t: Token)
    requires
        0 <= i <= k <= ts.len(),
        ts.subrange(i, k) == a + seq![t],
    ensures
        i < k,
        peek(ts, k - 1) == Some(t),
        ts.subrange(i, k - 1) == a,
{
    lemma_split(ts, i, k, a, seq![t]);
    assert(ts.subrange(k - 1, k)[0] == t);
}

/// The token can open an expression.
pub open spec fn opens_expr(t: Token) -> bool {
    t == Token::LParen || t == Token::Ident || t.is_number() || t.is_prefix()
}

/// What may follow an expression of level `lvl` for the expression to end
/// there: no `[`, no `(`, and no binary operator that the level takes in.
pub open spec fn ends_expr(next: Option<Token>, lvl: int) -> bool {
    match next {
        Some(t) => t != Token::LBracket && t != Token::LParen && t.level() < lvl,
        None => true,
    }
}

/// A well-formed expression spells at least one token, and its first token
/// can open an expression.
pub proof fn lemma_expr_first(e: Expr, lvl: int)
    requires
        expr_fits(e, lvl),
    ensures
        expr_tokens(e).len() > 0,
        opens_expr(expr_tokens(e)[0]),
    decreases e,
{
    match e {
        Expr::Chain(first, tail) => {
            match tail {
                Tail::Nil => {},
                Tail::Cons(op, _, _) => {
                    lemma_expr_first(*first, op.level() + 1);
                },
            }
        },
        _ => {},
    }
}

/// Where the tokens from `i` to `k` spell a well-formed primary expression,
/// and what follows lets it end there, the grammar finds it at `i`.
pub proof fn lemma_primary_complete(ts: Seq<Token>, i: int, k: int, e: Expr)
    requires
        expr_fits(e, UNARY_LEVEL as int),
        !(e is Unary),
        0 <= i <= k <= ts.len(),
        ts.subrange(i, k) == expr_tokens(e),
        ends_expr(peek(ts, k), UNARY_LEVEL as int),
    ensures
        primary_at(ts, i) == Some((e, k)),
    decreases e, 0int,
{
    match e {
        Expr::Number(t) => {
            lemma_head(ts, i, k, t, Seq::empty());
            assert(seq![t] + Seq::<Token>::empty() =~= seq![t]);
        },
        Expr::LVal(subs) => {
            lemma_head(ts, i, k, Token::Ident, brackets_tokens(subs));
            lemma_brackets_complete(ts, i + 1, k, subs, Role::Subscript);
        },
        Expr::Call(args) => {
            lemma_last(ts, i, k, seq![Token::Ident, Token::LParen] + args_tokens(args), Token::RParen);
            lemma_split(ts, i, k - 1, seq![Token::Ident, Token::LParen], args_tokens(args));
            assert(ts.subrange(i, i + 2)[0] == Token::Ident);
            assert(ts.subrange(i, i + 2)[1] == Token::LParen);
            match args {
                Args::Nil => {},
                Args::Cons(first, _) => {
                    lemma_args_complete(ts, i + 2, k - 1, args);
                    assert(ts.subrange(i + 2, k - 1)[0] == args_tokens(args)[0]);
                },
            }
        },
        Expr::Paren(inner) => {
            lemma_last(ts, i, k, seq![Token::LParen] + expr_tokens(*inner), Token::RParen);
            lemma_head(ts, i, k - 1, Token::LParen, expr_tokens(*inner));
            lemma_level_complete(ts, i + 1, k - 1, *inner, 1);
        },
        _ => {},
    }
}

/// Where the tokens from `i` to `k` spell a well-formed unary expression,
/// and what follows lets it end there, the grammar finds it at `i`.
pub proof fn lemma_unary_complete(ts: Seq<Token>, i: int, k: int, e: Expr)
    requires
        expr_fits(e, UNARY_LEVEL as int),
        0 <= i <= k <= ts.len(),
        ts.subrange(i, k) == expr_tokens(e),
        ends_expr(peek(ts, k), UNARY_LEVEL as int),
    ensures
        unary_at(ts, i) == Some((e, k)),
    decreases e, 1int,
{
    match e {
        Expr::Unary(op, inner) => {
            lemma_head(ts, i, k, op, expr_tokens(*inner));
            lemma_unary_complete(ts, i + 1, k, *inner);
        },
        _ => {
            lemma_expr_first(e, UNARY_LEVEL as int);
            assert(ts.subrange(i, k)[0] == ts[i]);
            lemma_primary_complete(ts, i, k, e);
        },
    }
}

/// Where the tokens from `i` to `k` spell an expression that fits the
/// level `lvl`, and the expression can end at `k`, the grammar finds that
/// expression at `i`.
pub proof fn lemma_level_complete(ts: Seq<Token>, i: int, k: int, e: Expr, lvl: int)
    requires
        1 <= lvl <= UNARY_LEVEL,
        expr_fits(e, lvl),
        0 <= i <= k <= ts.len(),
        ts.subrange(i, k) == expr_tokens(e),
        ends_expr(peek(ts, k), lvl),
    ensures
        level_at(ts, i, lvl) == Some((e, k)),
    decreases e, 9 - lvl,
{
    lemma_expr_first(e, lvl);
    if lvl >= UNARY_LEVEL {
        lemma_unary_complete(ts, i, k, e);
    } else {
        let here = match e {
            Expr::Chain(_, Tail::Cons(op, _, _)) => op.level() == lvl,
            _ => false,
        };
        if here {
            match e {
                Expr::Chain(first, tail) => {
                    lemma_split(ts, i, k, expr_tokens(*first), tail_tokens(tail));
                    let j = i + expr_tokens(*first).len();
                    lemma_expr_first(*first, lvl + 1);
                    match tail {
                        Tail::Cons(op, _, _) => {
                            assert(ts.subrange(j, k)[0] == op);
                        },
                        Tail::Nil => {},
                    }
                    lemma_level_complete(ts, i, j, *first, lvl + 1);
                    lemma_tail_complete(ts, j, k, tail, lvl);
                    assert(level_at(ts, i, lvl + 1) == Some((*first, j)));
                    assert(tail_at(ts, j, lvl) == Some((tail, k)));
                    assert(Expr::Chain(Box::new(*first), tail) == e);
                },
                _ => {},
            }
        } else {
            assert(expr_fits(e, lvl + 1));
            lemma_level_complete(ts, i, k, e, lvl + 1);
            assert(level_at(ts, i, lvl + 1) == Some((e, k)));
            assert(tail_at(ts, k, lvl) == Some((Tail::Nil, k)));
        }
    }
}

/// Where the tokens from `i` to `k` spell a well-formed row of binary
/// operators with their operands, and what follows lets it end there, the
/// grammar finds it at `i`.
pub proof fn lemma_tail_complete(ts: Seq<Token>, i: int, k: int, tail: Tail, lvl: int)
    requires
        1 <= lvl < UNARY_LEVEL,
        tail_ok(tail, lvl),
        0 <= i <= k <= ts.len(),
        ts.subrange(i, k) == tail_tokens(tail),
        ends_expr(peek(ts, k), lvl),
    ensures
        tail_at(ts, i, lvl) == Some((tail, k)),
    decreases tail, 0int,
{
    reveal_with_fuel(tail_ok, 2);
    match tail {
        Tail::Nil => {},
        Tail::Cons(op, e, rest) => {
            lemma_split(ts, i, k, seq![op] + expr_tokens(*e), tail_tokens(*rest));
            let j = k - tail_tokens(*rest).len();
            lemma_head(ts, i, j, op, expr_tokens(*e));
            lemma_expr_first(*e, lvl + 1);
            match *rest {
                Tail::Cons(next, _, _) => {
                    assert(ts.subrange(j, k)[0] == next);
                },
                Tail::Nil => {},
            }
            lemma_level_complete(ts, i + 1, j, *e, lvl + 1);
            lemma_tail_complete(ts, j, k, *rest, lvl);
        },
    }
}

/// Where the tokens from `i` to `k` spell well-formed bracketed expressions
/// in a row, and what follows lets them end there, the grammar finds them
/// at `i`.
pub proof fn lemma_brackets_complete(ts: Seq<Token>, i: int, k: int, l: Brackets, role: Role)
    requires
        brackets_ok(l, role),
        0 <= i <= k <= ts.len(),
        ts.subrange(i, k) == brackets_tokens(l),
        peek(ts, k) != Some(Token::LBracket),
    ensures
        brackets_at(ts, i, role) == Some((l, k)),
        l is Cons ==> peek(ts, i) == Some(Token::LBracket),
    decreases l, 0int,
{
    match l {
        Brackets::Nil => {},
        Brackets::Cons(_, e, rest) => {
            lemma_split(
                ts,
                i,
                k,
                seq![Token::LBracket] + expr_tokens(*e) + seq![Token::RBracket],
                brackets_tokens(*rest),
            );
            let j = k - brackets_tokens(*rest).len();
            lemma_last(ts, i, j, seq![Token::LBracket] + expr_tokens(*e), Token::RBracket);
            lemma_head(ts, i, j - 1, Token::LBracket, expr_tokens(*e));
            lemma_expr_first(*e, 1);
            lemma_level_complete(ts, i + 1, j - 1, *e, 1);
            lemma_brackets_complete(ts, j, k, *rest, role);
        },
    }
}

/// Where the tokens from `i` to `k` spell well-formed expressions parted by
/// commas, and what follows lets them end there, the grammar finds them at
/// `i`.
pub proof fn lemma_args_complete(ts: Seq<Token>, i: int, k: int, l: Args)
    requires
        args_ok(l),
        l is Cons,
        0 <= i <= k <= ts.len(),
        ts.subrange(i, k) == args_tokens(l),
        peek(ts, k) == Some(Token::RParen),
    ensures
        args_at(ts, i) == Some((l, k)),
        args_tokens(l).len() > 0,
        opens_expr(args_tokens(l)[0]),
    decreases l, 0int,
{
    match l {
        Args::Nil => {},
        Args::Cons(e, rest) => {
            lemma_expr_first(*e, 1);
            if *rest is Nil {
                lemma_level_complete(ts, i, k, *e, 1);
            } else {
                lemma_split(ts, i, k, expr_tokens(*e) + seq![Token::Comma], args_tokens(*rest));
                let j = k - args_tokens(*rest).len();
                lemma_last(ts, i, j, expr_tokens(*e), Token::Comma);
                lemma_level_complete(ts, i, j - 1, *e, 1);
                lemma_args_complete(ts, j, k, *rest);
            }
        },
    }
}

/// Where the tokens from `i` to `k` spell a well-formed expression that
/// can end at `k`, the grammar finds that expression at `i`.
pub proof fn lemma_expr_complete(ts: Seq<Token>, i: int, k: int, e: Expr)
    requires
        expr_fits(e, 1),
        0 <= i <= k <= ts.len(),
        ts.subrange(i, k) == expr_tokens(e),
        ends_expr(peek(ts, k), 1),
    ensures
        expr_at(ts, i) == Some((e, k)),
        i < k,
        opens_expr(ts[i]),
{
    lemma_expr_first(e, 1);
    lemma_level_complete(ts, i, k, e, 1);
    assert(ts.subrange(i, k)[0] == ts[i]);
}

/// The token can open an initial value.
pub open spec fn opens_init(t: Token) -> bool {
    opens_expr(t) || t == Token::LBrace
}

/// Where the tokens from `i` to `k` spell a well-formed initial value, and
/// what follows lets it end there, the grammar finds it at `i`.
pub proof fn lemma_init_complete(ts: Seq<Token>, i: int, k: int, v: InitVal, konst: bool)
    requires
        init_ok(v, konst),
        0 <= i <= k <= ts.len(),
        ts.subrange(i, k) == init_tokens(v),
        ends_expr(peek(ts, k), 1),
    ensures
        init_at(ts, i, konst) == Some((v, k)),
        i < k,
        opens_init(ts[i]),
    decreases v,
{
    match v {
        InitVal::Single(_, e) => {
            lemma_expr_complete(ts, i, k, e);
        },
        InitVal::Braces(_, l) => {
            lemma_last(ts, i, k, seq![Token::LBrace] + inits_tokens(l), Token::RBrace);
            lemma_head(ts, i, k - 1, Token::LBrace, inits_tokens(l));
            match l {
                Inits::Nil => {},
                Inits::Cons(_, _) => {
                    lemma_inits_complete(ts, i + 1, k - 1, l, konst);
                },
            }
        },
    }
}

/// Where the tokens from `i` to `k` spell well-formed initial values parted
/// by commas, and what follows lets them end there, the grammar finds them
/// at `i`.
pub proof fn lemma_inits_complete(ts: Seq<Token>, i: int, k: int, l: Inits, konst: bool)
    requires
        inits_ok(l, konst),
        l is Cons,
        0 <= i <= k <= ts.len(),
        ts.subrange(i, k) == inits_tokens(l),
        peek(ts, k) == Some(Token::RBrace),
    ensures
        inits_at(ts, i, konst) == Some((l, k)),
        i < k,
        opens_init(ts[i]),
    decreases l,
{
    match l {
        Inits::Nil => {},
        Inits::Cons(v, rest) => {
            if *rest is Nil {
                lemma_init_complete(ts, i, k, *v, konst);
            } else {
                lemma_split(ts, i, k, init_tokens(*v) + seq![Token::Comma], inits_tokens(*rest));
                let j = k - inits_tokens(*rest).len();
                lemma_last(ts, i, j, init_tokens(*v), Token::Comma);
                lemma_init_complete(ts, i, j - 1, *v, konst);
                lemma_inits_complete(ts, j, k, *rest, konst);
            }
        },
    }
}

/// The token can follow a definition: `,` or `;`.
pub open spec fn ends_def(next: Option<Token>) -> bool {
    next == Some(Token::Comma) || next == Some(Token::Semicolon)
}

/// Where the tokens from `i` to `k` spell a well-formed definition, and
/// what follows lets it end there, the grammar finds it at `i`.
pub proof fn lemma_def_complete(ts: Seq<Token>, i: int, k: int, d: Def, konst: bool)
    requires
        def_ok(d, konst),
        0 <= i <= k <= ts.len(),
        ts.subrange(i, k) == def_tokens(d),
        ends_def(peek(ts, k)),
    ensures
        def_at(ts, i, konst) == Some((d, k)),
        i < k,
        peek(ts, i) == Some(Token::Ident),
{
    let tail = match d.init {
        Some(v) => seq![Token::Assign] + init_tokens(v),
        None => Seq::empty(),
    };
    lemma_split(ts, i, k, seq![Token::Ident] + brackets_tokens(d.dims), tail);
    let j = k - tail.len();
    lemma_head(ts, i, j, Token::Ident, brackets_tokens(d.dims));
    match d.init {
        Some(v) => {
            lemma_head(ts, j, k, Token::Assign, init_tokens(v));
            lemma_brackets_complete(ts, i + 1, j, d.dims, Role::Dimension);
            lemma_init_complete(ts, j + 1, k, v, konst);
        },
        None => {
            lemma_brackets_complete(ts, i + 1, j, d.dims, Role::Dimension);
        },
    }
}

/// Where the tokens from `i` to `k` spell well-formed definitions parted by
/// commas, and what follows lets them end there, the grammar finds them at
/// `i`.
pub proof fn lemma_defs_complete(ts: Seq<Token>, i: int, k: int, l: Defs, konst: bool)
    requires
        defs_ok(l, konst),
        l is Cons,
        0 <= i <= k <= ts.len(),
        ts.subrange(i, k) == defs_tokens(l),
        peek(ts, k) == Some(Token::Semicolon),
    ensures
        defs_at(ts, i, konst) == Some((l, k)),
        i < k,
        peek(ts, i) == Some(Token::Ident),
    decreases l,
{
    match l {
        Defs::Nil => {},
        Defs::Cons(d, rest) => {
            if *rest is Nil {
                lemma_def_complete(ts, i, k, d, konst);
            } else {
                lemma_split(ts, i, k, def_tokens(d) + seq![Token::Comma], defs_tokens(*rest));
                let j = k - defs_tokens(*rest).len();
                lemma_last(ts, i, j, def_tokens(d), Token::Comma);
                lemma_def_complete(ts, i, j - 1, d, konst);
                lemma_defs_complete(ts, j, k, *rest, konst);
            }
        },
    }
}

/// Where the tokens from `i` to `k` spell a well-formed declaration, the
/// grammar finds that declaration at `i`. What follows its type is a name
/// and then no `(`.
pub proof fn lemma_decl_complete(ts: Seq<Token>, i: int, k: int, d: Decl)
    requires
        decl_ok(d),
        0 <= i <= k <= ts.len(),
        ts.subrange(i, k) == decl_tokens(d),
    ensures
        decl_at(ts, i) == Some((d, k)),
        i < k,
        peek(ts, i) == Some(
            if d.konst {
                Token::Const
            } else {
                Token::Int
            },
        ),
        !d.konst ==> peek(ts, i + 1) == Some(Token::Ident) && peek(ts, i + 2) != Some(
            Token::LParen,
        ),
{
    let prefix = if d.konst {
        seq![Token::Const, Token::Int]
    } else {
        seq![Token::Int]
    };
    lemma_last(ts, i, k, prefix + defs_tokens(d.defs), Token::Semicolon);
    lemma_split(ts, i, k - 1, prefix, defs_tokens(d.defs));
    assert(ts.subrange(i, i + prefix.len())[0] == prefix[0]);
    if d.konst {
        assert(ts.subrange(i, i + prefix.len())[1] == prefix[1]);
    }
    let start = i + prefix.len();
    lemma_defs_complete(ts, start, k - 1, d.defs, d.konst);
    if !d.konst {
        // a definition that a `(` follows ends before it, and no `;` is there
        assert_by_contradiction!(peek(ts, i + 2) != Some(Token::LParen), {
            assert(brackets_at(ts, i + 2, Role::Dimension) == Some((Brackets::Nil, i + 2)));
            assert(def_at(ts, i + 1, false) == Some(
                (Def { konst: false, dims: Brackets::Nil, init: None }, i + 2),
            ));
            assert(defs_at(ts, i + 1, false) matches Some((_, j)) && j == i + 2);
        });
    }
}

/// The token can follow a parameter: `,` or `)`.
pub open spec fn ends_param(next: Option<Token>) -> bool {
    next == Some(Token::Comma) || next == Some(Token::RParen)
}

/// Where the tokens from `i` to `k` spell a well-formed parameter, and what
/// follows lets it end there, the grammar finds it at `i`.
pub proof fn lemma_param_complete(ts: Seq<Token>, i: int, k: int, p: Param)
    requires
        param_ok(p),
        0 <= i <= k <= ts.len(),
        ts.subrange(i, k) == param_tokens(p),
        ends_param(peek(ts, k)),
    ensures
        param_at(ts, i) == Some((p, k)),
        i < k,
        peek(ts, i) == Some(Token::Int),
{
    let tail = match p.extents {
        Some(l) => seq![Token::LBracket, Token::RBracket] + brackets_tokens(l),
        None => Seq::empty(),
    };
    lemma_split(ts, i, k, seq![Token::Int, Token::Ident], tail);
    assert(ts.subrange(i, i + 2)[0] == Token::Int);
    assert(ts.subrange(i, i + 2)[1] == Token::Ident);
    match p.extents {
        Some(l) => {
            lemma_split(ts, i + 2, k, seq![Token::LBracket, Token::RBracket], brackets_tokens(l));
            assert(ts.subrange(i + 2, i + 4)[0] == Token::LBracket);
            assert(ts.subrange(i + 2, i + 4)[1] == Token::RBracket);
            lemma_brackets_complete(ts, i + 4, k, l, Role::Extent);
        },
        None => {},
    }
}

/// Where the tokens from `i` to `k` spell well-formed parameters parted by
/// commas, and what follows lets them end there, the grammar finds them at
/// `i`.
pub proof fn lemma_params_complete(ts: Seq<Token>, i: int, k: int, l: Params)
    requires
        params_ok(l),
        l is Cons,
        0 <= i <= k <= ts.len(),
        ts.subrange(i, k) == params_tokens(l),
        peek(ts, k) == Some(Token::RParen),
    ensures
        params_at(ts, i) == Some((l, k)),
        i < k,
        peek(ts, i) == Some(Token::Int),
    decreases l,
{
    match l {
        Params::Nil => {},
        Params::Cons(p, rest) => {
            if *rest is Nil {
                lemma_param_complete(ts, i, k, p);
            } else {
                lemma_split(ts, i, k, param_tokens(p) + seq![Token::Comma], params_tokens(*rest));
                let j = k - params_tokens(*rest).len();
                lemma_last(ts, i, j, param_tokens(p), Token::Comma);
                lemma_param_complete(ts, i, j - 1, p);
                lemma_params_complete(ts, j, k, *rest);
            }
        },
    }
}

/// The token can open a statement.
pub open spec fn opens_stmt(t: Token) -> bool {
    opens_expr(t) || t == Token::Semicolon || t == Token::LBrace || t == Token::If || t
        == Token::While || t == Token::Break || t == Token::Continue || t == Token::Return
}

/// The token can open an item of a block.
pub open spec fn opens_block_item(t: Token) -> bool {
    opens_stmt(t) || t == Token::Const || t == Token::Int
}

/// A well-formed statement spells at least one token, and its first token
/// can open a statement.
pub proof fn lemma_stmt_first(s: Stmt)
    requires
        stmt_ok(s),
    ensures
        stmt_tokens(s).len() > 0,
        opens_stmt(stmt_tokens(s)[0]),
{
    match s {
        Stmt::Assign(target, _) => {
            lemma_expr_first(target, 1);
        },
        Stmt::Eval(Some(e)) => {
            lemma_expr_first(e, 1);
        },
        _ => {},
    }
}

/// A well-formed item of a block spells at least one token, and its first
/// token can open an item of a block.
pub proof fn lemma_block_item_first(it: BlockItem)
    requires
        block_item_ok(it),
    ensures
        block_item_tokens(it).len() > 0,
        opens_block_item(block_item_tokens(it)[0]),
{
    match it {
        BlockItem::Decl(d) => {},
        BlockItem::Stmt(s) => {
            lemma_stmt_first(s);
        },
    }
}

/// What is owed of a statement that the tokens from `i` to `k` spell: the
/// grammar finds it at `i`.
pub open spec fn found_stmt(ts: Seq<Token>, i: int, k: int, s: Stmt) -> bool {
    stmt_at(ts, i) == Some((s, k)) && i < k && opens_stmt(ts[i])
}

/// What a statement asks of the tokens: that they spell it from `i` to
/// `k`, and that no `else` follows where it ends in an `if` without one.
pub open spec fn spelt_stmt(ts: Seq<Token>, i: int, k: int, s: Stmt) -> bool {
    stmt_ok(s) && 0 <= i <= k <= ts.len() && ts.subrange(i, k) == stmt_tokens(s) && (dangles(s)
        ==> peek(ts, k) != Some(Token::Else))
}

/// Where the tokens from `i` to `k` spell a well-formed `if` without
/// `else`, and what follows lets it end there, the grammar finds it at `i`.
proof fn lemma_if_complete(ts: Seq<Token>, i: int, k: int, s: Stmt)
    requires
        spelt_stmt(ts, i, k, s),
        s is If,
    ensures
        found_stmt(ts, i, k, s),
    decreases s, 0int,
{
    match s {
        Stmt::If(cond, then) => {
            lemma_split(
                ts,
                i,
                k,
                seq![Token::If, Token::LParen] + expr_tokens(cond) + seq![Token::RParen],
                stmt_tokens(*then),
            );
            let m = k - stmt_tokens(*then).len();
            lemma_last(ts, i, m, seq![Token::If, Token::LParen] + expr_tokens(cond), Token::RParen);
            lemma_split(ts, i, m - 1, seq![Token::If, Token::LParen], expr_tokens(cond));
            assert(ts.subrange(i, i + 2)[0] == Token::If);
            assert(ts.subrange(i, i + 2)[1] == Token::LParen);
            lemma_expr_complete(ts, i + 2, m - 1, cond);
            lemma_stmt_complete(ts, m, k, *then);
        },
        _ => {},
    }
}

/// Where the tokens from `i` to `k` spell a well-formed `if` with `else`,
/// and what follows lets it end there, the grammar finds it at `i`.
proof fn lemma_if_else_complete(ts: Seq<Token>, i: int, k: int, s: Stmt)
    requires
        spelt_stmt(ts, i, k, s),
        s is IfElse,
    ensures
        found_stmt(ts, i, k, s),
    decreases s, 0int,
{
    match s {
        Stmt::IfElse(cond, then, other) => {
            lemma_split(
                ts,
                i,
                k,
                seq![Token::If, Token::LParen] + expr_tokens(cond) + seq![Token::RParen]
                    + stmt_tokens(*then) + seq![Token::Else],
                stmt_tokens(*other),
            );
            let n = k - stmt_tokens(*other).len();
            lemma_last(
                ts,
                i,
                n,
                seq![Token::If, Token::LParen] + expr_tokens(cond) + seq![Token::RParen]
                    + stmt_tokens(*then),
                Token::Else,
            );
            lemma_split(
                ts,
                i,
                n - 1,
                seq![Token::If, Token::LParen] + expr_tokens(cond) + seq![Token::RParen],
                stmt_tokens(*then),
            );
            let m = n - 1 - stmt_tokens(*then).len();
            lemma_last(ts, i, m, seq![Token::If, Token::LParen] + expr_tokens(cond), Token::RParen);
            lemma_split(ts, i, m - 1, seq![Token::If, Token::LParen], expr_tokens(cond));
            assert(ts.subrange(i, i + 2)[0] == Token::If);
            assert(ts.subrange(i, i + 2)[1] == Token::LParen);
            lemma_expr_complete(ts, i + 2, m - 1, cond);
            lemma_stmt_complete(ts, m, n - 1, *then);
            lemma_stmt_complete(ts, n, k, *other);
        },
        _ => {},
    }
}

/// Where the tokens from `i` to `k` spell a well-formed `while` statement,
/// and what follows lets it end there, the grammar finds it at `i`.
proof fn lemma_while_complete(ts: Seq<Token>, i: int, k: int, s: Stmt)
    requires
        spelt_stmt(ts, i, k, s),
        s is While,
    ensures
        found_stmt(ts, i, k, s),
    decreases s, 0int,
{
    match s {
        Stmt::While(cond, body) => {
            lemma_split(
                ts,
                i,
                k,
                seq![Token::While, Token::LParen] + expr_tokens(cond) + seq![Token::RParen],
                stmt_tokens(*body),
            );
            let m = k - stmt_tokens(*body).len();
            lemma_last(
                ts,
                i,
                m,
                seq![Token::While, Token::LParen] + expr_tokens(cond),
                Token::RParen,
            );
            lemma_split(ts, i, m - 1, seq![Token::While, Token::LParen], expr_tokens(cond));
            assert(ts.subrange(i, i + 2)[0] == Token::While);
            assert(ts.subrange(i, i + 2)[1] == Token::LParen);
            lemma_expr_complete(ts, i + 2, m - 1, cond);
            lemma_stmt_complete(ts, m, k, *body);
        },
        _ => {},
    }
}

/// Where the tokens from `i` to `k` spell a well-formed `break`, `continue`
/// or `return` statement, and what follows lets it end there, the grammar
/// finds it at `i`.
proof fn lemma_jump_complete(ts: Seq<Token>, i: int, k: int, s: Stmt)
    requires
        spelt_stmt(ts, i, k, s),
        s is Break || s is Continue || s is Return,
    ensures
        found_stmt(ts, i, k, s),
{
    let w = ts.subrange(i, k);
    match s {
        Stmt::Break => {
            assert(w.len() == 2 && w[0] == Token::Break && w[1] == Token::Semicolon);
            assert(w[0] == ts[i] && w[1] == ts[i + 1]);
        },
        Stmt::Continue => {
            assert(w.len() == 2 && w[0] == Token::Continue && w[1] == Token::Semicolon);
            assert(w[0] == ts[i] && w[1] == ts[i + 1]);
        },
        Stmt::Return(None) => {
            assert(seq![Token::Return] + Seq::<Token>::empty() + seq![Token::Semicolon]
                =~= seq![Token::Return, Token::Semicolon]);
            assert(w.len() == 2 && w[0] == Token::Return && w[1] == Token::Semicolon);
            assert(w[0] == ts[i] && w[1] == ts[i + 1]);
        },
        Stmt::Return(Some(e)) => {
            lemma_last(ts, i, k, seq![Token::Return] + expr_tokens(e), Token::Semicolon);
            lemma_head(ts, i, k - 1, Token::Return, expr_tokens(e));
            lemma_expr_complete(ts, i + 1, k - 1, e);
        },
        _ => {},
    }
}

/// Where the tokens from `i` to `k` spell a well-formed assignment or
/// expression statement, and what follows lets it end there, the grammar
/// finds it at `i`.
proof fn lemma_plain_complete(ts: Seq<Token>, i: int, k: int, s: Stmt)
    requires
        spelt_stmt(ts, i, k, s),
        s is Assign || s is Eval,
    ensures
        found_stmt(ts, i, k, s),
{
    match s {
        Stmt::Assign(target, value) => {
            lemma_last(
                ts,
                i,
                k,
                expr_tokens(target) + seq![Token::Assign] + expr_tokens(value),
                Token::Semicolon,
            );
            lemma_split(ts, i, k - 1, expr_tokens(target) + seq![Token::Assign], expr_tokens(value));
            let j = k - 1 - expr_tokens(value).len();
            lemma_last(ts, i, j, expr_tokens(target), Token::Assign);
            lemma_expr_complete(ts, i, j - 1, target);
            lemma_expr_complete(ts, j, k - 1, value);
        },
        Stmt::Eval(None) => {
            assert(Seq::<Token>::empty() + seq![Token::Semicolon] =~= seq![Token::Semicolon]);
            assert(ts.subrange(i, k)[0] == Token::Semicolon);
        },
        Stmt::Eval(Some(e)) => {
            lemma_last(ts, i, k, expr_tokens(e), Token::Semicolon);
            lemma_expr_complete(ts, i, k - 1, e);
        },
        _ => {},
    }
}

/// Where the tokens from `i` to `k` spell a well-formed statement, and no
/// `else` follows where the statement ends in an `if` without one, the
/// grammar finds that statement at `i`.
pub proof fn lemma_stmt_complete(ts: Seq<Token>, i: int, k: int, s: Stmt)
    requires
        spelt_stmt(ts, i, k, s),
    ensures
        found_stmt(ts, i, k, s),
    decreases s, 1int,
{
    match s {
        Stmt::Block(items) => {
            lemma_last(ts, i, k, seq![Token::LBrace] + block_tokens(items), Token::RBrace);
            lemma_head(ts, i, k - 1, Token::LBrace, block_tokens(items));
            lemma_block_complete(ts, i + 1, k - 1, items);
        },
        Stmt::If(_, _) => {
            lemma_if_complete(ts, i, k, s);
        },
        Stmt::IfElse(_, _, _) => {
            lemma_if_else_complete(ts, i, k, s);
        },
        Stmt::While(_, _) => {
            lemma_while_complete(ts, i, k, s);
        },
        Stmt::Break | Stmt::Continue | Stmt::Return(_) => {
            lemma_jump_complete(ts, i, k, s);
        },
        _ => {
            lemma_plain_complete(ts, i, k, s);
        },
    }
}

/// Where the tokens from `i` to `k` spell a well-formed item of a block,
/// and what follows lets it end there, the grammar finds it at `i`.
pub proof fn lemma_block_item_complete(ts: Seq<Token>, i: int, k: int, it: BlockItem)
    requires
        block_item_ok(it),
        0 <= i <= k <= ts.len(),
        ts.subrange(i, k) == block_item_tokens(it),
        peek(ts, k) != Some(Token::Else),
    ensures
        block_item_at(ts, i) == Some((it, k)),
        i < k,
    decreases it, 0int,
{
    match it {
        BlockItem::Decl(d) => {
            lemma_decl_complete(ts, i, k, d);
        },
        BlockItem::Stmt(s) => {
            lemma_stmt_complete(ts, i, k, s);
        },
    }
}

/// Where the tokens from `i` to `k` spell the well-formed items of a block,
/// and what follows lets them end there, the grammar finds them at `i`.
pub proof fn lemma_block_complete(ts: Seq<Token>, i: int, k: int, l: BlockItems)
    requires
        block_ok(l),
        0 <= i <= k <= ts.len(),
        ts.subrange(i, k) == block_tokens(l),
        peek(ts, k) == Some(Token::RBrace),
    ensures
        block_at(ts, i) == Some((l, k)),
    decreases l, 0int,
{
    reveal_with_fuel(block_ok, 2);
    reveal_with_fuel(block_tokens, 2);
    match l {
        BlockItems::Nil => {},
        BlockItems::Cons(it, rest) => {
            lemma_split(ts, i, k, block_item_tokens(*it), block_tokens(*rest));
            let j = i + block_item_tokens(*it).len();
            lemma_block_item_first(*it);
            assert(ts.subrange(i, j)[0] == ts[i]);
            match *rest {
                BlockItems::Nil => {},
                BlockItems::Cons(next, _) => {
                    lemma_block_item_first(*next);
                    assert(ts.subrange(j, k)[0] == ts[j]);
                },
            }
            lemma_block_item_complete(ts, i, j, *it);
            lemma_block_complete(ts, j, k, *rest);
        },
    }
}

/// Where the tokens from `i` to `k` spell a well-formed function, the
/// grammar finds that function at `i`. It starts with a type, a name and
/// `(`.
pub proof fn lemma_func_complete(ts: Seq<Token>, i: int, k: int, f: FuncDef)
    requires
        func_ok(f),
        0 <= i <= k <= ts.len(),
        ts.subrange(i, k) == func_tokens(f),
    ensures
        func_at(ts, i) == Some((f, k)),
        i < k,
        peek(ts, i) == Some(Token::Void) || peek(ts, i) == Some(Token::Int),
        peek(ts, i + 1) == Some(Token::Ident),
        peek(ts, i + 2) == Some(Token::LParen),
{
    let kind = if f.returns_int {
        Token::Int
    } else {
        Token::Void
    };
    let head = seq![kind, Token::Ident, Token::LParen];
    let mid = seq![Token::RParen, Token::LBrace];
    lemma_last(
        ts,
        i,
        k,
        head + params_tokens(f.params) + mid + block_tokens(f.body),
        Token::RBrace,
    );
    lemma_split(ts, i, k - 1, head + params_tokens(f.params) + mid, block_tokens(f.body));
    let b = k - 1 - block_tokens(f.body).len();
    lemma_split(ts, i, b, head + params_tokens(f.params), mid);
    let m = b - 2;
    lemma_split(ts, i, m, head, params_tokens(f.params));
    assert(ts.subrange(i, i + 3)[0] == kind);
    assert(ts.subrange(i, i + 3)[1] == Token::Ident);
    assert(ts.subrange(i, i + 3)[2] == Token::LParen);
    assert(ts.subrange(m, b)[0] == Token::RParen);
    assert(ts.subrange(m, b)[1] == Token::LBrace);
    match f.params {
        Params::Nil => {},
        Params::Cons(_, _) => {
            lemma_params_complete(ts, i + 3, m, f.params);
        },
    }
    lemma_block_complete(ts, b, k - 1, f.body);
}

/// Where the tokens from `i` to `k` spell a well-formed top-level item, and
/// what follows lets it end there, the grammar finds it at `i`.
pub proof fn lemma_item_complete(ts: Seq<Token>, i: int, k: int, it: Item)
    requires
        item_ok(it),
        0 <= i <= k <= ts.len(),
        ts.subrange(i, k) == item_tokens(it),
    ensures
        item_at(ts, i) == Some((it, k)),
        i < k,
{
    match it {
        Item::Decl(d) => {
            lemma_decl_complete(ts, i, k, d);
        },
        Item::Func(f) => {
            lemma_func_complete(ts, i, k, f);
        },
    }
}

/// Where the tokens from `i` to `k` spell well-formed top-level items in a
/// row, and what follows lets them end there, the grammar finds them at
/// `i`.
pub proof fn lemma_items_complete(ts: Seq<Token>, i: int, l: Items)
    requires
        items_ok(l),
        l is Cons,
        0 <= i <= ts.len(),
        ts.subrange(i, ts.len() as int) == items_tokens(l),
    ensures
        items_at(ts, i) == Some((l, ts.len() as int)),
        i < ts.len(),
    decreases l,
{
    match l {
        Items::Nil => {},
        Items::Cons(it, rest) => {
            lemma_split(ts, i, ts.len() as int, item_tokens(it), items_tokens(*rest));
            let j = i + item_tokens(it).len();
            lemma_item_complete(ts, i, j, it);
            match *rest {
                Items::Nil => {},
                Items::Cons(_, _) => {
                    lemma_items_complete(ts, j, *rest);
                },
            }
        },
    }
}

/// Where the tokens spell a well-formed program, the grammar reads that
/// program out of them.
pub proof fn lemma_unit_complete(ts: Seq<Token>, unit: CompUnit)
    requires
        unit.well_formed(),
        unit.tokens() == ts,
    ensures
        unit_of(ts) == Some(unit),
{
    assert(ts.subrange(0, ts.len() as int) =~= ts);
    lemma_items_complete(ts, 0, unit.items);
}

} // verus!
