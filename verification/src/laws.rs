//! What holds of every program and of every census.

use crate::completeness::lemma_unit_complete;
use crate::lexer::lex;
use crate::parser::{census, counted, program_of, spells};
use crate::soundness::{lemma_brackets_hits, lemma_expr_hits, lemma_unit_sound};
use crate::statistics::{Counter, Statistics};
use crate::syntax::{
    block_count, block_item_count, block_item_ok, block_ok, decl_hits, decl_ok, defs_hits,
    defs_ok, expr_fits, expr_hits, init_hits, init_ok, inits_hits, inits_ok, items_count,
    items_ok, items_widest, opt_expr_hits, opt_expr_ok, param_counts, params_hits, params_len,
    params_ok, stmt_count, stmt_ok, BlockItem, BlockItems, CompUnit, Decl, Defs, Expr, InitVal,
    Inits, Item, Items, Node, Params, Role, Stmt,
};
use crate::token::Token;
use vstd::prelude::*;
use vstd::utf8::encode_utf8;

verus! {

/// Two well-formed programs that spell the same tokens are the same
/// program: the grammar is unambiguous.
pub proof fn lemma_one_reading(a: CompUnit, b: CompUnit)
    requires
        a.well_formed(),
        b.well_formed(),
        a.tokens() == b.tokens(),
    ensures
        a == b,
{
    lemma_unit_complete(a.tokens(), a);
    lemma_unit_complete(a.tokens(), b);
}

/// A text spells at most one program.
pub proof fn lemma_one_program(text: Seq<char>, a: CompUnit, b: CompUnit)
    requires
        spells(text, a),
        spells(text, b),
    ensures
        a == b,
{
    lemma_one_reading(a, b);
}

/// Reading from left to right finds the program that a text spells, and
/// finds none where the text spells none.
pub proof fn lemma_program_of(text: Seq<char>, unit: CompUnit)
    ensures
        program_of(text) == Some(unit) <==> spells(text, unit),
{
    match lex(encode_utf8(text)) {
        Some(ts) => {
            lemma_unit_sound(ts);
            if spells(text, unit) {
                lemma_unit_complete(ts, unit);
            }
        },
        None => {},
    }
}

/// A program has one census.
pub proof fn lemma_one_census(unit: CompUnit, a: Statistics, b: Statistics)
    requires
        census(a, unit),
        census(b, unit),
    ensures
        a == b,
{
    a.lemma_same_counts(b);
}

/// The statistics of a text depend on the text alone.
pub proof fn lemma_deterministic(
    text: Seq<char>,
    first: CompUnit,
    a: Statistics,
    second: CompUnit,
    b: Statistics,
)
    requires
        spells(text, first),
        census(a, first),
        spells(text, second),
        census(b, second),
    ensures
        a == b,
{
    lemma_one_program(text, first, second);
    lemma_one_census(first, a, b);
}

/// Taking a tree in lowers no counter.
pub proof fn lemma_counters_grow<N: Node>(node: N, before: Statistics, after: Statistics)
    requires
        counted(node, before, after),
    ensures
        forall|c: Counter| #[trigger] before.get(c) <= after.get(c),
        before.widest() <= after.widest(),
{
    assert forall|c: Counter| #[trigger] before.get(c) <= after.get(c) by {
        assert(after.get(c) == before.get(c) + node.hits(c));
    }
}

/// An integer literal hits the counter of its base once, and no other
/// counter.
pub proof fn lemma_literal_counts_once(t: Token, c: Counter)
    requires
        t.is_number(),
    ensures
        expr_hits(Expr::Number(t), Counter::Decimals) + expr_hits(
            Expr::Number(t),
            Counter::Octals,
        ) + expr_hits(Expr::Number(t), Counter::Hexadecimals) == 1,
        c != Counter::Decimals && c != Counter::Octals && c != Counter::Hexadecimals
            ==> expr_hits(Expr::Number(t), c) == 0,
{
}

/// The counter counts statements of one kind.
pub open spec fn of_statements(c: Counter) -> bool {
    match c {
        Counter::AssignStmts
        | Counter::ExprStmts
        | Counter::BlockStmts
        | Counter::IfStmts
        | Counter::IfElseStmts
        | Counter::WhileStmts
        | Counter::BreakStmts
        | Counter::ContinueStmts
        | Counter::ReturnStmts => true,
        _ => false,
    }
}

/// The counter counts what stands outside of declarations, parameters and
/// expressions: statements, local declarations, functions.
pub open spec fn outside_declarations(c: Counter) -> bool {
    match c {
        Counter::AssignStmts
        | Counter::ExprStmts
        | Counter::BlockStmts
        | Counter::IfStmts
        | Counter::IfElseStmts
        | Counter::WhileStmts
        | Counter::BreakStmts
        | Counter::ContinueStmts
        | Counter::ReturnStmts
        | Counter::LocalDecls
        | Counter::VoidFuncDefs
        | Counter::IntFuncDefs => true,
        _ => false,
    }
}

/// How many times a tree hits the counters of statements, all kinds
/// together.
pub open spec fn statement_hits<N: Node>(node: N) -> nat {
    node.hits(Counter::AssignStmts) + node.hits(Counter::ExprStmts) + node.hits(
        Counter::BlockStmts,
    ) + node.hits(Counter::IfStmts) + node.hits(Counter::IfElseStmts) + node.hits(
        Counter::WhileStmts,
    ) + node.hits(Counter::BreakStmts) + node.hits(Counter::ContinueStmts) + node.hits(
        Counter::ReturnStmts,
    )
}

/// A well-formed initial value hits no counter of statements, of local
/// declarations or of functions.
proof fn lemma_init_quiet(v: InitVal, konst: bool, c: Counter)
    requires
        init_ok(v, konst),
        outside_declarations(c),
    ensures
        init_hits(v, c) == 0,
    decreases v,
{
    match v {
        InitVal::Single(_, e) => {
            lemma_expr_hits(e, 1, c);
        },
        InitVal::Braces(_, l) => {
            lemma_inits_quiet(l, konst, c);
        },
    }
}

/// Well-formed initial values parted by commas hit no counter of
/// statements, of local declarations or of functions.
proof fn lemma_inits_quiet(l: Inits, konst: bool, c: Counter)
    requires
        inits_ok(l, konst),
        outside_declarations(c),
    ensures
        inits_hits(l, c) == 0,
    decreases l,
{
    match l {
        Inits::Nil => {},
        Inits::Cons(v, rest) => {
            lemma_init_quiet(*v, konst, c);
            lemma_inits_quiet(*rest, konst, c);
        },
    }
}

/// Well-formed definitions parted by commas hit no counter of statements,
/// of local declarations or of functions.
proof fn lemma_defs_quiet(l: Defs, konst: bool, c: Counter)
    requires
        defs_ok(l, konst),
        outside_declarations(c),
    ensures
        defs_hits(l, c) == 0,
    decreases l,
{
    match l {
        Defs::Nil => {},
        Defs::Cons(d, rest) => {
            lemma_brackets_hits(d.dims, Role::Dimension, c);
            match d.init {
                Some(v) => {
                    lemma_init_quiet(v, konst, c);
                },
                None => {},
            }
            lemma_defs_quiet(*rest, konst, c);
        },
    }
}

/// A well-formed declaration hits no counter of statements, of local
/// declarations or of functions.
pub proof fn lemma_decl_quiet(d: Decl, c: Counter)
    requires
        decl_ok(d),
        outside_declarations(c),
    ensures
        decl_hits(d, c) == 0,
{
    lemma_defs_quiet(d.defs, d.konst, c);
}

/// Well-formed parameters parted by commas hit no counter of statements, of
/// local declarations or of functions.
proof fn lemma_params_quiet(l: Params, c: Counter)
    requires
        params_ok(l),
        outside_declarations(c),
    ensures
        params_hits(l, c) == 0,
    decreases l,
{
    match l {
        Params::Nil => {},
        Params::Cons(p, rest) => {
            match p.extents {
                Some(b) => {
                    lemma_brackets_hits(b, Role::Extent, c);
                },
                None => {},
            }
            lemma_params_quiet(*rest, c);
        },
    }
}

/// A well-formed expression hits no counter of statements, of local
/// declarations or of functions.
proof fn lemma_expr_quiet(e: Expr)
    requires
        expr_fits(e, 1),
    ensures
        forall|c: Counter| outside_declarations(c) ==> #[trigger] expr_hits(e, c) == 0,
{
    assert forall|c: Counter| outside_declarations(c) implies #[trigger] expr_hits(e, c)
        == 0 by {
        lemma_expr_hits(e, 1, c);
    }
}

/// A well-formed expression, or none, hits no counter of statements, of
/// local declarations or of functions.
proof fn lemma_opt_expr_quiet(e: Option<Expr>)
    requires
        opt_expr_ok(e),
    ensures
        forall|c: Counter|
            outside_declarations(c) ==> #[trigger] opt_expr_hits(e, c) == 0,
{
    match e {
        Some(e) => {
            lemma_expr_quiet(e);
        },
        None => {},
    }
}

/// Each statement of a well-formed statement is counted once, by the
/// counter of its kind.
pub proof fn lemma_stmt_statements(s: Stmt)
    requires
        stmt_ok(s),
    ensures
        statement_hits(s) == stmt_count(s),
    decreases s,
{
    match s {
        Stmt::Assign(target, value) => {
            lemma_expr_quiet(target);
            lemma_expr_quiet(value);
        },
        Stmt::Eval(e) => {
            lemma_opt_expr_quiet(e);
        },
        Stmt::Block(items) => {
            lemma_block_statements(items);
        },
        Stmt::If(cond, then) => {
            lemma_expr_quiet(cond);
            lemma_stmt_statements(*then);
        },
        Stmt::IfElse(cond, then, other) => {
            lemma_expr_quiet(cond);
            lemma_stmt_statements(*then);
            lemma_stmt_statements(*other);
        },
        Stmt::While(cond, body) => {
            lemma_expr_quiet(cond);
            lemma_stmt_statements(*body);
        },
        Stmt::Break => {},
        Stmt::Continue => {},
        Stmt::Return(e) => {
            lemma_opt_expr_quiet(e);
        },
    }
}

/// Each statement in an item of a block is counted once, by the counter of
/// its kind.
proof fn lemma_block_item_statements(it: BlockItem)
    requires
        block_item_ok(it),
    ensures
        statement_hits(it) == block_item_count(it),
    decreases it,
{
    match it {
        BlockItem::Decl(d) => {
            assert forall|c: Counter| of_statements(c) implies #[trigger] decl_hits(d, c)
                == 0 by {
                lemma_decl_quiet(d, c);
            }
        },
        BlockItem::Stmt(s) => {
            lemma_stmt_statements(s);
        },
    }
}

/// Each statement in the items of a well-formed block is counted once, by
/// the counter of its kind.
pub proof fn lemma_block_statements(l: BlockItems)
    requires
        block_ok(l),
    ensures
        statement_hits(l) == block_count(l),
    decreases l,
{
    match l {
        BlockItems::Nil => {},
        BlockItems::Cons(it, rest) => {
            lemma_block_item_statements(*it);
            lemma_block_statements(*rest);
        },
    }
}

/// Each statement in top-level items in a row is counted once, by the counter of
/// its kind.
proof fn lemma_items_statements(l: Items)
    requires
        items_ok(l),
    ensures
        statement_hits(l) == items_count(l),
    decreases l,
{
    match l {
        Items::Nil => {},
        Items::Cons(it, rest) => {
            match it {
                Item::Decl(d) => {
                    assert forall|c: Counter| of_statements(c) implies #[trigger] decl_hits(d, c)
                        == 0 by {
                        lemma_decl_quiet(d, c);
                    }
                },
                Item::Func(f) => {
                    assert forall|c: Counter| of_statements(c) implies #[trigger] params_hits(
                        f.params,
                        c,
                    ) == 0 by {
                        lemma_params_quiet(f.params, c);
                    }
                    lemma_block_statements(f.body);
                },
            }
            lemma_items_statements(*rest);
        },
    }
}

/// The sum of the counters of statements, all kinds together.
pub open spec fn statement_total(stats: Statistics) -> nat {
    (stats.grammar.assign_stmts + stats.grammar.expr_stmts + stats.grammar.block_stmts
        + stats.grammar.if_stmts + stats.grammar.if_else_stmts + stats.grammar.while_stmts
        + stats.grammar.break_stmts + stats.grammar.continue_stmts
        + stats.grammar.return_stmts) as nat
}

/// The counters of statements of a census add up to the number of
/// statements in the program.
pub proof fn lemma_statement_census(unit: CompUnit, stats: Statistics)
    requires
        unit.well_formed(),
        census(stats, unit),
    ensures
        statement_total(stats) == unit.statements(),
{
    lemma_items_statements(unit.items);
    reveal(Statistics::get);
    assert(stats.get(Counter::AssignStmts) == unit.hits(Counter::AssignStmts));
    assert(stats.get(Counter::ExprStmts) == unit.hits(Counter::ExprStmts));
    assert(stats.get(Counter::BlockStmts) == unit.hits(Counter::BlockStmts));
    assert(stats.get(Counter::IfStmts) == unit.hits(Counter::IfStmts));
    assert(stats.get(Counter::IfElseStmts) == unit.hits(Counter::IfElseStmts));
    assert(stats.get(Counter::WhileStmts) == unit.hits(Counter::WhileStmts));
    assert(stats.get(Counter::BreakStmts) == unit.hits(Counter::BreakStmts));
    assert(stats.get(Counter::ContinueStmts) == unit.hits(Counter::ContinueStmts));
    assert(stats.get(Counter::ReturnStmts) == unit.hits(Counter::ReturnStmts));
}

/// `m` is the largest of the numbers, or zero where there are none.
pub open spec fn is_max_of(m: nat, s: Seq<nat>) -> bool {
    &&& forall|i: int| 0 <= i < s.len() ==> s[i] <= m
    &&& if s.len() == 0 {
        m == 0
    } else {
        exists|i: int| 0 <= i < s.len() && s[i] == m
    }
}

/// The running maximum over the items is the largest number of parameters
/// of any function among them, and zero where no function is among them.
pub proof fn lemma_widest_is_max(l: Items)
    ensures
        is_max_of(items_widest(l), param_counts(l)),
    decreases l,
{
    match l {
        Items::Nil => {},
        Items::Cons(it, rest) => {
            lemma_widest_is_max(*rest);
            let tail = param_counts(*rest);
            let all = param_counts(l);
            match it {
                Item::Decl(_) => {
                    assert(all =~= tail);
                },
                Item::Func(f) => {
                    let n = params_len(f.params);
                    assert(all =~= seq![n] + tail);
                    assert(all[0] == n);
                    assert forall|i: int| 0 <= i < all.len() implies all[i] <= items_widest(
                        l,
                    ) by {
                        if i > 0 {
                            assert(all[i] == tail[i - 1]);
                        }
                    }
                    if n >= items_widest(*rest) {
                        assert(all[0] == items_widest(l));
                    } else {
                        let i = choose|i: int| 0 <= i < tail.len() && tail[i] == items_widest(*rest);
                        assert(all[i + 1] == tail[i]);
                    }
                },
            }
        },
    }
}

/// The running maximum of a census is the largest number of parameters of
/// any function of the program, and zero where the program has no
/// function.
pub proof fn lemma_params_max(unit: CompUnit, stats: Statistics)
    requires
        census(stats, unit),
    ensures
        is_max_of(stats.grammar.func_params_max as nat, unit.param_counts()),
{
    lemma_widest_is_max(unit.items);
}

} // verus!
