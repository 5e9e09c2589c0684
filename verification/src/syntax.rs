//! The grammar of the language as a family of syntax trees: for each tree
//! the tokens that it spells, whether it is well formed, and what it adds
//! to each counter.
//!
//! The trees carry no names and no values. They are ghost values, which
//! contracts and proofs speak of: the recognizer never builds one.

use crate::statistics::{larger, tick, Counter};
use crate::token::{Token, UNARY_LEVEL};
use vstd::prelude::*;

verus! {

/// What a bracketed expression stands for, which decides what it counts as.
#[derive(Clone, Copy, Debug, PartialEq, Eq, Structural)]
pub enum Role {
    /// A subscript of an array access: counts as an array access.
    Subscript,
    /// A dimension in a definition: counts as a constant expression.
    Dimension,
    /// A dimension of an array parameter after the first, empty one: counts
    /// as nothing more than the expression in it.
    Extent,
}

/// An expression.
pub enum Expr {
    /// An integer literal, by its token.
    Number(Token),
    /// An identifier with any number of subscripts.
    LVal(Brackets),
    /// A call of a function by its name, with its arguments.
    Call(Args),
    /// An expression in parentheses.
    Paren(Box<Expr>),
    /// A prefix operator applied to a unary expression.
    Unary(Token, Box<Expr>),
    /// An operand followed by one or more binary operators of one
    /// precedence level, each with its operand: `a - b + c` is one chain.
    Chain(Box<Expr>, Tail),
}

/// Bracketed expressions in a row: `[e1][e2]`.
pub enum Brackets {
    Nil,
    Cons(Role, Box<Expr>, Box<Brackets>),
}

/// Expressions parted by commas.
pub enum Args {
    Nil,
    Cons(Box<Expr>, Box<Args>),
}

/// Binary operators in a row, each with its right operand.
pub enum Tail {
    Nil,
    Cons(Token, Box<Expr>, Box<Tail>),
}

/// An initial value. The flag tells whether it stands in a constant
/// definition.
pub enum InitVal {
    /// An expression.
    Single(bool, Expr),
    /// A list in braces.
    Braces(bool, Inits),
}

/// Initial values parted by commas.
pub enum Inits {
    Nil,
    Cons(Box<InitVal>, Box<Inits>),
}

/// One definition of a declaration: a name, its dimensions, and its
/// initial value if it has one.
pub struct Def {
    pub konst: bool,
    pub dims: Brackets,
    pub init: Option<InitVal>,
}

/// Definitions parted by commas.
pub enum Defs {
    Nil,
    Cons(Def, Box<Defs>),
}

/// A declaration of constants or of variables.
pub struct Decl {
    pub konst: bool,
    pub defs: Defs,
}

/// A parameter of a function: a scalar, or an array with its dimensions
/// after the first.
pub struct Param {
    pub extents: Option<Brackets>,
}

/// Parameters parted by commas.
pub enum Params {
    Nil,
    Cons(Param, Box<Params>),
}

/// A statement.
pub enum Stmt {
    /// `target = value;`
    Assign(Expr, Expr),
    /// `e;` or the empty statement `;`
    Eval(Option<Expr>),
    /// `{ ... }`
    Block(BlockItems),
    /// `if (cond) then` with no `else`
    If(Expr, Box<Stmt>),
    /// `if (cond) then else other`
    IfElse(Expr, Box<Stmt>, Box<Stmt>),
    /// `while (cond) body`
    While(Expr, Box<Stmt>),
    /// `break;`
    Break,
    /// `continue;`
    Continue,
    /// `return;` or `return e;`
    Return(Option<Expr>),
}

/// What a block holds: a declaration or a statement.
pub enum BlockItem {
    Decl(Decl),
    Stmt(Stmt),
}

/// The items of a block in a row.
pub enum BlockItems {
    Nil,
    Cons(Box<BlockItem>, Box<BlockItems>),
}

/// The definition of a function.
pub struct FuncDef {
    pub returns_int: bool,
    pub params: Params,
    pub body: BlockItems,
}

/// What stands at the top level: a declaration or a function.
pub enum Item {
    Decl(Decl),
    Func(FuncDef),
}

/// Top-level items in a row.
pub enum Items {
    Nil,
    Cons(Item, Box<Items>),
}

/// A whole program: one or more top-level items.
pub struct CompUnit {
    pub items: Items,
}

/// What every syntax tree says of itself to the census.
pub trait Node {
    /// How many times the tree hits the counter `c`.
    spec fn hits(&self, c: Counter) -> nat;

    /// The largest number of parameters of a function in the tree.
    spec fn widest(&self) -> nat;
}

impl Role {
    /// What one bracketed expression of this role adds to the counter `c`,
    /// beside what the expression in it adds.
    pub open spec fn hits(self, c: Counter) -> nat {
        match self {
            Role::Subscript => tick(c, Counter::ArrayAccesses),
            Role::Dimension => tick(c, Counter::ConstExprs),
            Role::Extent => 0,
        }
    }

    /// The counter that one bracketed expression of this role hits, if it
    /// hits one.
    pub fn counter(self) -> (r: Option<Counter>)
        ensures
            forall|c: Counter|
                #[trigger] self.hits(c) == match r {
                    Some(k) => tick(c, k),
                    None => 0,
                },
    {
        match self {
            Role::Subscript => Some(Counter::ArrayAccesses),
            Role::Dimension => Some(Counter::ConstExprs),
            Role::Extent => None,
        }
    }
}

// ---------------------------------------------------------------------
// What a tree adds to each counter
// ---------------------------------------------------------------------

/// How many times an expression hits the counter `c`.
pub open spec fn expr_hits(e: Expr, c: Counter) -> nat
    decreases e,
{
    match e {
        Expr::Number(t) => tick(c, t.base_counter()),
        Expr::LVal(subs) => tick(c, Counter::Ids) + brackets_hits(subs, c),
        Expr::Call(args) => tick(c, Counter::Ids) + tick(c, Counter::FuncCalls) + args_hits(
            args,
            c,
        ),
        Expr::Paren(inner) => tick(c, Counter::ParenExprs) + expr_hits(*inner, c),
        Expr::Unary(_, inner) => tick(c, Counter::UnaryOps) + tick(c, Counter::UnaryExprs)
            + expr_hits(*inner, c),
        Expr::Chain(first, tail) => expr_hits(*first, c) + tail_hits(tail, c),
    }
}

/// How many times bracketed expressions in a row hits the counter `c`.
pub open spec fn brackets_hits(l: Brackets, c: Counter) -> nat
    decreases l,
{
    match l {
        Brackets::Nil => 0,
        Brackets::Cons(role, e, rest) => role.hits(c) + expr_hits(*e, c) + brackets_hits(
            *rest,
            c,
        ),
    }
}

/// How many times expressions parted by commas hits the counter `c`.
pub open spec fn args_hits(l: Args, c: Counter) -> nat
    decreases l,
{
    match l {
        Args::Nil => 0,
        Args::Cons(e, rest) => expr_hits(*e, c) + args_hits(*rest, c),
    }
}

/// How many times a row of binary operators with their operands hits the counter `c`.
pub open spec fn tail_hits(l: Tail, c: Counter) -> nat
    decreases l,
{
    match l {
        Tail::Nil => 0,
        Tail::Cons(op, e, rest) => tick(c, Counter::BinaryOps) + tick(c, op.category())
            + expr_hits(*e, c) + tail_hits(*rest, c),
    }
}

/// How many times an initial value hits the counter `c`.
pub open spec fn init_hits(v: InitVal, c: Counter) -> nat
    decreases v,
{
    match v {
        InitVal::Single(konst, e) => if konst {
            tick(c, Counter::ConstInitExprs) + tick(c, Counter::ConstExprs) + expr_hits(e, c)
        } else {
            tick(c, Counter::VarInitExprs) + expr_hits(e, c)
        },
        InitVal::Braces(konst, l) => tick(
            c,
            if konst {
                Counter::ConstInitLists
            } else {
                Counter::VarInitLists
            },
        ) + inits_hits(l, c),
    }
}

/// How many times initial values parted by commas hits the counter `c`.
pub open spec fn inits_hits(l: Inits, c: Counter) -> nat
    decreases l,
{
    match l {
        Inits::Nil => 0,
        Inits::Cons(v, rest) => init_hits(*v, c) + inits_hits(*rest, c),
    }
}

/// How many times a definition hits the counter `c`.
pub open spec fn def_hits(d: Def, c: Counter) -> nat {
    tick(c, Counter::Ids) + tick(
        c,
        if d.konst {
            Counter::ConstDefs
        } else {
            Counter::VarDefs
        },
    ) + (if d.dims is Nil {
        0
    } else {
        tick(
            c,
            if d.konst {
                Counter::ConstArrayDefs
            } else {
                Counter::VarArrayDefs
            },
        )
    }) + brackets_hits(d.dims, c) + (match d.init {
        Some(v) => init_hits(v, c),
        None => 0,
    })
}

/// How many times definitions parted by commas hits the counter `c`.
pub open spec fn defs_hits(l: Defs, c: Counter) -> nat
    decreases l,
{
    match l {
        Defs::Nil => 0,
        Defs::Cons(d, rest) => def_hits(d, c) + defs_hits(*rest, c),
    }
}

/// How many times a declaration hits the counter `c`.
pub open spec fn decl_hits(d: Decl, c: Counter) -> nat {
    tick(
        c,
        if d.konst {
            Counter::ConstDecls
        } else {
            Counter::VarDecls
        },
    ) + defs_hits(d.defs, c)
}

/// How many times a parameter hits the counter `c`.
pub open spec fn param_hits(p: Param, c: Counter) -> nat {
    tick(c, Counter::FuncParams) + tick(c, Counter::Ids) + (match p.extents {
        Some(l) => tick(c, Counter::FuncArrayParams) + brackets_hits(l, c),
        None => 0,
    })
}

/// How many times parameters parted by commas hits the counter `c`.
pub open spec fn params_hits(l: Params, c: Counter) -> nat
    decreases l,
{
    match l {
        Params::Nil => 0,
        Params::Cons(p, rest) => param_hits(p, c) + params_hits(*rest, c),
    }
}

/// The number of parameters in the list.
pub open spec fn params_len(l: Params) -> nat
    decreases l,
{
    match l {
        Params::Nil => 0,
        Params::Cons(_, rest) => 1 + params_len(*rest),
    }
}

/// How many times an expression that may be missing hits the counter `c`.
pub open spec fn opt_expr_hits(e: Option<Expr>, c: Counter) -> nat {
    match e {
        Some(e) => expr_hits(e, c),
        None => 0,
    }
}

/// How many times a statement hits the counter `c`.
pub open spec fn stmt_hits(s: Stmt, c: Counter) -> nat
    decreases s,
{
    match s {
        Stmt::Assign(target, value) => tick(c, Counter::AssignStmts) + expr_hits(target, c)
            + expr_hits(value, c),
        Stmt::Eval(e) => tick(c, Counter::ExprStmts) + opt_expr_hits(e, c),
        Stmt::Block(items) => tick(c, Counter::BlockStmts) + block_hits(items, c),
        Stmt::If(cond, then) => tick(c, Counter::IfStmts) + expr_hits(cond, c) + stmt_hits(
            *then,
            c,
        ),
        Stmt::IfElse(cond, then, other) => tick(c, Counter::IfElseStmts) + expr_hits(cond, c)
            + stmt_hits(*then, c) + stmt_hits(*other, c),
        Stmt::While(cond, body) => tick(c, Counter::WhileStmts) + expr_hits(cond, c)
            + stmt_hits(*body, c),
        Stmt::Break => tick(c, Counter::BreakStmts),
        Stmt::Continue => tick(c, Counter::ContinueStmts),
        Stmt::Return(e) => tick(c, Counter::ReturnStmts) + opt_expr_hits(e, c),
    }
}

/// How many times an item of a block hits the counter `c`.
pub open spec fn block_item_hits(it: BlockItem, c: Counter) -> nat
    decreases it,
{
    match it {
        BlockItem::Decl(d) => tick(c, Counter::LocalDecls) + decl_hits(d, c),
        BlockItem::Stmt(s) => stmt_hits(s, c),
    }
}

/// How many times the items of a block hits the counter `c`.
pub open spec fn block_hits(l: BlockItems, c: Counter) -> nat
    decreases l,
{
    match l {
        BlockItems::Nil => 0,
        BlockItems::Cons(it, rest) => block_item_hits(*it, c) + block_hits(*rest, c),
    }
}

/// How many times the definition of a function hits the counter `c`.
pub open spec fn func_hits(f: FuncDef, c: Counter) -> nat {
    tick(
        c,
        if f.returns_int {
            Counter::IntFuncDefs
        } else {
            Counter::VoidFuncDefs
        },
    ) + tick(c, Counter::Ids) + params_hits(f.params, c) + block_hits(f.body, c)
}

/// How many times a top-level item hits the counter `c`.
pub open spec fn item_hits(it: Item, c: Counter) -> nat {
    match it {
        Item::Decl(d) => decl_hits(d, c),
        Item::Func(f) => func_hits(f, c),
    }
}

/// The number of parameters of a top-level item that is a function, zero
/// for a declaration.
pub open spec fn item_widest(it: Item) -> nat {
    match it {
        Item::Decl(_) => 0,
        Item::Func(f) => params_len(f.params),
    }
}

/// How many times top-level items in a row hits the counter `c`.
pub open spec fn items_hits(l: Items, c: Counter) -> nat
    decreases l,
{
    match l {
        Items::Nil => 0,
        Items::Cons(it, rest) => item_hits(it, c) + items_hits(*rest, c),
    }
}

/// The largest number of parameters of any function among the items.
pub open spec fn items_widest(l: Items) -> nat
    decreases l,
{
    match l {
        Items::Nil => 0,
        Items::Cons(it, rest) => larger(item_widest(it), items_widest(*rest)),
    }
}

impl Node for Expr {
    open spec fn hits(&self, c: Counter) -> nat {
        expr_hits(*self, c)
    }

    open spec fn widest(&self) -> nat {
        0
    }
}

impl Node for Brackets {
    open spec fn hits(&self, c: Counter) -> nat {
        brackets_hits(*self, c)
    }

    open spec fn widest(&self) -> nat {
        0
    }
}

impl Node for Args {
    open spec fn hits(&self, c: Counter) -> nat {
        args_hits(*self, c)
    }

    open spec fn widest(&self) -> nat {
        0
    }
}

impl Node for Tail {
    open spec fn hits(&self, c: Counter) -> nat {
        tail_hits(*self, c)
    }

    open spec fn widest(&self) -> nat {
        0
    }
}

impl Node for InitVal {
    open spec fn hits(&self, c: Counter) -> nat {
        init_hits(*self, c)
    }

    open spec fn widest(&self) -> nat {
        0
    }
}

impl Node for Inits {
    open spec fn hits(&self, c: Counter) -> nat {
        inits_hits(*self, c)
    }

    open spec fn widest(&self) -> nat {
        0
    }
}

impl Node for Def {
    open spec fn hits(&self, c: Counter) -> nat {
        def_hits(*self, c)
    }

    open spec fn widest(&self) -> nat {
        0
    }
}

impl Node for Defs {
    open spec fn hits(&self, c: Counter) -> nat {
        defs_hits(*self, c)
    }

    open spec fn widest(&self) -> nat {
        0
    }
}

impl Node for Decl {
    open spec fn hits(&self, c: Counter) -> nat {
        decl_hits(*self, c)
    }

    open spec fn widest(&self) -> nat {
        0
    }
}

impl Node for Param {
    open spec fn hits(&self, c: Counter) -> nat {
        param_hits(*self, c)
    }

    open spec fn widest(&self) -> nat {
        0
    }
}

impl Node for Params {
    open spec fn hits(&self, c: Counter) -> nat {
        params_hits(*self, c)
    }

    open spec fn widest(&self) -> nat {
        0
    }
}

impl Node for Stmt {
    open spec fn hits(&self, c: Counter) -> nat {
        stmt_hits(*self, c)
    }

    open spec fn widest(&self) -> nat {
        0
    }
}

impl Node for BlockItem {
    open spec fn hits(&self, c: Counter) -> nat {
        block_item_hits(*self, c)
    }

    open spec fn widest(&self) -> nat {
        0
    }
}

impl Node for BlockItems {
    open spec fn hits(&self, c: Counter) -> nat {
        block_hits(*self, c)
    }

    open spec fn widest(&self) -> nat {
        0
    }
}

impl Node for FuncDef {
    open spec fn hits(&self, c: Counter) -> nat {
        func_hits(*self, c)
    }

    open spec fn widest(&self) -> nat {
        params_len(self.params)
    }
}

impl Node for Item {
    open spec fn hits(&self, c: Counter) -> nat {
        item_hits(*self, c)
    }

    open spec fn widest(&self) -> nat {
        item_widest(*self)
    }
}

impl Node for Items {
    open spec fn hits(&self, c: Counter) -> nat {
        items_hits(*self, c)
    }

    open spec fn widest(&self) -> nat {
        items_widest(*self)
    }
}

impl Node for CompUnit {
    open spec fn hits(&self, c: Counter) -> nat {
        items_hits(self.items, c)
    }

    open spec fn widest(&self) -> nat {
        items_widest(self.items)
    }
}

// ---------------------------------------------------------------------
// The tokens that a tree spells
// ---------------------------------------------------------------------

/// The tokens that an expression spells.
pub open spec fn expr_tokens(e: Expr) -> Seq<Token>
    decreases e,
{
    match e {
        Expr::Number(t) => seq![t],
        Expr::LVal(subs) => seq![Token::Ident] + brackets_tokens(subs),
        Expr::Call(args) => seq![Token::Ident, Token::LParen] + args_tokens(args)
            + seq![Token::RParen],
        Expr::Paren(inner) => seq![Token::LParen] + expr_tokens(*inner) + seq![Token::RParen],
        Expr::Unary(op, inner) => seq![op] + expr_tokens(*inner),
        Expr::Chain(first, tail) => expr_tokens(*first) + tail_tokens(tail),
    }
}

/// The tokens that bracketed expressions in a row spells.
pub open spec fn brackets_tokens(l: Brackets) -> Seq<Token>
    decreases l,
{
    match l {
        Brackets::Nil => Seq::empty(),
        Brackets::Cons(_, e, rest) => seq![Token::LBracket] + expr_tokens(*e)
            + seq![Token::RBracket] + brackets_tokens(*rest),
    }
}

/// The tokens that expressions parted by commas spells.
pub open spec fn args_tokens(l: Args) -> Seq<Token>
    decreases l,
{
    match l {
        Args::Nil => Seq::empty(),
        Args::Cons(e, rest) => if *rest is Nil {
            expr_tokens(*e)
        } else {
            expr_tokens(*e) + seq![Token::Comma] + args_tokens(*rest)
        },
    }
}

/// The tokens that a row of binary operators with their operands spells.
pub open spec fn tail_tokens(l: Tail) -> Seq<Token>
    decreases l,
{
    match l {
        Tail::Nil => Seq::empty(),
        Tail::Cons(op, e, rest) => seq![op] + expr_tokens(*e) + tail_tokens(*rest),
    }
}

/// The tokens that an initial value spells.
pub open spec fn init_tokens(v: InitVal) -> Seq<Token>
    decreases v,
{
    match v {
        InitVal::Single(_, e) => expr_tokens(e),
        InitVal::Braces(_, l) => seq![Token::LBrace] + inits_tokens(l) + seq![Token::RBrace],
    }
}

/// The tokens that initial values parted by commas spells.
pub open spec fn inits_tokens(l: Inits) -> Seq<Token>
    decreases l,
{
    match l {
        Inits::Nil => Seq::empty(),
        Inits::Cons(v, rest) => if *rest is Nil {
            init_tokens(*v)
        } else {
            init_tokens(*v) + seq![Token::Comma] + inits_tokens(*rest)
        },
    }
}

/// The tokens that a definition spells.
pub open spec fn def_tokens(d: Def) -> Seq<Token> {
    seq![Token::Ident] + brackets_tokens(d.dims) + (match d.init {
        Some(v) => seq![Token::Assign] + init_tokens(v),
        None => Seq::empty(),
    })
}

/// The tokens that definitions parted by commas spells.
pub open spec fn defs_tokens(l: Defs) -> Seq<Token>
    decreases l,
{
    match l {
        Defs::Nil => Seq::empty(),
        Defs::Cons(d, rest) => if *rest is Nil {
            def_tokens(d)
        } else {
            def_tokens(d) + seq![Token::Comma] + defs_tokens(*rest)
        },
    }
}

/// The tokens that a declaration spells.
pub open spec fn decl_tokens(d: Decl) -> Seq<Token> {
    (if d.konst {
        seq![Token::Const, Token::Int]
    } else {
        seq![Token::Int]
    }) + defs_tokens(d.defs) + seq![Token::Semicolon]
}

/// The tokens that a parameter spells.
pub open spec fn param_tokens(p: Param) -> Seq<Token> {
    seq![Token::Int, Token::Ident] + (match p.extents {
        Some(l) => seq![Token::LBracket, Token::RBracket] + brackets_tokens(l),
        None => Seq::empty(),
    })
}

/// The tokens that parameters parted by commas spells.
pub open spec fn params_tokens(l: Params) -> Seq<Token>
    decreases l,
{
    match l {
        Params::Nil => Seq::empty(),
        Params::Cons(p, rest) => if *rest is Nil {
            param_tokens(p)
        } else {
            param_tokens(p) + seq![Token::Comma] + params_tokens(*rest)
        },
    }
}

/// The tokens that an expression that may be missing spells.
pub open spec fn opt_expr_tokens(e: Option<Expr>) -> Seq<Token> {
    match e {
        Some(e) => expr_tokens(e),
        None => Seq::empty(),
    }
}

/// The tokens that a statement spells.
pub open spec fn stmt_tokens(s: Stmt) -> Seq<Token>
    decreases s,
{
    match s {
        Stmt::Assign(target, value) => expr_tokens(target) + seq![Token::Assign] + expr_tokens(
            value,
        ) + seq![Token::Semicolon],
        Stmt::Eval(e) => opt_expr_tokens(e) + seq![Token::Semicolon],
        Stmt::Block(items) => seq![Token::LBrace] + block_tokens(items) + seq![Token::RBrace],
        Stmt::If(cond, then) => seq![Token::If, Token::LParen] + expr_tokens(cond)
            + seq![Token::RParen] + stmt_tokens(*then),
        Stmt::IfElse(cond, then, other) => seq![Token::If, Token::LParen] + expr_tokens(cond)
            + seq![Token::RParen] + stmt_tokens(*then) + seq![Token::Else] + stmt_tokens(*other),
        Stmt::While(cond, body) => seq![Token::While, Token::LParen] + expr_tokens(cond)
            + seq![Token::RParen] + stmt_tokens(*body),
        Stmt::Break => seq![Token::Break, Token::Semicolon],
        Stmt::Continue => seq![Token::Continue, Token::Semicolon],
        Stmt::Return(e) => seq![Token::Return] + opt_expr_tokens(e) + seq![Token::Semicolon],
    }
}

/// The tokens that an item of a block spells.
pub open spec fn block_item_tokens(it: BlockItem) -> Seq<Token>
    decreases it,
{
    match it {
        BlockItem::Decl(d) => decl_tokens(d),
        BlockItem::Stmt(s) => stmt_tokens(s),
    }
}

/// The tokens that the items of a block spells.
pub open spec fn block_tokens(l: BlockItems) -> Seq<Token>
    decreases l,
{
    match l {
        BlockItems::Nil => Seq::empty(),
        BlockItems::Cons(it, rest) => block_item_tokens(*it) + block_tokens(*rest),
    }
}

/// The tokens that the definition of a function spells.
pub open spec fn func_tokens(f: FuncDef) -> Seq<Token> {
    seq![
        if f.returns_int {
            Token::Int
        } else {
            Token::Void
        },
        Token::Ident,
        Token::LParen,
    ] + params_tokens(f.params) + seq![Token::RParen, Token::LBrace] + block_tokens(f.body)
        + seq![Token::RBrace]
}

/// The tokens that a top-level item spells.
pub open spec fn item_tokens(it: Item) -> Seq<Token> {
    match it {
        Item::Decl(d) => decl_tokens(d),
        Item::Func(f) => func_tokens(f),
    }
}

/// The tokens that top-level items in a row spells.
pub open spec fn items_tokens(l: Items) -> Seq<Token>
    decreases l,
{
    match l {
        Items::Nil => Seq::empty(),
        Items::Cons(it, rest) => item_tokens(it) + items_tokens(*rest),
    }
}

// ---------------------------------------------------------------------
// Which trees the grammar admits
// ---------------------------------------------------------------------

/// The expression can stand where the grammar asks for an expression of
/// precedence level `lvl` or tighter.
pub open spec fn expr_fits(e: Expr, lvl: int) -> bool
    decreases e,
{
    match e {
        Expr::Number(t) => t.is_number(),
        Expr::LVal(subs) => brackets_ok(subs, Role::Subscript),
        Expr::Call(args) => args_ok(args),
        Expr::Paren(inner) => expr_fits(*inner, 1),
        Expr::Unary(op, inner) => op.is_prefix() && expr_fits(*inner, UNARY_LEVEL as int),
        Expr::Chain(first, tail) => match tail {
            Tail::Nil => false,
            Tail::Cons(op, _, _) => 1 <= op.level() && lvl <= op.level() && expr_fits(
                *first,
                op.level() + 1,
            ) && tail_ok(tail, op.level()),
        },
    }
}

/// Every bracketed expression has the role `role` and is well formed.
pub open spec fn brackets_ok(l: Brackets, role: Role) -> bool
    decreases l,
{
    match l {
        Brackets::Nil => true,
        Brackets::Cons(r, e, rest) => r == role && expr_fits(*e, 1) && brackets_ok(*rest, role),
    }
}

/// Expressions parted by commas are well formed.
pub open spec fn args_ok(l: Args) -> bool
    decreases l,
{
    match l {
        Args::Nil => true,
        Args::Cons(e, rest) => expr_fits(*e, 1) && args_ok(*rest),
    }
}

/// Every operator of the tail has the precedence level `lvl`, and every
/// operand binds tighter.
pub open spec fn tail_ok(l: Tail, lvl: int) -> bool
    decreases l,
{
    match l {
        Tail::Nil => true,
        Tail::Cons(op, e, rest) => op.level() == lvl && expr_fits(*e, lvl + 1) && tail_ok(
            *rest,
            lvl,
        ),
    }
}

/// An initial value is well formed.
pub open spec fn init_ok(v: InitVal, konst: bool) -> bool
    decreases v,
{
    match v {
        InitVal::Single(k, e) => k == konst && expr_fits(e, 1),
        InitVal::Braces(k, l) => k == konst && inits_ok(l, konst),
    }
}

/// Initial values parted by commas are well formed.
pub open spec fn inits_ok(l: Inits, konst: bool) -> bool
    decreases l,
{
    match l {
        Inits::Nil => true,
        Inits::Cons(v, rest) => init_ok(*v, konst) && inits_ok(*rest, konst),
    }
}

/// A definition of a constant has an initial value; one of a variable may
/// have none.
pub open spec fn def_ok(d: Def, konst: bool) -> bool {
    d.konst == konst && brackets_ok(d.dims, Role::Dimension) && (match d.init {
        Some(v) => init_ok(v, konst),
        None => !konst,
    })
}

/// Definitions parted by commas are well formed.
pub open spec fn defs_ok(l: Defs, konst: bool) -> bool
    decreases l,
{
    match l {
        Defs::Nil => true,
        Defs::Cons(d, rest) => def_ok(d, konst) && defs_ok(*rest, konst),
    }
}

/// A declaration holds at least one definition.
pub open spec fn decl_ok(d: Decl) -> bool {
    !(d.defs is Nil) && defs_ok(d.defs, d.konst)
}

/// A parameter is well formed.
pub open spec fn param_ok(p: Param) -> bool {
    match p.extents {
        Some(l) => brackets_ok(l, Role::Extent),
        None => true,
    }
}

/// Parameters parted by commas are well formed.
pub open spec fn params_ok(l: Params) -> bool
    decreases l,
{
    match l {
        Params::Nil => true,
        Params::Cons(p, rest) => param_ok(p) && params_ok(*rest),
    }
}

/// An expression that may be missing is well formed.
pub open spec fn opt_expr_ok(e: Option<Expr>) -> bool {
    match e {
        Some(e) => expr_fits(e, 1),
        None => true,
    }
}

/// The statement ends in an `if` that has no `else`, so that an `else`
/// after the statement would belong to that `if`.
pub open spec fn dangles(s: Stmt) -> bool
    decreases s,
{
    match s {
        Stmt::If(_, _) => true,
        Stmt::IfElse(_, _, other) => dangles(*other),
        Stmt::While(_, body) => dangles(*body),
        _ => false,
    }
}

/// The statement is well formed. An `else` belongs to the nearest `if`
/// before it that has none: the first branch of an `if` with `else` never
/// ends in an `if` without one.
pub open spec fn stmt_ok(s: Stmt) -> bool
    decreases s,
{
    match s {
        Stmt::Assign(target, value) => target is LVal && expr_fits(target, 1) && expr_fits(
            value,
            1,
        ),
        Stmt::Eval(e) => opt_expr_ok(e),
        Stmt::Block(items) => block_ok(items),
        Stmt::If(cond, then) => expr_fits(cond, 1) && stmt_ok(*then),
        Stmt::IfElse(cond, then, other) => expr_fits(cond, 1) && stmt_ok(*then) && !dangles(
            *then,
        ) && stmt_ok(*other),
        Stmt::While(cond, body) => expr_fits(cond, 1) && stmt_ok(*body),
        Stmt::Break => true,
        Stmt::Continue => true,
        Stmt::Return(e) => opt_expr_ok(e),
    }
}

/// An item of a block is well formed.
pub open spec fn block_item_ok(it: BlockItem) -> bool
    decreases it,
{
    match it {
        BlockItem::Decl(d) => decl_ok(d),
        BlockItem::Stmt(s) => stmt_ok(s),
    }
}

/// The items of a block is well formed.
pub open spec fn block_ok(l: BlockItems) -> bool
    decreases l,
{
    match l {
        BlockItems::Nil => true,
        BlockItems::Cons(it, rest) => block_item_ok(*it) && block_ok(*rest),
    }
}

/// The definition of a function is well formed.
pub open spec fn func_ok(f: FuncDef) -> bool {
    params_ok(f.params) && block_ok(f.body)
}

/// A top-level item is well formed.
pub open spec fn item_ok(it: Item) -> bool {
    match it {
        Item::Decl(d) => decl_ok(d),
        Item::Func(f) => func_ok(f),
    }
}

/// Top-level items in a row is well formed.
pub open spec fn items_ok(l: Items) -> bool
    decreases l,
{
    match l {
        Items::Nil => true,
        Items::Cons(it, rest) => item_ok(it) && items_ok(*rest),
    }
}

// ---------------------------------------------------------------------
// Statements and parameters, counted on the tree itself
// ---------------------------------------------------------------------

/// The number of statements in the statement, itself included.
pub open spec fn stmt_count(s: Stmt) -> nat
    decreases s,
{
    match s {
        Stmt::Block(items) => 1 + block_count(items),
        Stmt::If(_, then) => 1 + stmt_count(*then),
        Stmt::IfElse(_, then, other) => 1 + stmt_count(*then) + stmt_count(*other),
        Stmt::While(_, body) => 1 + stmt_count(*body),
        _ => 1,
    }
}

/// The number of statements in an item of a block.
pub open spec fn block_item_count(it: BlockItem) -> nat
    decreases it,
{
    match it {
        BlockItem::Decl(_) => 0,
        BlockItem::Stmt(s) => stmt_count(s),
    }
}

/// The number of statements in the items of a block.
pub open spec fn block_count(l: BlockItems) -> nat
    decreases l,
{
    match l {
        BlockItems::Nil => 0,
        BlockItems::Cons(it, rest) => block_item_count(*it) + block_count(*rest),
    }
}

/// The number of statements in the bodies of the functions among the
/// items.
pub open spec fn items_count(l: Items) -> nat
    decreases l,
{
    match l {
        Items::Nil => 0,
        Items::Cons(it, rest) => (match it {
            Item::Decl(_) => 0,
            Item::Func(f) => block_count(f.body),
        }) + items_count(*rest),
    }
}

/// For each function among the items, in order, the number of its
/// parameters.
pub open spec fn param_counts(l: Items) -> Seq<nat>
    decreases l,
{
    match l {
        Items::Nil => Seq::empty(),
        Items::Cons(it, rest) => (match it {
            Item::Decl(_) => Seq::empty(),
            Item::Func(f) => seq![params_len(f.params)],
        }) + param_counts(*rest),
    }
}

impl CompUnit {
    /// The number of statements in the program.
    pub open spec fn statements(self) -> nat {
        items_count(self.items)
    }

    /// For each function of the program, in order, the number of its
    /// parameters.
    pub open spec fn param_counts(self) -> Seq<nat> {
        param_counts(self.items)
    }

    /// The tokens that the program spells.
    pub open spec fn tokens(self) -> Seq<Token> {
        items_tokens(self.items)
    }

    /// The program is well formed: it holds at least one item, and every
    /// part of it is well formed.
    pub open spec fn well_formed(self) -> bool {
        !(self.items is Nil) && items_ok(self.items)
    }
}

} // verus!
