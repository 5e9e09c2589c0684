//! The counters that a parse fills in, and the record that holds them.

use vstd::prelude::*;

verus! {

/// One additive counter of a [`Statistics`] record.
///
/// Every counter but the running maximum of parameters per function is
/// additive: each matched token or production adds one to it.
#[derive(Clone, Copy, Debug, PartialEq, Eq, Structural)]
pub enum Counter {
    /// Number of identifiers.
    Ids,
    /// Number of decimal integer literals.
    Decimals,
    /// Number of octal integer literals.
    Octals,
    /// Number of hexadecimal integer literals.
    Hexadecimals,
    /// Number of unary operators.
    UnaryOps,
    /// Number of binary operators.
    BinaryOps,
    /// Number of constant declarations.
    ConstDecls,
    /// Number of constant definitions.
    ConstDefs,
    /// Number of constant definitions that declare an array.
    ConstArrayDefs,
    /// Number of expression initialisers of constants.
    ConstInitExprs,
    /// Number of brace-list initialisers of constants.
    ConstInitLists,
    /// Number of variable declarations.
    VarDecls,
    /// Number of variable definitions.
    VarDefs,
    /// Number of variable definitions that declare an array.
    VarArrayDefs,
    /// Number of expression initialisers of variables.
    VarInitExprs,
    /// Number of brace-list initialisers of variables.
    VarInitLists,
    /// Number of definitions of functions returning `void`.
    VoidFuncDefs,
    /// Number of definitions of functions returning `int`.
    IntFuncDefs,
    /// Number of function parameters.
    FuncParams,
    /// Number of function parameters of array type.
    FuncArrayParams,
    /// Number of declarations inside a block.
    LocalDecls,
    /// Number of assignment statements.
    AssignStmts,
    /// Number of expression statements.
    ExprStmts,
    /// Number of block statements.
    BlockStmts,
    /// Number of `if` statements without `else`.
    IfStmts,
    /// Number of `if` statements with `else`.
    IfElseStmts,
    /// Number of `while` statements.
    WhileStmts,
    /// Number of `break` statements.
    BreakStmts,
    /// Number of `continue` statements.
    ContinueStmts,
    /// Number of `return` statements.
    ReturnStmts,
    /// Number of array subscripts.
    ArrayAccesses,
    /// Number of parenthesised expressions.
    ParenExprs,
    /// Number of function calls.
    FuncCalls,
    /// Number of unary expressions.
    UnaryExprs,
    /// Number of multiplicative expressions.
    MulExprs,
    /// Number of additive expressions.
    AddExprs,
    /// Number of relational expressions.
    RelExprs,
    /// Number of equality expressions.
    EqExprs,
    /// Number of logical-and expressions.
    LandExprs,
    /// Number of logical-or expressions.
    LorExprs,
    /// Number of constant expressions.
    ConstExprs,
}

/// `1` where the two counters are the same, `0` otherwise.
pub open spec fn tick(c: Counter, k: Counter) -> nat {
    if c == k {
        1
    } else {
        0
    }
}

/// The larger of two naturals.
pub open spec fn larger(a: nat, b: nat) -> nat {
    if a >= b {
        a
    } else {
        b
    }
}

/// Lexical statistics: one counter per class of token.
#[derive(Clone, Copy, Debug, PartialEq, Eq, Structural)]
pub struct LexicalStatistics {
    /// Number of identifiers.
    pub ids: usize,
    /// Number of decimal integer literals.
    pub decimals: usize,
    /// Number of octal integer literals.
    pub octals: usize,
    /// Number of hexadecimal integer literals.
    pub hexadecimals: usize,
    /// Number of unary operators.
    pub unary_ops: usize,
    /// Number of binary operators.
    pub binary_ops: usize,
}

/// Grammar statistics: one counter per kind of construct.
#[derive(Clone, Copy, Debug, PartialEq, Eq, Structural)]
pub struct GrammarStatistics {
    /// Number of constant declarations.
    pub const_decls: usize,
    /// Number of constant definitions.
    pub const_defs: usize,
    /// Number of constant definitions that declare an array.
    pub const_array_defs: usize,
    /// Number of expression initialisers of constants.
    pub const_init_exprs: usize,
    /// Number of brace-list initialisers of constants.
    pub const_init_lists: usize,
    /// Number of variable declarations.
    pub var_decls: usize,
    /// Number of variable definitions.
    pub var_defs: usize,
    /// Number of variable definitions that declare an array.
    pub var_array_defs: usize,
    /// Number of expression initialisers of variables.
    pub var_init_exprs: usize,
    /// Number of brace-list initialisers of variables.
    pub var_init_lists: usize,
    /// Number of definitions of functions returning `void`.
    pub void_func_defs: usize,
    /// Number of definitions of functions returning `int`.
    pub int_func_defs: usize,
    /// Number of function parameters.
    pub func_params: usize,
    /// Number of function parameters of array type.
    pub func_array_params: usize,
    /// Largest number of parameters that any one function takes.
    pub func_params_max: usize,
    /// Number of declarations inside a block.
    pub local_decls: usize,
    /// Number of assignment statements.
    pub assign_stmts: usize,
    /// Number of expression statements.
    pub expr_stmts: usize,
    /// Number of block statements.
    pub block_stmts: usize,
    /// Number of `if` statements without `else`.
    pub if_stmts: usize,
    /// Number of `if` statements with `else`.
    pub if_else_stmts: usize,
    /// Number of `while` statements.
    pub while_stmts: usize,
    /// Number of `break` statements.
    pub break_stmts: usize,
    /// Number of `continue` statements.
    pub continue_stmts: usize,
    /// Number of `return` statements.
    pub return_stmts: usize,
    /// Number of array subscripts.
    pub array_accesses: usize,
    /// Number of parenthesised expressions.
    pub paren_exprs: usize,
    /// Number of function calls.
    pub func_calls: usize,
    /// Number of unary expressions.
    pub unary_exprs: usize,
    /// Number of multiplicative expressions.
    pub mul_exprs: usize,
    /// Number of additive expressions.
    pub add_exprs: usize,
    /// Number of relational expressions.
    pub rel_exprs: usize,
    /// Number of equality expressions.
    pub eq_exprs: usize,
    /// Number of logical-and expressions.
    pub land_exprs: usize,
    /// Number of logical-or expressions.
    pub lor_exprs: usize,
    /// Number of constant expressions.
    pub const_exprs: usize,
}

/// Statistics about one program.
#[derive(Clone, Copy, Debug, PartialEq, Eq, Structural)]
pub struct Statistics {
    /// Lexical statistics.
    pub lexical: LexicalStatistics,
    /// Grammar statistics.
    pub grammar: GrammarStatistics,
}

impl Counter {
    /// The key under which the counter appears in a serialised record.
    pub open spec fn label(self) -> Seq<char> {
        match self {
            Counter::Ids => "ids"@,
            Counter::Decimals => "decimals"@,
            Counter::Octals => "octals"@,
            Counter::Hexadecimals => "hexadecimals"@,
            Counter::UnaryOps => "unary_ops"@,
            Counter::BinaryOps => "binary_ops"@,
            Counter::ConstDecls => "const_decls"@,
            Counter::ConstDefs => "const_defs"@,
            Counter::ConstArrayDefs => "const_array_defs"@,
            Counter::ConstInitExprs => "const_init_exprs"@,
            Counter::ConstInitLists => "const_init_lists"@,
            Counter::VarDecls => "var_decls"@,
            Counter::VarDefs => "var_defs"@,
            Counter::VarArrayDefs => "var_array_defs"@,
            Counter::VarInitExprs => "var_init_exprs"@,
            Counter::VarInitLists => "var_init_lists"@,
            Counter::VoidFuncDefs => "void_func_defs"@,
            Counter::IntFuncDefs => "int_func_defs"@,
            Counter::FuncParams => "func_params"@,
            Counter::FuncArrayParams => "func_array_params"@,
            Counter::LocalDecls => "local_decls"@,
            Counter::AssignStmts => "assign_stmts"@,
            Counter::ExprStmts => "expr_stmts"@,
            Counter::BlockStmts => "block_stmts"@,
            Counter::IfStmts => "if_stmts"@,
            Counter::IfElseStmts => "if_else_stmts"@,
            Counter::WhileStmts => "while_stmts"@,
            Counter::BreakStmts => "break_stmts"@,
            Counter::ContinueStmts => "continue_stmts"@,
            Counter::ReturnStmts => "return_stmts"@,
            Counter::ArrayAccesses => "array_accesses"@,
            Counter::ParenExprs => "paren_exprs"@,
            Counter::FuncCalls => "func_calls"@,
            Counter::UnaryExprs => "unary_exprs"@,
            Counter::MulExprs => "mul_exprs"@,
            Counter::AddExprs => "add_exprs"@,
            Counter::RelExprs => "rel_exprs"@,
            Counter::EqExprs => "eq_exprs"@,
            Counter::LandExprs => "land_exprs"@,
            Counter::LorExprs => "lor_exprs"@,
            Counter::ConstExprs => "const_exprs"@,
        }
    }

    /// The key under which the counter appears in a serialised record.
    pub fn name(self) -> (r: &'static str)
        ensures
            r@ == self.label(),
    {
        match self {
            Counter::Ids => "ids",
            Counter::Decimals => "decimals",
            Counter::Octals => "octals",
            Counter::Hexadecimals => "hexadecimals",
            Counter::UnaryOps => "unary_ops",
            Counter::BinaryOps => "binary_ops",
            Counter::ConstDecls => "const_decls",
            Counter::ConstDefs => "const_defs",
            Counter::ConstArrayDefs => "const_array_defs",
            Counter::ConstInitExprs => "const_init_exprs",
            Counter::ConstInitLists => "const_init_lists",
            Counter::VarDecls => "var_decls",
            Counter::VarDefs => "var_defs",
            Counter::VarArrayDefs => "var_array_defs",
            Counter::VarInitExprs => "var_init_exprs",
            Counter::VarInitLists => "var_init_lists",
            Counter::VoidFuncDefs => "void_func_defs",
            Counter::IntFuncDefs => "int_func_defs",
            Counter::FuncParams => "func_params",
            Counter::FuncArrayParams => "func_array_params",
            Counter::LocalDecls => "local_decls",
            Counter::AssignStmts => "assign_stmts",
            Counter::ExprStmts => "expr_stmts",
            Counter::BlockStmts => "block_stmts",
            Counter::IfStmts => "if_stmts",
            Counter::IfElseStmts => "if_else_stmts",
            Counter::WhileStmts => "while_stmts",
            Counter::BreakStmts => "break_stmts",
            Counter::ContinueStmts => "continue_stmts",
            Counter::ReturnStmts => "return_stmts",
            Counter::ArrayAccesses => "array_accesses",
            Counter::ParenExprs => "paren_exprs",
            Counter::FuncCalls => "func_calls",
            Counter::UnaryExprs => "unary_exprs",
            Counter::MulExprs => "mul_exprs",
            Counter::AddExprs => "add_exprs",
            Counter::RelExprs => "rel_exprs",
            Counter::EqExprs => "eq_exprs",
            Counter::LandExprs => "land_exprs",
            Counter::LorExprs => "lor_exprs",
            Counter::ConstExprs => "const_exprs",
        }
    }
}

impl LexicalStatistics {
    /// The record with every counter at zero.
    pub fn new() -> (r: Self)
        ensures
            r == Self::zero(),
    {
        LexicalStatistics {
            ids: 0,
            decimals: 0,
            octals: 0,
            hexadecimals: 0,
            unary_ops: 0,
            binary_ops: 0,
        }
    }

    /// The record with every counter at zero.
    pub open spec fn zero() -> Self {
        LexicalStatistics {
            ids: 0,
            decimals: 0,
            octals: 0,
            hexadecimals: 0,
            unary_ops: 0,
            binary_ops: 0,
        }
    }

    /// The record as ordered pairs of key and value.
    pub open spec fn pairs(self) -> Seq<(Seq<char>, nat)> {
        seq![
            ("ids"@, self.ids as nat),
            ("decimals"@, self.decimals as nat),
            ("octals"@, self.octals as nat),
            ("hexadecimals"@, self.hexadecimals as nat),
            ("unary_ops"@, self.unary_ops as nat),
            ("binary_ops"@, self.binary_ops as nat),
        ]
    }

    /// The record as ordered pairs of key and value, for an encoder to walk.
    pub fn entries(&self) -> (r: Vec<(&'static str, usize)>)
        ensures
            r@.len() == self.pairs().len(),
            forall|i: int|
                0 <= i < r@.len() ==> (#[trigger] r@[i]).0@ == self.pairs()[i].0 && r@[i].1
                    == self.pairs()[i].1,
    {
        let mut r: Vec<(&'static str, usize)> = Vec::new();
        r.push(("ids", self.ids));
        r.push(("decimals", self.decimals));
        r.push(("octals", self.octals));
        r.push(("hexadecimals", self.hexadecimals));
        r.push(("unary_ops", self.unary_ops));
        r.push(("binary_ops", self.binary_ops));
        r
    }
}

impl GrammarStatistics {
    /// The record with every counter at zero.
    pub fn new() -> (r: Self)
        ensures
            r == Self::zero(),
    {
        GrammarStatistics {
            const_decls: 0,
            const_defs: 0,
            const_array_defs: 0,
            const_init_exprs: 0,
            const_init_lists: 0,
            var_decls: 0,
            var_defs: 0,
            var_array_defs: 0,
            var_init_exprs: 0,
            var_init_lists: 0,
            void_func_defs: 0,
            int_func_defs: 0,
            func_params: 0,
            func_array_params: 0,
            func_params_max: 0,
            local_decls: 0,
            assign_stmts: 0,
            expr_stmts: 0,
            block_stmts: 0,
            if_stmts: 0,
            if_else_stmts: 0,
            while_stmts: 0,
            break_stmts: 0,
            continue_stmts: 0,
            return_stmts: 0,
            array_accesses: 0,
            paren_exprs: 0,
            func_calls: 0,
            unary_exprs: 0,
            mul_exprs: 0,
            add_exprs: 0,
            rel_exprs: 0,
            eq_exprs: 0,
            land_exprs: 0,
            lor_exprs: 0,
            const_exprs: 0,
        }
    }

    /// The record with every counter at zero.
    pub open spec fn zero() -> Self {
        GrammarStatistics {
            const_decls: 0,
            const_defs: 0,
            const_array_defs: 0,
            const_init_exprs: 0,
            const_init_lists: 0,
            var_decls: 0,
            var_defs: 0,
            var_array_defs: 0,
            var_init_exprs: 0,
            var_init_lists: 0,
            void_func_defs: 0,
            int_func_defs: 0,
            func_params: 0,
            func_array_params: 0,
            func_params_max: 0,
            local_decls: 0,
            assign_stmts: 0,
            expr_stmts: 0,
            block_stmts: 0,
            if_stmts: 0,
            if_else_stmts: 0,
            while_stmts: 0,
            break_stmts: 0,
            continue_stmts: 0,
            return_stmts: 0,
            array_accesses: 0,
            paren_exprs: 0,
            func_calls: 0,
            unary_exprs: 0,
            mul_exprs: 0,
            add_exprs: 0,
            rel_exprs: 0,
            eq_exprs: 0,
            land_exprs: 0,
            lor_exprs: 0,
            const_exprs: 0,
        }
    }

    /// The record as ordered pairs of key and value.
    pub open spec fn pairs(self) -> Seq<(Seq<char>, nat)> {
        seq![
            ("const_decls"@, self.const_decls as nat),
            ("const_defs"@, self.const_defs as nat),
            ("const_array_defs"@, self.const_array_defs as nat),
            ("const_init_exprs"@, self.const_init_exprs as nat),
            ("const_init_lists"@, self.const_init_lists as nat),
            ("var_decls"@, self.var_decls as nat),
            ("var_defs"@, self.var_defs as nat),
            ("var_array_defs"@, self.var_array_defs as nat),
            ("var_init_exprs"@, self.var_init_exprs as nat),
            ("var_init_lists"@, self.var_init_lists as nat),
            ("void_func_defs"@, self.void_func_defs as nat),
            ("int_func_defs"@, self.int_func_defs as nat),
            ("func_params"@, self.func_params as nat),
            ("func_array_params"@, self.func_array_params as nat),
            ("func_params_max"@, self.func_params_max as nat),
            ("local_decls"@, self.local_decls as nat),
            ("assign_stmts"@, self.assign_stmts as nat),
            ("expr_stmts"@, self.expr_stmts as nat),
            ("block_stmts"@, self.block_stmts as nat),
            ("if_stmts"@, self.if_stmts as nat),
            ("if_else_stmts"@, self.if_else_stmts as nat),
            ("while_stmts"@, self.while_stmts as nat),
            ("break_stmts"@, self.break_stmts as nat),
            ("continue_stmts"@, self.continue_stmts as nat),
            ("return_stmts"@, self.return_stmts as nat),
            ("array_accesses"@, self.array_accesses as nat),
            ("paren_exprs"@, self.paren_exprs as nat),
            ("func_calls"@, self.func_calls as nat),
            ("unary_exprs"@, self.unary_exprs as nat),
            ("mul_exprs"@, self.mul_exprs as nat),
            ("add_exprs"@, self.add_exprs as nat),
            ("rel_exprs"@, self.rel_exprs as nat),
            ("eq_exprs"@, self.eq_exprs as nat),
            ("land_exprs"@, self.land_exprs as nat),
            ("lor_exprs"@, self.lor_exprs as nat),
            ("const_exprs"@, self.const_exprs as nat),
        ]
    }

    /// The record as ordered pairs of key and value, for an encoder to walk.
    pub fn entries(&self) -> (r: Vec<(&'static str, usize)>)
        ensures
            r@.len() == self.pairs().len(),
            forall|i: int|
                0 <= i < r@.len() ==> (#[trigger] r@[i]).0@ == self.pairs()[i].0 && r@[i].1
                    == self.pairs()[i].1,
    {
        let mut r: Vec<(&'static str, usize)> = Vec::new();
        r.push(("const_decls", self.const_decls));
        r.push(("const_defs", self.const_defs));
        r.push(("const_array_defs", self.const_array_defs));
        r.push(("const_init_exprs", self.const_init_exprs));
        r.push(("const_init_lists", self.const_init_lists));
        r.push(("var_decls", self.var_decls));
        r.push(("var_defs", self.var_defs));
        r.push(("var_array_defs", self.var_array_defs));
        r.push(("var_init_exprs", self.var_init_exprs));
        r.push(("var_init_lists", self.var_init_lists));
        r.push(("void_func_defs", self.void_func_defs));
        r.push(("int_func_defs", self.int_func_defs));
        r.push(("func_params", self.func_params));
        r.push(("func_array_params", self.func_array_params));
        r.push(("func_params_max", self.func_params_max));
        r.push(("local_decls", self.local_decls));
        r.push(("assign_stmts", self.assign_stmts));
        r.push(("expr_stmts", self.expr_stmts));
        r.push(("block_stmts", self.block_stmts));
        r.push(("if_stmts", self.if_stmts));
        r.push(("if_else_stmts", self.if_else_stmts));
        r.push(("while_stmts", self.while_stmts));
        r.push(("break_stmts", self.break_stmts));
        r.push(("continue_stmts", self.continue_stmts));
        r.push(("return_stmts", self.return_stmts));
        r.push(("array_accesses", self.array_accesses));
        r.push(("paren_exprs", self.paren_exprs));
        r.push(("func_calls", self.func_calls));
        r.push(("unary_exprs", self.unary_exprs));
        r.push(("mul_exprs", self.mul_exprs));
        r.push(("add_exprs", self.add_exprs));
        r.push(("rel_exprs", self.rel_exprs));
        r.push(("eq_exprs", self.eq_exprs));
        r.push(("land_exprs", self.land_exprs));
        r.push(("lor_exprs", self.lor_exprs));
        r.push(("const_exprs", self.const_exprs));
        r
    }
}

impl Statistics {
    /// The record with every counter at zero.
    pub open spec fn zero() -> Self {
        Statistics { lexical: LexicalStatistics::zero(), grammar: GrammarStatistics::zero() }
    }

    /// The record with every counter at zero.
    pub fn new() -> (r: Self)
        ensures
            r == Self::zero(),
    {
        Statistics { lexical: LexicalStatistics::new(), grammar: GrammarStatistics::new() }
    }

    /// The value of one additive counter: the field of the counter's name.
    /// [`Statistics::lemma_fields`] gives each counter with its field.
    #[verifier::opaque]
    pub open spec fn get(self, c: Counter) -> nat {
        match c {
            Counter::Ids => self.lexical.ids as nat,
            Counter::Decimals => self.lexical.decimals as nat,
            Counter::Octals => self.lexical.octals as nat,
            Counter::Hexadecimals => self.lexical.hexadecimals as nat,
            Counter::UnaryOps => self.lexical.unary_ops as nat,
            Counter::BinaryOps => self.lexical.binary_ops as nat,
            Counter::ConstDecls => self.grammar.const_decls as nat,
            Counter::ConstDefs => self.grammar.const_defs as nat,
            Counter::ConstArrayDefs => self.grammar.const_array_defs as nat,
            Counter::ConstInitExprs => self.grammar.const_init_exprs as nat,
            Counter::ConstInitLists => self.grammar.const_init_lists as nat,
            Counter::VarDecls => self.grammar.var_decls as nat,
            Counter::VarDefs => self.grammar.var_defs as nat,
            Counter::VarArrayDefs => self.grammar.var_array_defs as nat,
            Counter::VarInitExprs => self.grammar.var_init_exprs as nat,
            Counter::VarInitLists => self.grammar.var_init_lists as nat,
            Counter::VoidFuncDefs => self.grammar.void_func_defs as nat,
            Counter::IntFuncDefs => self.grammar.int_func_defs as nat,
            Counter::FuncParams => self.grammar.func_params as nat,
            Counter::FuncArrayParams => self.grammar.func_array_params as nat,
            Counter::LocalDecls => self.grammar.local_decls as nat,
            Counter::AssignStmts => self.grammar.assign_stmts as nat,
            Counter::ExprStmts => self.grammar.expr_stmts as nat,
            Counter::BlockStmts => self.grammar.block_stmts as nat,
            Counter::IfStmts => self.grammar.if_stmts as nat,
            Counter::IfElseStmts => self.grammar.if_else_stmts as nat,
            Counter::WhileStmts => self.grammar.while_stmts as nat,
            Counter::BreakStmts => self.grammar.break_stmts as nat,
            Counter::ContinueStmts => self.grammar.continue_stmts as nat,
            Counter::ReturnStmts => self.grammar.return_stmts as nat,
            Counter::ArrayAccesses => self.grammar.array_accesses as nat,
            Counter::ParenExprs => self.grammar.paren_exprs as nat,
            Counter::FuncCalls => self.grammar.func_calls as nat,
            Counter::UnaryExprs => self.grammar.unary_exprs as nat,
            Counter::MulExprs => self.grammar.mul_exprs as nat,
            Counter::AddExprs => self.grammar.add_exprs as nat,
            Counter::RelExprs => self.grammar.rel_exprs as nat,
            Counter::EqExprs => self.grammar.eq_exprs as nat,
            Counter::LandExprs => self.grammar.land_exprs as nat,
            Counter::LorExprs => self.grammar.lor_exprs as nat,
            Counter::ConstExprs => self.grammar.const_exprs as nat,
        }
    }

    /// Every additive counter of the zero record is zero.
    pub proof fn lemma_zero()
        ensures
            forall|c: Counter| #[trigger] Self::zero().get(c) == 0,
            Self::zero().widest() == 0,
    {
        reveal(Statistics::get);
    }

    /// Each additive counter is the field of its name.
    pub proof fn lemma_fields(self)
        ensures
            self.get(Counter::Ids) == self.lexical.ids,
            self.get(Counter::Decimals) == self.lexical.decimals,
            self.get(Counter::Octals) == self.lexical.octals,
            self.get(Counter::Hexadecimals) == self.lexical.hexadecimals,
            self.get(Counter::UnaryOps) == self.lexical.unary_ops,
            self.get(Counter::BinaryOps) == self.lexical.binary_ops,
            self.get(Counter::ConstDecls) == self.grammar.const_decls,
            self.get(Counter::ConstDefs) == self.grammar.const_defs,
            self.get(Counter::ConstArrayDefs) == self.grammar.const_array_defs,
            self.get(Counter::ConstInitExprs) == self.grammar.const_init_exprs,
            self.get(Counter::ConstInitLists) == self.grammar.const_init_lists,
            self.get(Counter::VarDecls) == self.grammar.var_decls,
            self.get(Counter::VarDefs) == self.grammar.var_defs,
            self.get(Counter::VarArrayDefs) == self.grammar.var_array_defs,
            self.get(Counter::VarInitExprs) == self.grammar.var_init_exprs,
            self.get(Counter::VarInitLists) == self.grammar.var_init_lists,
            self.get(Counter::VoidFuncDefs) == self.grammar.void_func_defs,
            self.get(Counter::IntFuncDefs) == self.grammar.int_func_defs,
            self.get(Counter::FuncParams) == self.grammar.func_params,
            self.get(Counter::FuncArrayParams) == self.grammar.func_array_params,
            self.get(Counter::LocalDecls) == self.grammar.local_decls,
            self.get(Counter::AssignStmts) == self.grammar.assign_stmts,
            self.get(Counter::ExprStmts) == self.grammar.expr_stmts,
            self.get(Counter::BlockStmts) == self.grammar.block_stmts,
            self.get(Counter::IfStmts) == self.grammar.if_stmts,
            self.get(Counter::IfElseStmts) == self.grammar.if_else_stmts,
            self.get(Counter::WhileStmts) == self.grammar.while_stmts,
            self.get(Counter::BreakStmts) == self.grammar.break_stmts,
            self.get(Counter::ContinueStmts) == self.grammar.continue_stmts,
            self.get(Counter::ReturnStmts) == self.grammar.return_stmts,
            self.get(Counter::ArrayAccesses) == self.grammar.array_accesses,
            self.get(Counter::ParenExprs) == self.grammar.paren_exprs,
            self.get(Counter::FuncCalls) == self.grammar.func_calls,
            self.get(Counter::UnaryExprs) == self.grammar.unary_exprs,
            self.get(Counter::MulExprs) == self.grammar.mul_exprs,
            self.get(Counter::AddExprs) == self.grammar.add_exprs,
            self.get(Counter::RelExprs) == self.grammar.rel_exprs,
            self.get(Counter::EqExprs) == self.grammar.eq_exprs,
            self.get(Counter::LandExprs) == self.grammar.land_exprs,
            self.get(Counter::LorExprs) == self.grammar.lor_exprs,
            self.get(Counter::ConstExprs) == self.grammar.const_exprs,
    {
        reveal(Statistics::get);
    }

    /// Two records that agree on every additive counter and on the running
    /// maximum are the same record.
    pub proof fn lemma_same_counts(self, other: Statistics)
        requires
            forall|c: Counter| #[trigger] self.get(c) == other.get(c),
            self.widest() == other.widest(),
        ensures
            self == other,
    {
        reveal(Statistics::get);
        assert(self.get(Counter::Ids) == other.get(Counter::Ids));
        assert(self.get(Counter::Decimals) == other.get(Counter::Decimals));
        assert(self.get(Counter::Octals) == other.get(Counter::Octals));
        assert(self.get(Counter::Hexadecimals) == other.get(Counter::Hexadecimals));
        assert(self.get(Counter::UnaryOps) == other.get(Counter::UnaryOps));
        assert(self.get(Counter::BinaryOps) == other.get(Counter::BinaryOps));
        assert(self.get(Counter::ConstDecls) == other.get(Counter::ConstDecls));
        assert(self.get(Counter::ConstDefs) == other.get(Counter::ConstDefs));
        assert(self.get(Counter::ConstArrayDefs) == other.get(Counter::ConstArrayDefs));
        assert(self.get(Counter::ConstInitExprs) == other.get(Counter::ConstInitExprs));
        assert(self.get(Counter::ConstInitLists) == other.get(Counter::ConstInitLists));
        assert(self.get(Counter::VarDecls) == other.get(Counter::VarDecls));
        assert(self.get(Counter::VarDefs) == other.get(Counter::VarDefs));
        assert(self.get(Counter::VarArrayDefs) == other.get(Counter::VarArrayDefs));
        assert(self.get(Counter::VarInitExprs) == other.get(Counter::VarInitExprs));
        assert(self.get(Counter::VarInitLists) == other.get(Counter::VarInitLists));
        assert(self.get(Counter::VoidFuncDefs) == other.get(Counter::VoidFuncDefs));
        assert(self.get(Counter::IntFuncDefs) == other.get(Counter::IntFuncDefs));
        assert(self.get(Counter::FuncParams) == other.get(Counter::FuncParams));
        assert(self.get(Counter::FuncArrayParams) == other.get(Counter::FuncArrayParams));
        assert(self.get(Counter::LocalDecls) == other.get(Counter::LocalDecls));
        assert(self.get(Counter::AssignStmts) == other.get(Counter::AssignStmts));
        assert(self.get(Counter::ExprStmts) == other.get(Counter::ExprStmts));
        assert(self.get(Counter::BlockStmts) == other.get(Counter::BlockStmts));
        assert(self.get(Counter::IfStmts) == other.get(Counter::IfStmts));
        assert(self.get(Counter::IfElseStmts) == other.get(Counter::IfElseStmts));
        assert(self.get(Counter::WhileStmts) == other.get(Counter::WhileStmts));
        assert(self.get(Counter::BreakStmts) == other.get(Counter::BreakStmts));
        assert(self.get(Counter::ContinueStmts) == other.get(Counter::ContinueStmts));
        assert(self.get(Counter::ReturnStmts) == other.get(Counter::ReturnStmts));
        assert(self.get(Counter::ArrayAccesses) == other.get(Counter::ArrayAccesses));
        assert(self.get(Counter::ParenExprs) == other.get(Counter::ParenExprs));
        assert(self.get(Counter::FuncCalls) == other.get(Counter::FuncCalls));
        assert(self.get(Counter::UnaryExprs) == other.get(Counter::UnaryExprs));
        assert(self.get(Counter::MulExprs) == other.get(Counter::MulExprs));
        assert(self.get(Counter::AddExprs) == other.get(Counter::AddExprs));
        assert(self.get(Counter::RelExprs) == other.get(Counter::RelExprs));
        assert(self.get(Counter::EqExprs) == other.get(Counter::EqExprs));
        assert(self.get(Counter::LandExprs) == other.get(Counter::LandExprs));
        assert(self.get(Counter::LorExprs) == other.get(Counter::LorExprs));
        assert(self.get(Counter::ConstExprs) == other.get(Counter::ConstExprs));
        assert(self.lexical == other.lexical);
        assert(self.grammar == other.grammar);
    }

    /// The running maximum of parameters per function.
    pub open spec fn widest(self) -> nat {
        self.grammar.func_params_max as nat
    }

    /// Every additive counter can still take `n` more increments.
    pub open spec fn has_room(self, n: int) -> bool {
        forall|c: Counter| #[trigger] self.get(c) + n <= usize::MAX
    }

    /// The value of one additive counter.
    pub fn count(&self, c: Counter) -> (r: usize)
        ensures
            r == self.get(c),
    {
        reveal(Statistics::get);
        match c {
            Counter::Ids => self.lexical.ids,
            Counter::Decimals => self.lexical.decimals,
            Counter::Octals => self.lexical.octals,
            Counter::Hexadecimals => self.lexical.hexadecimals,
            Counter::UnaryOps => self.lexical.unary_ops,
            Counter::BinaryOps => self.lexical.binary_ops,
            Counter::ConstDecls => self.grammar.const_decls,
            Counter::ConstDefs => self.grammar.const_defs,
            Counter::ConstArrayDefs => self.grammar.const_array_defs,
            Counter::ConstInitExprs => self.grammar.const_init_exprs,
            Counter::ConstInitLists => self.grammar.const_init_lists,
            Counter::VarDecls => self.grammar.var_decls,
            Counter::VarDefs => self.grammar.var_defs,
            Counter::VarArrayDefs => self.grammar.var_array_defs,
            Counter::VarInitExprs => self.grammar.var_init_exprs,
            Counter::VarInitLists => self.grammar.var_init_lists,
            Counter::VoidFuncDefs => self.grammar.void_func_defs,
            Counter::IntFuncDefs => self.grammar.int_func_defs,
            Counter::FuncParams => self.grammar.func_params,
            Counter::FuncArrayParams => self.grammar.func_array_params,
            Counter::LocalDecls => self.grammar.local_decls,
            Counter::AssignStmts => self.grammar.assign_stmts,
            Counter::ExprStmts => self.grammar.expr_stmts,
            Counter::BlockStmts => self.grammar.block_stmts,
            Counter::IfStmts => self.grammar.if_stmts,
            Counter::IfElseStmts => self.grammar.if_else_stmts,
            Counter::WhileStmts => self.grammar.while_stmts,
            Counter::BreakStmts => self.grammar.break_stmts,
            Counter::ContinueStmts => self.grammar.continue_stmts,
            Counter::ReturnStmts => self.grammar.return_stmts,
            Counter::ArrayAccesses => self.grammar.array_accesses,
            Counter::ParenExprs => self.grammar.paren_exprs,
            Counter::FuncCalls => self.grammar.func_calls,
            Counter::UnaryExprs => self.grammar.unary_exprs,
            Counter::MulExprs => self.grammar.mul_exprs,
            Counter::AddExprs => self.grammar.add_exprs,
            Counter::RelExprs => self.grammar.rel_exprs,
            Counter::EqExprs => self.grammar.eq_exprs,
            Counter::LandExprs => self.grammar.land_exprs,
            Counter::LorExprs => self.grammar.lor_exprs,
            Counter::ConstExprs => self.grammar.const_exprs,
        }
    }

    /// The record with one more in the counter `c`.
    spec fn bumped(self, c: Counter) -> Statistics {
        match c {
            Counter::Ids => Statistics {
                lexical: LexicalStatistics { ids: (self.lexical.ids + 1) as usize, ..self.lexical },
                ..self
            },
            Counter::Decimals => Statistics {
                lexical: LexicalStatistics { decimals: (self.lexical.decimals + 1) as usize, ..self.lexical },
                ..self
            },
            Counter::Octals => Statistics {
                lexical: LexicalStatistics { octals: (self.lexical.octals + 1) as usize, ..self.lexical },
                ..self
            },
            Counter::Hexadecimals => Statistics {
                lexical: LexicalStatistics { hexadecimals: (self.lexical.hexadecimals + 1) as usize, ..self.lexical },
                ..self
            },
            Counter::UnaryOps => Statistics {
                lexical: LexicalStatistics { unary_ops: (self.lexical.unary_ops + 1) as usize, ..self.lexical },
                ..self
            },
            Counter::BinaryOps => Statistics {
                lexical: LexicalStatistics { binary_ops: (self.lexical.binary_ops + 1) as usize, ..self.lexical },
                ..self
            },
            Counter::ConstDecls => Statistics {
                grammar: GrammarStatistics { const_decls: (self.grammar.const_decls + 1) as usize, ..self.grammar },
                ..self
            },
            Counter::ConstDefs => Statistics {
                grammar: GrammarStatistics { const_defs: (self.grammar.const_defs + 1) as usize, ..self.grammar },
                ..self
            },
            Counter::ConstArrayDefs => Statistics {
                grammar: GrammarStatistics { const_array_defs: (self.grammar.const_array_defs + 1) as usize, ..self.grammar },
                ..self
            },
            Counter::ConstInitExprs => Statistics {
                grammar: GrammarStatistics { const_init_exprs: (self.grammar.const_init_exprs + 1) as usize, ..self.grammar },
                ..self
            },
            Counter::ConstInitLists => Statistics {
                grammar: GrammarStatistics { const_init_lists: (self.grammar.const_init_lists + 1) as usize, ..self.grammar },
                ..self
            },
            Counter::VarDecls => Statistics {
                grammar: GrammarStatistics { var_decls: (self.grammar.var_decls + 1) as usize, ..self.grammar },
                ..self
            },
            Counter::VarDefs => Statistics {
                grammar: GrammarStatistics { var_defs: (self.grammar.var_defs + 1) as usize, ..self.grammar },
                ..self
            },
            Counter::VarArrayDefs => Statistics {
                grammar: GrammarStatistics { var_array_defs: (self.grammar.var_array_defs + 1) as usize, ..self.grammar },
                ..self
            },
            Counter::VarInitExprs => Statistics {
                grammar: GrammarStatistics { var_init_exprs: (self.grammar.var_init_exprs + 1) as usize, ..self.grammar },
                ..self
            },
            Counter::VarInitLists => Statistics {
                grammar: GrammarStatistics { var_init_lists: (self.grammar.var_init_lists + 1) as usize, ..self.grammar },
                ..self
            },
            Counter::VoidFuncDefs => Statistics {
                grammar: GrammarStatistics { void_func_defs: (self.grammar.void_func_defs + 1) as usize, ..self.grammar },
                ..self
            },
            Counter::IntFuncDefs => Statistics {
                grammar: GrammarStatistics { int_func_defs: (self.grammar.int_func_defs + 1) as usize, ..self.grammar },
                ..self
            },
            Counter::FuncParams => Statistics {
                grammar: GrammarStatistics { func_params: (self.grammar.func_params + 1) as usize, ..self.grammar },
                ..self
            },
            Counter::FuncArrayParams => Statistics {
                grammar: GrammarStatistics { func_array_params: (self.grammar.func_array_params + 1) as usize, ..self.grammar },
                ..self
            },
            Counter::LocalDecls => Statistics {
                grammar: GrammarStatistics { local_decls: (self.grammar.local_decls + 1) as usize, ..self.grammar },
                ..self
            },
            Counter::AssignStmts => Statistics {
                grammar: GrammarStatistics { assign_stmts: (self.grammar.assign_stmts + 1) as usize, ..self.grammar },
                ..self
            },
            Counter::ExprStmts => Statistics {
                grammar: GrammarStatistics { expr_stmts: (self.grammar.expr_stmts + 1) as usize, ..self.grammar },
                ..self
            },
            Counter::BlockStmts => Statistics {
                grammar: GrammarStatistics { block_stmts: (self.grammar.block_stmts + 1) as usize, ..self.grammar },
                ..self
            },
            Counter::IfStmts => Statistics {
                grammar: GrammarStatistics { if_stmts: (self.grammar.if_stmts + 1) as usize, ..self.grammar },
                ..self
            },
            Counter::IfElseStmts => Statistics {
                grammar: GrammarStatistics { if_else_stmts: (self.grammar.if_else_stmts + 1) as usize, ..self.grammar },
                ..self
            },
            Counter::WhileStmts => Statistics {
                grammar: GrammarStatistics { while_stmts: (self.grammar.while_stmts + 1) as usize, ..self.grammar },
                ..self
            },
            Counter::BreakStmts => Statistics {
                grammar: GrammarStatistics { break_stmts: (self.grammar.break_stmts + 1) as usize, ..self.grammar },
                ..self
            },
            Counter::ContinueStmts => Statistics {
                grammar: GrammarStatistics { continue_stmts: (self.grammar.continue_stmts + 1) as usize, ..self.grammar },
                ..self
            },
            Counter::ReturnStmts => Statistics {
                grammar: GrammarStatistics { return_stmts: (self.grammar.return_stmts + 1) as usize, ..self.grammar },
                ..self
            },
            Counter::ArrayAccesses => Statistics {
                grammar: GrammarStatistics { array_accesses: (self.grammar.array_accesses + 1) as usize, ..self.grammar },
                ..self
            },
            Counter::ParenExprs => Statistics {
                grammar: GrammarStatistics { paren_exprs: (self.grammar.paren_exprs + 1) as usize, ..self.grammar },
                ..self
            },
            Counter::FuncCalls => Statistics {
                grammar: GrammarStatistics { func_calls: (self.grammar.func_calls + 1) as usize, ..self.grammar },
                ..self
            },
            Counter::UnaryExprs => Statistics {
                grammar: GrammarStatistics { unary_exprs: (self.grammar.unary_exprs + 1) as usize, ..self.grammar },
                ..self
            },
            Counter::MulExprs => Statistics {
                grammar: GrammarStatistics { mul_exprs: (self.grammar.mul_exprs + 1) as usize, ..self.grammar },
                ..self
            },
            Counter::AddExprs => Statistics {
                grammar: GrammarStatistics { add_exprs: (self.grammar.add_exprs + 1) as usize, ..self.grammar },
                ..self
            },
            Counter::RelExprs => Statistics {
                grammar: GrammarStatistics { rel_exprs: (self.grammar.rel_exprs + 1) as usize, ..self.grammar },
                ..self
            },
            Counter::EqExprs => Statistics {
                grammar: GrammarStatistics { eq_exprs: (self.grammar.eq_exprs + 1) as usize, ..self.grammar },
                ..self
            },
            Counter::LandExprs => Statistics {
                grammar: GrammarStatistics { land_exprs: (self.grammar.land_exprs + 1) as usize, ..self.grammar },
                ..self
            },
            Counter::LorExprs => Statistics {
                grammar: GrammarStatistics { lor_exprs: (self.grammar.lor_exprs + 1) as usize, ..self.grammar },
                ..self
            },
            Counter::ConstExprs => Statistics {
                grammar: GrammarStatistics { const_exprs: (self.grammar.const_exprs + 1) as usize, ..self.grammar },
                ..self
            },
        }
    }

    /// The record with `tick(c, k)` more in each counter `k`.
    spec fn ticked(self, c: Counter) -> Statistics {
        Statistics {
            lexical: LexicalStatistics {
                ids: (self.lexical.ids + tick(c, Counter::Ids)) as usize,
                decimals: (self.lexical.decimals + tick(c, Counter::Decimals)) as usize,
                octals: (self.lexical.octals + tick(c, Counter::Octals)) as usize,
                hexadecimals: (self.lexical.hexadecimals + tick(c, Counter::Hexadecimals)) as usize,
                unary_ops: (self.lexical.unary_ops + tick(c, Counter::UnaryOps)) as usize,
                binary_ops: (self.lexical.binary_ops + tick(c, Counter::BinaryOps)) as usize,
            },
            grammar: GrammarStatistics {
                const_decls: (self.grammar.const_decls + tick(c, Counter::ConstDecls)) as usize,
                const_defs: (self.grammar.const_defs + tick(c, Counter::ConstDefs)) as usize,
                const_array_defs: (self.grammar.const_array_defs + tick(c, Counter::ConstArrayDefs)) as usize,
                const_init_exprs: (self.grammar.const_init_exprs + tick(c, Counter::ConstInitExprs)) as usize,
                const_init_lists: (self.grammar.const_init_lists + tick(c, Counter::ConstInitLists)) as usize,
                var_decls: (self.grammar.var_decls + tick(c, Counter::VarDecls)) as usize,
                var_defs: (self.grammar.var_defs + tick(c, Counter::VarDefs)) as usize,
                var_array_defs: (self.grammar.var_array_defs + tick(c, Counter::VarArrayDefs)) as usize,
                var_init_exprs: (self.grammar.var_init_exprs + tick(c, Counter::VarInitExprs)) as usize,
                var_init_lists: (self.grammar.var_init_lists + tick(c, Counter::VarInitLists)) as usize,
                void_func_defs: (self.grammar.void_func_defs + tick(c, Counter::VoidFuncDefs)) as usize,
                int_func_defs: (self.grammar.int_func_defs + tick(c, Counter::IntFuncDefs)) as usize,
                func_params: (self.grammar.func_params + tick(c, Counter::FuncParams)) as usize,
                func_array_params: (self.grammar.func_array_params + tick(c, Counter::FuncArrayParams)) as usize,
                func_params_max: self.grammar.func_params_max,
                local_decls: (self.grammar.local_decls + tick(c, Counter::LocalDecls)) as usize,
                assign_stmts: (self.grammar.assign_stmts + tick(c, Counter::AssignStmts)) as usize,
                expr_stmts: (self.grammar.expr_stmts + tick(c, Counter::ExprStmts)) as usize,
                block_stmts: (self.grammar.block_stmts + tick(c, Counter::BlockStmts)) as usize,
                if_stmts: (self.grammar.if_stmts + tick(c, Counter::IfStmts)) as usize,
                if_else_stmts: (self.grammar.if_else_stmts + tick(c, Counter::IfElseStmts)) as usize,
                while_stmts: (self.grammar.while_stmts + tick(c, Counter::WhileStmts)) as usize,
                break_stmts: (self.grammar.break_stmts + tick(c, Counter::BreakStmts)) as usize,
                continue_stmts: (self.grammar.continue_stmts + tick(c, Counter::ContinueStmts)) as usize,
                return_stmts: (self.grammar.return_stmts + tick(c, Counter::ReturnStmts)) as usize,
                array_accesses: (self.grammar.array_accesses + tick(c, Counter::ArrayAccesses)) as usize,
                paren_exprs: (self.grammar.paren_exprs + tick(c, Counter::ParenExprs)) as usize,
                func_calls: (self.grammar.func_calls + tick(c, Counter::FuncCalls)) as usize,
                unary_exprs: (self.grammar.unary_exprs + tick(c, Counter::UnaryExprs)) as usize,
                mul_exprs: (self.grammar.mul_exprs + tick(c, Counter::MulExprs)) as usize,
                add_exprs: (self.grammar.add_exprs + tick(c, Counter::AddExprs)) as usize,
                rel_exprs: (self.grammar.rel_exprs + tick(c, Counter::RelExprs)) as usize,
                eq_exprs: (self.grammar.eq_exprs + tick(c, Counter::EqExprs)) as usize,
                land_exprs: (self.grammar.land_exprs + tick(c, Counter::LandExprs)) as usize,
                lor_exprs: (self.grammar.lor_exprs + tick(c, Counter::LorExprs)) as usize,
                const_exprs: (self.grammar.const_exprs + tick(c, Counter::ConstExprs)) as usize,
            },
        }
    }

    /// The two ways of writing a bump give the same record.
    #[verifier::rlimit(100)]
    proof fn lemma_bumped_is_ticked(self, c: Counter)
        ensures
            self.bumped(c) == self.ticked(c),
    {
        match c {
            Counter::Ids => {},
            Counter::Decimals => {},
            Counter::Octals => {},
            Counter::Hexadecimals => {},
            Counter::UnaryOps => {},
            Counter::BinaryOps => {},
            Counter::ConstDecls => {},
            Counter::ConstDefs => {},
            Counter::ConstArrayDefs => {},
            Counter::ConstInitExprs => {},
            Counter::ConstInitLists => {},
            Counter::VarDecls => {},
            Counter::VarDefs => {},
            Counter::VarArrayDefs => {},
            Counter::VarInitExprs => {},
            Counter::VarInitLists => {},
            Counter::VoidFuncDefs => {},
            Counter::IntFuncDefs => {},
            Counter::FuncParams => {},
            Counter::FuncArrayParams => {},
            Counter::LocalDecls => {},
            Counter::AssignStmts => {},
            Counter::ExprStmts => {},
            Counter::BlockStmts => {},
            Counter::IfStmts => {},
            Counter::IfElseStmts => {},
            Counter::WhileStmts => {},
            Counter::BreakStmts => {},
            Counter::ContinueStmts => {},
            Counter::ReturnStmts => {},
            Counter::ArrayAccesses => {},
            Counter::ParenExprs => {},
            Counter::FuncCalls => {},
            Counter::UnaryExprs => {},
            Counter::MulExprs => {},
            Counter::AddExprs => {},
            Counter::RelExprs => {},
            Counter::EqExprs => {},
            Counter::LandExprs => {},
            Counter::LorExprs => {},
            Counter::ConstExprs => {},
        }
    }

    /// A bump adds one to its counter and nothing to any other.
    proof fn lemma_bumped(self, c: Counter, k: Counter)
        requires
            self.get(c) < usize::MAX,
        ensures
            self.bumped(c).get(k) == self.get(k) + tick(k, c),
    {
        self.lemma_bumped_is_ticked(c);
        reveal(Statistics::get);
        match k {
            Counter::Ids => {},
            Counter::Decimals => {},
            Counter::Octals => {},
            Counter::Hexadecimals => {},
            Counter::UnaryOps => {},
            Counter::BinaryOps => {},
            Counter::ConstDecls => {},
            Counter::ConstDefs => {},
            Counter::ConstArrayDefs => {},
            Counter::ConstInitExprs => {},
            Counter::ConstInitLists => {},
            Counter::VarDecls => {},
            Counter::VarDefs => {},
            Counter::VarArrayDefs => {},
            Counter::VarInitExprs => {},
            Counter::VarInitLists => {},
            Counter::VoidFuncDefs => {},
            Counter::IntFuncDefs => {},
            Counter::FuncParams => {},
            Counter::FuncArrayParams => {},
            Counter::LocalDecls => {},
            Counter::AssignStmts => {},
            Counter::ExprStmts => {},
            Counter::BlockStmts => {},
            Counter::IfStmts => {},
            Counter::IfElseStmts => {},
            Counter::WhileStmts => {},
            Counter::BreakStmts => {},
            Counter::ContinueStmts => {},
            Counter::ReturnStmts => {},
            Counter::ArrayAccesses => {},
            Counter::ParenExprs => {},
            Counter::FuncCalls => {},
            Counter::UnaryExprs => {},
            Counter::MulExprs => {},
            Counter::AddExprs => {},
            Counter::RelExprs => {},
            Counter::EqExprs => {},
            Counter::LandExprs => {},
            Counter::LorExprs => {},
            Counter::ConstExprs => {},
        }
    }

    /// Adds one to the counter `c` and leaves every other field as it was.
    pub fn bump(&mut self, c: Counter)
        requires
            old(self).get(c) < usize::MAX,
        ensures
            forall|k: Counter| #[trigger] final(self).get(k) == old(self).get(k) + tick(k, c),
            final(self).widest() == old(self).widest(),
    {
        match c {
            Counter::Ids => {
                assert(self.lexical.ids < usize::MAX) by {
                    reveal(Statistics::get);
                }
                self.lexical.ids = self.lexical.ids + 1;
            },
            Counter::Decimals => {
                assert(self.lexical.decimals < usize::MAX) by {
                    reveal(Statistics::get);
                }
                self.lexical.decimals = self.lexical.decimals + 1;
            },
            Counter::Octals => {
                assert(self.lexical.octals < usize::MAX) by {
                    reveal(Statistics::get);
                }
                self.lexical.octals = self.lexical.octals + 1;
            },
            Counter::Hexadecimals => {
                assert(self.lexical.hexadecimals < usize::MAX) by {
                    reveal(Statistics::get);
                }
                self.lexical.hexadecimals = self.lexical.hexadecimals + 1;
            },
            Counter::UnaryOps => {
                assert(self.lexical.unary_ops < usize::MAX) by {
                    reveal(Statistics::get);
                }
                self.lexical.unary_ops = self.lexical.unary_ops + 1;
            },
            Counter::BinaryOps => {
                assert(self.lexical.binary_ops < usize::MAX) by {
                    reveal(Statistics::get);
                }
                self.lexical.binary_ops = self.lexical.binary_ops + 1;
            },
            Counter::ConstDecls => {
                assert(self.grammar.const_decls < usize::MAX) by {
                    reveal(Statistics::get);
                }
                self.grammar.const_decls = self.grammar.const_decls + 1;
            },
            Counter::ConstDefs => {
                assert(self.grammar.const_defs < usize::MAX) by {
                    reveal(Statistics::get);
                }
                self.grammar.const_defs = self.grammar.const_defs + 1;
            },
            Counter::ConstArrayDefs => {
                assert(self.grammar.const_array_defs < usize::MAX) by {
                    reveal(Statistics::get);
                }
                self.grammar.const_array_defs = self.grammar.const_array_defs + 1;
            },
            Counter::ConstInitExprs => {
                assert(self.grammar.const_init_exprs < usize::MAX) by {
                    reveal(Statistics::get);
                }
                self.grammar.const_init_exprs = self.grammar.const_init_exprs + 1;
            },
            Counter::ConstInitLists => {
                assert(self.grammar.const_init_lists < usize::MAX) by {
                    reveal(Statistics::get);
                }
                self.grammar.const_init_lists = self.grammar.const_init_lists + 1;
            },
            Counter::VarDecls => {
                assert(self.grammar.var_decls < usize::MAX) by {
                    reveal(Statistics::get);
                }
                self.grammar.var_decls = self.grammar.var_decls + 1;
            },
            Counter::VarDefs => {
                assert(self.grammar.var_defs < usize::MAX) by {
                    reveal(Statistics::get);
                }
                self.grammar.var_defs = self.grammar.var_defs + 1;
            },
            Counter::VarArrayDefs => {
                assert(self.grammar.var_array_defs < usize::MAX) by {
                    reveal(Statistics::get);
                }
                self.grammar.var_array_defs = self.grammar.var_array_defs + 1;
            },
            Counter::VarInitExprs => {
                assert(self.grammar.var_init_exprs < usize::MAX) by {
                    reveal(Statistics::get);
                }
                self.grammar.var_init_exprs = self.grammar.var_init_exprs + 1;
            },
            Counter::VarInitLists => {
                assert(self.grammar.var_init_lists < usize::MAX) by {
                    reveal(Statistics::get);
                }
                self.grammar.var_init_lists = self.grammar.var_init_lists + 1;
            },
            Counter::VoidFuncDefs => {
                assert(self.grammar.void_func_defs < usize::MAX) by {
                    reveal(Statistics::get);
                }
                self.grammar.void_func_defs = self.grammar.void_func_defs + 1;
            },
            Counter::IntFuncDefs => {
                assert(self.grammar.int_func_defs < usize::MAX) by {
                    reveal(Statistics::get);
                }
                self.grammar.int_func_defs = self.grammar.int_func_defs + 1;
            },
            Counter::FuncParams => {
                assert(self.grammar.func_params < usize::MAX) by {
                    reveal(Statistics::get);
                }
                self.grammar.func_params = self.grammar.func_params + 1;
            },
            Counter::FuncArrayParams => {
                assert(self.grammar.func_array_params < usize::MAX) by {
                    reveal(Statistics::get);
                }
                self.grammar.func_array_params = self.grammar.func_array_params + 1;
            },
            Counter::LocalDecls => {
                assert(self.grammar.local_decls < usize::MAX) by {
                    reveal(Statistics::get);
                }
                self.grammar.local_decls = self.grammar.local_decls + 1;
            },
            Counter::AssignStmts => {
                assert(self.grammar.assign_stmts < usize::MAX) by {
                    reveal(Statistics::get);
                }
                self.grammar.assign_stmts = self.grammar.assign_stmts + 1;
            },
            Counter::ExprStmts => {
                assert(self.grammar.expr_stmts < usize::MAX) by {
                    reveal(Statistics::get);
                }
                self.grammar.expr_stmts = self.grammar.expr_stmts + 1;
            },
            Counter::BlockStmts => {
                assert(self.grammar.block_stmts < usize::MAX) by {
                    reveal(Statistics::get);
                }
                self.grammar.block_stmts = self.grammar.block_stmts + 1;
            },
            Counter::IfStmts => {
                assert(self.grammar.if_stmts < usize::MAX) by {
                    reveal(Statistics::get);
                }
                self.grammar.if_stmts = self.grammar.if_stmts + 1;
            },
            Counter::IfElseStmts => {
                assert(self.grammar.if_else_stmts < usize::MAX) by {
                    reveal(Statistics::get);
                }
                self.grammar.if_else_stmts = self.grammar.if_else_stmts + 1;
            },
            Counter::WhileStmts => {
                assert(self.grammar.while_stmts < usize::MAX) by {
                    reveal(Statistics::get);
                }
                self.grammar.while_stmts = self.grammar.while_stmts + 1;
            },
            Counter::BreakStmts => {
                assert(self.grammar.break_stmts < usize::MAX) by {
                    reveal(Statistics::get);
                }
                self.grammar.break_stmts = self.grammar.break_stmts + 1;
            },
            Counter::ContinueStmts => {
                assert(self.grammar.continue_stmts < usize::MAX) by {
                    reveal(Statistics::get);
                }
                self.grammar.continue_stmts = self.grammar.continue_stmts + 1;
            },
            Counter::ReturnStmts => {
                assert(self.grammar.return_stmts < usize::MAX) by {
                    reveal(Statistics::get);
                }
                self.grammar.return_stmts = self.grammar.return_stmts + 1;
            },
            Counter::ArrayAccesses => {
                assert(self.grammar.array_accesses < usize::MAX) by {
                    reveal(Statistics::get);
                }
                self.grammar.array_accesses = self.grammar.array_accesses + 1;
            },
            Counter::ParenExprs => {
                assert(self.grammar.paren_exprs < usize::MAX) by {
                    reveal(Statistics::get);
                }
                self.grammar.paren_exprs = self.grammar.paren_exprs + 1;
            },
            Counter::FuncCalls => {
                assert(self.grammar.func_calls < usize::MAX) by {
                    reveal(Statistics::get);
                }
                self.grammar.func_calls = self.grammar.func_calls + 1;
            },
            Counter::UnaryExprs => {
                assert(self.grammar.unary_exprs < usize::MAX) by {
                    reveal(Statistics::get);
                }
                self.grammar.unary_exprs = self.grammar.unary_exprs + 1;
            },
            Counter::MulExprs => {
                assert(self.grammar.mul_exprs < usize::MAX) by {
                    reveal(Statistics::get);
                }
                self.grammar.mul_exprs = self.grammar.mul_exprs + 1;
            },
            Counter::AddExprs => {
                assert(self.grammar.add_exprs < usize::MAX) by {
                    reveal(Statistics::get);
                }
                self.grammar.add_exprs = self.grammar.add_exprs + 1;
            },
            Counter::RelExprs => {
                assert(self.grammar.rel_exprs < usize::MAX) by {
                    reveal(Statistics::get);
                }
                self.grammar.rel_exprs = self.grammar.rel_exprs + 1;
            },
            Counter::EqExprs => {
                assert(self.grammar.eq_exprs < usize::MAX) by {
                    reveal(Statistics::get);
                }
                self.grammar.eq_exprs = self.grammar.eq_exprs + 1;
            },
            Counter::LandExprs => {
                assert(self.grammar.land_exprs < usize::MAX) by {
                    reveal(Statistics::get);
                }
                self.grammar.land_exprs = self.grammar.land_exprs + 1;
            },
            Counter::LorExprs => {
                assert(self.grammar.lor_exprs < usize::MAX) by {
                    reveal(Statistics::get);
                }
                self.grammar.lor_exprs = self.grammar.lor_exprs + 1;
            },
            Counter::ConstExprs => {
                assert(self.grammar.const_exprs < usize::MAX) by {
                    reveal(Statistics::get);
                }
                self.grammar.const_exprs = self.grammar.const_exprs + 1;
            },
        }
        assert(*self == old(self).bumped(c));
        assert forall|k: Counter| #[trigger] self.get(k) == old(self).get(k) + tick(k, c) by {
            old(self).lemma_bumped(c, k);
        }
    }

    /// Takes the running maximum of parameters per function over one more
    /// function, which has `n` parameters; the additive counters stay.
    pub fn observe_params(&mut self, n: usize)
        ensures
            final(self).widest() == larger(old(self).widest(), n as nat),
            forall|k: Counter| #[trigger] final(self).get(k) == old(self).get(k),
    {
        reveal(Statistics::get);
        if n > self.grammar.func_params_max {
            self.grammar.func_params_max = n;
        }
    }

    /// The two groups of the record, each as ordered pairs of key and value.
    pub open spec fn groups(self) -> Seq<(Seq<char>, Seq<(Seq<char>, nat)>)> {
        seq![("lexical"@, self.lexical.pairs()), ("grammar"@, self.grammar.pairs())]
    }

    /// The record as a tree for an encoder to walk: the two groups in order,
    /// each with its key and its ordered pairs of key and value.
    pub fn entries(&self) -> (r: Vec<(&'static str, Vec<(&'static str, usize)>)>)
        ensures
            r@.len() == 2,
            r@[0].0@ == "lexical"@,
            r@[1].0@ == "grammar"@,
            r@[0].1@.len() == self.lexical.pairs().len(),
            r@[1].1@.len() == self.grammar.pairs().len(),
            forall|i: int|
                0 <= i < r@[0].1@.len() ==> (#[trigger] r@[0].1@[i]).0@ == self.lexical.pairs()[i].0
                    && r@[0].1@[i].1 == self.lexical.pairs()[i].1,
            forall|i: int|
                0 <= i < r@[1].1@.len() ==> (#[trigger] r@[1].1@[i]).0@ == self.grammar.pairs()[i].0
                    && r@[1].1@[i].1 == self.grammar.pairs()[i].1,
    {
        let mut r: Vec<(&'static str, Vec<(&'static str, usize)>)> = Vec::new();
        r.push(("lexical", self.lexical.entries()));
        r.push(("grammar", self.grammar.entries()));
        r
    }
}

impl Default for LexicalStatistics {
    fn default() -> (r: Self)
        ensures
            r == Self::zero(),
    {
        LexicalStatistics::new()
    }
}

impl Default for GrammarStatistics {
    fn default() -> (r: Self)
        ensures
            r == Self::zero(),
    {
        GrammarStatistics::new()
    }
}

impl Default for Statistics {
    fn default() -> (r: Self)
        ensures
            r == Self::zero(),
    {
        Statistics::new()
    }
}

} // verus!
