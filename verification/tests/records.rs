use syan::{parse, Counter, GrammarStatistics, LexicalStatistics, Statistics};

#[test]
fn a_new_record_is_all_zero() {
    let s = Statistics::new();
    assert_eq!(s, Statistics::default());
    assert_eq!(s.lexical, LexicalStatistics::new());
    assert_eq!(s.grammar, GrammarStatistics::default());
    assert_eq!(s.lexical.ids, 0);
    assert_eq!(s.grammar.func_params_max, 0);
    assert_eq!(s.grammar.const_exprs, 0);
    for (_, group) in s.entries() {
        for (_, value) in group {
            assert_eq!(value, 0);
        }
    }
}

#[test]
fn a_bump_adds_one_to_one_counter() {
    let mut s = Statistics::new();
    s.bump(Counter::Ids);
    s.bump(Counter::Ids);
    s.bump(Counter::WhileStmts);
    assert_eq!(s.lexical.ids, 2);
    assert_eq!(s.grammar.while_stmts, 1);
    assert_eq!(s.count(Counter::Ids), 2);
    assert_eq!(s.count(Counter::WhileStmts), 1);
    assert_eq!(s.count(Counter::Decimals), 0);
    let mut expected = Statistics::new();
    expected.lexical.ids = 2;
    expected.grammar.while_stmts = 1;
    assert_eq!(s, expected);
}

#[test]
fn the_running_maximum_never_falls() {
    let mut s = Statistics::new();
    s.observe_params(2);
    assert_eq!(s.grammar.func_params_max, 2);
    s.observe_params(0);
    assert_eq!(s.grammar.func_params_max, 2);
    s.observe_params(5);
    assert_eq!(s.grammar.func_params_max, 5);
    s.observe_params(5);
    assert_eq!(s.grammar.func_params_max, 5);
    assert_eq!(s.grammar.func_params, 0);
}

#[test]
fn lexical_entries_in_order() {
    let s = parse("int a = -1 + 010 * 0xF;").unwrap();
    assert_eq!(
        s.lexical.entries(),
        vec![
            ("ids", 1),
            ("decimals", 1),
            ("octals", 1),
            ("hexadecimals", 1),
            ("unary_ops", 1),
            ("binary_ops", 2),
        ]
    );
}

#[test]
fn grammar_entries_in_order() {
    let s = parse("void f(int a, int b[]) { if (a) return; }").unwrap();
    let keys: Vec<&str> = s.grammar.entries().into_iter().map(|(k, _)| k).collect();
    assert_eq!(
        keys,
        vec![
            "const_decls",
            "const_defs",
            "const_array_defs",
            "const_init_exprs",
            "const_init_lists",
            "var_decls",
            "var_defs",
            "var_array_defs",
            "var_init_exprs",
            "var_init_lists",
            "void_func_defs",
            "int_func_defs",
            "func_params",
            "func_array_params",
            "func_params_max",
            "local_decls",
            "assign_stmts",
            "expr_stmts",
            "block_stmts",
            "if_stmts",
            "if_else_stmts",
            "while_stmts",
            "break_stmts",
            "continue_stmts",
            "return_stmts",
            "array_accesses",
            "paren_exprs",
            "func_calls",
            "unary_exprs",
            "mul_exprs",
            "add_exprs",
            "rel_exprs",
            "eq_exprs",
            "land_exprs",
            "lor_exprs",
            "const_exprs",
        ]
    );
    let entries = s.grammar.entries();
    assert_eq!(entries[10], ("void_func_defs", 1));
    assert_eq!(entries[12], ("func_params", 2));
    assert_eq!(entries[13], ("func_array_params", 1));
    assert_eq!(entries[14], ("func_params_max", 2));
    assert_eq!(entries[19], ("if_stmts", 1));
    assert_eq!(entries[24], ("return_stmts", 1));
    assert_eq!(entries[0], ("const_decls", 0));
}

#[test]
fn the_two_groups_in_order() {
    let s = parse("int a;").unwrap();
    let groups = s.entries();
    assert_eq!(groups.len(), 2);
    assert_eq!(groups[0].0, "lexical");
    assert_eq!(groups[1].0, "grammar");
    assert_eq!(groups[0].1, s.lexical.entries());
    assert_eq!(groups[1].1, s.grammar.entries());
    assert_eq!(groups[0].1[0], ("ids", 1));
    assert_eq!(groups[1].1[5], ("var_decls", 1));
}

#[test]
fn counter_names_are_the_keys_of_the_entries() {
    let s = parse("int a;").unwrap();
    assert_eq!(Counter::Ids.name(), s.lexical.entries()[0].0);
    assert_eq!(Counter::BinaryOps.name(), s.lexical.entries()[5].0);
    assert_eq!(Counter::ConstDecls.name(), s.grammar.entries()[0].0);
    assert_eq!(Counter::FuncArrayParams.name(), s.grammar.entries()[13].0);
    assert_eq!(Counter::LocalDecls.name(), s.grammar.entries()[15].0);
    assert_eq!(Counter::ConstExprs.name(), s.grammar.entries()[35].0);
}
