use syan::parser::{recognize, recognize_into};
use syan::{parse, Counter, Error, GrammarStatistics, LexicalStatistics, Statistics, Token};

fn stats(program: &str) -> Statistics {
    match parse(program) {
        Ok(s) => s,
        Err(_) => panic!("no program: {}", program),
    }
}

fn statement_total(s: &Statistics) -> usize {
    let g = &s.grammar;
    g.assign_stmts
        + g.expr_stmts
        + g.block_stmts
        + g.if_stmts
        + g.if_else_stmts
        + g.while_stmts
        + g.break_stmts
        + g.continue_stmts
        + g.return_stmts
}

const EVERYTHING: &str = "
const int N = 010, M[2] = {1, 0x1F};
int g, h[3] = {1, 2, 3}, k = 5;
void p(int a, int b[], int c[][3]) { ; }
int main() {
  int x = 1;
  x = +x;
  { x; }
  if (x) x = 2;
  if (x) x = 3; else x = 4;
  while (x < 10 && x != 5 || !x) { x = x + 1 * 2; if (x >= 7) break; else continue; }
  p(x, h, M);
  h[1] = M[0];
  return (x - 1) / 2 % 3 == 0;
}
";

#[test]
fn function_with_declarations_and_branch() {
    let s = stats("int main(){int a=1;int b[3]={1,2,3};if(a<b[0])return a;else return 0;}");
    assert_eq!(s.grammar.int_func_defs, 1);
    assert_eq!(s.grammar.void_func_defs, 0);
    assert_eq!(s.grammar.var_decls, 2);
    assert_eq!(s.grammar.var_defs, 2);
    assert_eq!(s.grammar.var_array_defs, 1);
    assert_eq!(s.grammar.var_init_lists, 1);
    assert_eq!(s.grammar.var_init_exprs, 4);
    assert_eq!(s.grammar.local_decls, 2);
    assert_eq!(s.grammar.const_exprs, 1);
    assert_eq!(s.grammar.rel_exprs, 1);
    assert_eq!(s.grammar.array_accesses, 1);
    assert_eq!(s.grammar.if_else_stmts, 1);
    assert_eq!(s.grammar.if_stmts, 0);
    assert_eq!(s.grammar.return_stmts, 2);
    assert_eq!(s.grammar.block_stmts, 0);
    assert_eq!(s.grammar.func_params, 0);
    assert_eq!(s.grammar.func_params_max, 0);
    assert_eq!(s.lexical.ids, 6);
    assert_eq!(s.lexical.decimals, 7);
    assert_eq!(s.lexical.octals, 0);
    assert_eq!(s.lexical.hexadecimals, 0);
    assert_eq!(s.lexical.binary_ops, 1);
    assert_eq!(s.lexical.unary_ops, 0);
}

#[test]
fn every_construct_is_counted() {
    let expected = Statistics {
        lexical: LexicalStatistics {
            ids: 32,
            decimals: 23,
            octals: 1,
            hexadecimals: 1,
            unary_ops: 2,
            binary_ops: 11,
        },
        grammar: GrammarStatistics {
            const_decls: 1,
            const_defs: 2,
            const_array_defs: 1,
            const_init_exprs: 3,
            const_init_lists: 1,
            var_decls: 2,
            var_defs: 4,
            var_array_defs: 1,
            var_init_exprs: 5,
            var_init_lists: 1,
            void_func_defs: 1,
            int_func_defs: 1,
            func_params: 3,
            func_array_params: 2,
            func_params_max: 3,
            local_decls: 1,
            assign_stmts: 6,
            expr_stmts: 3,
            block_stmts: 2,
            if_stmts: 1,
            if_else_stmts: 2,
            while_stmts: 1,
            break_stmts: 1,
            continue_stmts: 1,
            return_stmts: 1,
            array_accesses: 2,
            paren_exprs: 1,
            func_calls: 1,
            unary_exprs: 2,
            mul_exprs: 3,
            add_exprs: 2,
            rel_exprs: 2,
            eq_exprs: 2,
            land_exprs: 1,
            lor_exprs: 1,
            const_exprs: 5,
        },
    };
    assert_eq!(stats(EVERYTHING), expected);
}

#[test]
fn one_of_each_where_the_grammar_allows_it() {
    let s = stats(
        "const int c[1] = {0x1};\n\
         void f(int p[]) {\n\
           int v[01] = {2};\n\
           while (!(v[0] * 1 + 1 < 1 == 1 && 1 || 1)) { if (1) break; else continue; }\n\
           if (1) v[0] = f(v);\n\
           return;\n\
         }",
    );
    let g = s.grammar;
    assert_eq!(g.const_decls, 1);
    assert_eq!(g.const_defs, 1);
    assert_eq!(g.const_array_defs, 1);
    assert_eq!(g.const_init_exprs, 1);
    assert_eq!(g.const_init_lists, 1);
    assert_eq!(g.var_decls, 1);
    assert_eq!(g.var_defs, 1);
    assert_eq!(g.var_array_defs, 1);
    assert_eq!(g.var_init_exprs, 1);
    assert_eq!(g.var_init_lists, 1);
    assert_eq!(g.void_func_defs, 1);
    assert_eq!(g.int_func_defs, 0);
    assert_eq!(g.func_params, 1);
    assert_eq!(g.func_array_params, 1);
    assert_eq!(g.func_params_max, 1);
    assert_eq!(g.local_decls, 1);
    assert_eq!(g.assign_stmts, 1);
    assert_eq!(g.expr_stmts, 0);
    assert_eq!(g.block_stmts, 1);
    assert_eq!(g.if_stmts, 1);
    assert_eq!(g.if_else_stmts, 1);
    assert_eq!(g.while_stmts, 1);
    assert_eq!(g.break_stmts, 1);
    assert_eq!(g.continue_stmts, 1);
    assert_eq!(g.return_stmts, 1);
    assert_eq!(g.paren_exprs, 1);
    assert_eq!(g.func_calls, 1);
    assert_eq!(g.unary_exprs, 1);
    assert_eq!(g.mul_exprs, 1);
    assert_eq!(g.add_exprs, 1);
    assert_eq!(g.rel_exprs, 1);
    assert_eq!(g.eq_exprs, 1);
    assert_eq!(g.land_exprs, 1);
    assert_eq!(g.lor_exprs, 1);
    // a constant array needs a dimension and an initial value, each a
    // constant expression, and the variable's dimension is a third
    assert_eq!(g.const_exprs, 3);
    assert_eq!(g.array_accesses, 2);
    assert_eq!(s.lexical.octals, 1);
    assert_eq!(s.lexical.hexadecimals, 1);
    assert_eq!(s.lexical.unary_ops, 1);
    assert_eq!(s.lexical.binary_ops, 6);
}

#[test]
fn statement_counters_add_up_to_the_statements() {
    // one empty statement in `p`, seventeen statements in `main`
    assert_eq!(statement_total(&stats(EVERYTHING)), 18);
    assert_eq!(statement_total(&stats("int a; const int b = 1;")), 0);
    assert_eq!(statement_total(&stats("void f() { { { ; } } }")), 3);
    assert_eq!(statement_total(&stats("void f() { while (1) if (2) ; else { break; } }")), 5);
}

#[test]
fn widest_parameter_list() {
    assert_eq!(stats("int a;").grammar.func_params_max, 0);
    assert_eq!(stats("void f() {} int g() {}").grammar.func_params_max, 0);
    let s = stats("void f(int a, int b) {} int g() {} int h(int a, int b[], int c) {} void i(int z) {}");
    assert_eq!(s.grammar.func_params_max, 3);
    assert_eq!(s.grammar.func_params, 6);
    assert_eq!(s.grammar.func_array_params, 1);
    assert_eq!(s.grammar.void_func_defs, 2);
    assert_eq!(s.grammar.int_func_defs, 2);
}

#[test]
fn dangling_else_binds_to_the_nearest_if() {
    let s = stats("void f(){ if (a) if (b) x; else y; }");
    assert_eq!(s.grammar.if_stmts, 1);
    assert_eq!(s.grammar.if_else_stmts, 1);
    assert_eq!(s.grammar.expr_stmts, 2);
    assert_eq!(s.lexical.ids, 5);
    let s = stats("void f(){ if (a) while (b) if (c) x; else y; else z; }");
    assert_eq!(s.grammar.if_stmts, 0);
    assert_eq!(s.grammar.if_else_stmts, 2);
    let s = stats("void f(){ if (a) { if (b) x; } else y; }");
    assert_eq!(s.grammar.if_stmts, 1);
    assert_eq!(s.grammar.if_else_stmts, 1);
    assert_eq!(s.grammar.block_stmts, 1);
}

#[test]
fn literals_are_counted_by_base() {
    let s = stats("int a = 0, b = 010, c = 0x1A, d = 10;");
    assert_eq!(s.lexical.decimals, 2);
    assert_eq!(s.lexical.octals, 1);
    assert_eq!(s.lexical.hexadecimals, 1);
    assert_eq!(s.grammar.var_init_exprs, 4);
    assert_eq!(s.lexical.ids, 4);
}

#[test]
fn operators_by_precedence() {
    let s = stats("int a = 1 + 2 * 3 - 4 / 5 % 6;");
    assert_eq!(s.grammar.add_exprs, 2);
    assert_eq!(s.grammar.mul_exprs, 3);
    assert_eq!(s.lexical.binary_ops, 5);
    let s = stats("int a = 1 < 2 == 3 > 4 != 5 <= 6 && 7 >= 8 || 9;");
    assert_eq!(s.grammar.rel_exprs, 4);
    assert_eq!(s.grammar.eq_exprs, 2);
    assert_eq!(s.grammar.land_exprs, 1);
    assert_eq!(s.grammar.lor_exprs, 1);
    assert_eq!(s.lexical.binary_ops, 8);
    let s = stats("int a = -+!b - -c;");
    assert_eq!(s.grammar.unary_exprs, 4);
    assert_eq!(s.lexical.unary_ops, 4);
    assert_eq!(s.grammar.add_exprs, 1);
    assert_eq!(s.lexical.binary_ops, 1);
}

#[test]
fn constant_declarations() {
    let s = stats("const int N = 10, M[2][3] = {{1, 2, 3}, {}, 4};");
    assert_eq!(s.grammar.const_decls, 1);
    assert_eq!(s.grammar.const_defs, 2);
    assert_eq!(s.grammar.const_array_defs, 1);
    assert_eq!(s.grammar.const_init_lists, 3);
    assert_eq!(s.grammar.const_init_exprs, 5);
    assert_eq!(s.grammar.const_exprs, 7);
    assert_eq!(s.grammar.local_decls, 0);
    assert_eq!(s.grammar.var_decls, 0);
}

#[test]
fn array_parameters_hold_plain_expressions() {
    let s = stats("void f(int a[][2 + 1][n]) {}");
    assert_eq!(s.grammar.func_params, 1);
    assert_eq!(s.grammar.func_array_params, 1);
    assert_eq!(s.grammar.const_exprs, 0);
    assert_eq!(s.grammar.add_exprs, 1);
    assert_eq!(s.grammar.array_accesses, 0);
    assert_eq!(s.lexical.ids, 3);
}

#[test]
fn calls_and_subscripts() {
    let s = stats("void f() { g(); h(1, a[2][3], i(j)); a[0] = b[1][2]; }");
    assert_eq!(s.grammar.func_calls, 3);
    assert_eq!(s.grammar.array_accesses, 5);
    assert_eq!(s.grammar.expr_stmts, 2);
    assert_eq!(s.grammar.assign_stmts, 1);
    assert_eq!(s.lexical.ids, 8);
}

#[test]
fn counters_by_name() {
    let s = stats(EVERYTHING);
    assert_eq!(s.count(Counter::Ids), 32);
    assert_eq!(s.count(Counter::ConstExprs), 5);
    assert_eq!(s.count(Counter::LorExprs), 1);
    assert_eq!(Counter::Ids.name(), "ids");
    assert_eq!(Counter::FuncArrayParams.name(), "func_array_params");
}

#[test]
fn the_same_text_gives_the_same_statistics() {
    assert_eq!(parse(EVERYTHING), parse(EVERYTHING));
}

#[test]
fn malformed_programs_are_refused() {
    // unmatched brace
    assert_eq!(parse("int main() { return 0; "), Err(Error::Parser));
    assert_eq!(parse("int main() { return 0; } }"), Err(Error::Parser));
    // missing semicolon
    assert_eq!(parse("int main() { return 0 }"), Err(Error::Parser));
    assert_eq!(parse("int a = 1"), Err(Error::Parser));
    // a type that the language does not have
    assert_eq!(parse("float x = 1;"), Err(Error::Parser));
    // no item at all
    assert_eq!(parse(""), Err(Error::Parser));
    assert_eq!(parse(" \n\t "), Err(Error::Parser));
    // text after the last item
    assert_eq!(parse("int a = 1; }"), Err(Error::Parser));
    assert_eq!(parse("int a = 1; 2"), Err(Error::Parser));
    // a byte that starts no token
    assert_eq!(parse("int a = 1 $;"), Err(Error::Parser));
    assert_eq!(parse("int \u{e9} = 1;"), Err(Error::Parser));
    assert_eq!(parse("int a = 1 & 2;"), Err(Error::Parser));
    // only a name with its subscripts can be assigned to
    assert_eq!(parse("void f() { 1 = 2; }"), Err(Error::Parser));
    assert_eq!(parse("void f() { (a) = 2; }"), Err(Error::Parser));
    assert_eq!(parse("void f() { a + b = 2; }"), Err(Error::Parser));
    // a constant needs its value
    assert_eq!(parse("const int a;"), Err(Error::Parser));
    // an `else` needs its `if`
    assert_eq!(parse("void f() { else ; }"), Err(Error::Parser));
    // statements stand in functions only
    assert_eq!(parse("return 0;"), Err(Error::Parser));
    // the first dimension of an array parameter is empty
    assert_eq!(parse("void f(int a[3]) {}"), Err(Error::Parser));
    // two literals side by side
    assert_eq!(parse("int a = 09;"), Err(Error::Parser));
    assert_eq!(parse("int a = 0x;"), Err(Error::Parser));
}

#[test]
fn the_empty_statement_and_bare_return() {
    let s = stats("void f() { ; return; }");
    assert_eq!(s.grammar.expr_stmts, 1);
    assert_eq!(s.grammar.return_stmts, 1);
    assert_eq!(s.lexical.ids, 1);
}

#[test]
fn a_long_program() {
    let mut program = String::from("int total;\nint main() {\n");
    for i in 0..5000 {
        program.push_str("  total = total + ");
        program.push_str(&i.to_string());
        program.push_str(";\n");
    }
    program.push_str("  return total;\n}\n");
    let s = stats(&program);
    assert_eq!(s.grammar.assign_stmts, 5000);
    assert_eq!(s.grammar.add_exprs, 5000);
    assert_eq!(s.lexical.binary_ops, 5000);
    assert_eq!(s.lexical.ids, 2 + 2 * 5000 + 1);
    assert_eq!(s.lexical.decimals, 5000);
    assert_eq!(s.grammar.return_stmts, 1);
    assert_eq!(statement_total(&s), 5001);
}

#[test]
fn a_deep_program() {
    let depth = 200;
    let mut program = String::from("int f() { return ");
    for _ in 0..depth {
        program.push('(');
    }
    program.push('1');
    for _ in 0..depth {
        program.push(')');
    }
    program.push_str("; }");
    let s = stats(&program);
    assert_eq!(s.grammar.paren_exprs, depth);
    assert_eq!(s.lexical.decimals, 1);
    let mut program = String::from("void g() { ");
    for _ in 0..depth {
        program.push_str("while (1) { ");
    }
    for _ in 0..depth {
        program.push_str("} ");
    }
    program.push('}');
    let s = stats(&program);
    assert_eq!(s.grammar.while_stmts, depth);
    assert_eq!(s.grammar.block_stmts, depth);
}

#[test]
fn parsing_into_statistics_that_the_caller_holds() {
    let mut s = Statistics::new();
    assert_eq!(syan::parse_into(&mut s, EVERYTHING), Ok(()));
    assert_eq!(s, stats(EVERYTHING));
    // a second program adds to the counters and widens the maximum
    assert_eq!(syan::parse_into(&mut s, "void q(int a, int b, int c, int d) {}"), Ok(()));
    assert_eq!(s.lexical.ids, 32 + 5);
    assert_eq!(s.grammar.func_params, 3 + 4);
    assert_eq!(s.grammar.func_params_max, 4);
    assert_eq!(s.grammar.void_func_defs, 2);
    assert_eq!(s.grammar.assign_stmts, 6);
    let mut s = Statistics::new();
    assert_eq!(syan::parse_into(&mut s, "int a = ;"), Err(Error::Parser));
}

#[test]
fn recognizing_tokens() {
    let ts = [Token::Int, Token::Ident, Token::Semicolon];
    let s = recognize(&ts).unwrap();
    assert_eq!(s, stats("int a;"));
    assert_eq!(recognize(&[]), None);
    assert_eq!(recognize(&[Token::Int, Token::Ident]), None);
    let mut s = Statistics::new();
    assert!(recognize_into(&ts, &mut s));
    assert!(recognize_into(&ts, &mut s));
    assert_eq!(s.grammar.var_decls, 2);
    assert!(!recognize_into(&[Token::Semicolon], &mut s));
}
