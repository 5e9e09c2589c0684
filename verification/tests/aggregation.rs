use syan::aggregate::{bytes_precede, name_before};
use syan::{parse, Aggregate, Statistics};

fn stats(program: &str) -> Statistics {
    parse(program).unwrap()
}

#[test]
fn a_new_aggregate_is_empty() {
    let a = Aggregate::new();
    assert_eq!(a.len(), 0);
    assert!(a.is_empty());
    assert_eq!(a.get("a.c"), None);
    assert_eq!(Aggregate::default().len(), 0);
}

#[test]
fn entries_stand_in_the_order_of_their_names() {
    let mut a = Aggregate::new();
    a.add("m.c".to_string(), stats("int m;"));
    a.add("z.c".to_string(), stats("int z, y;"));
    a.add("a.c".to_string(), stats("int a[1];"));
    a.add("dir/b.c".to_string(), stats("void f() {}"));
    assert_eq!(a.len(), 4);
    assert!(!a.is_empty());
    assert_eq!(a.name(0), "a.c");
    assert_eq!(a.name(1), "dir/b.c");
    assert_eq!(a.name(2), "m.c");
    assert_eq!(a.name(3), "z.c");
    assert_eq!(a.statistics(0), stats("int a[1];"));
    assert_eq!(a.statistics(3).grammar.var_defs, 2);
    assert_eq!(a.get("dir/b.c"), Some(stats("void f() {}")));
    assert_eq!(a.get("b.c"), None);
}

#[test]
fn the_first_registration_under_a_name_stays() {
    let mut a = Aggregate::new();
    a.add("x.c".to_string(), stats("int a;"));
    a.add("x.c".to_string(), stats("int a, b, c;"));
    assert_eq!(a.len(), 1);
    assert_eq!(a.get("x.c"), Some(stats("int a;")));
    assert_eq!(a.statistics(0).grammar.var_defs, 1);
}

#[test]
fn extending_is_a_union_in_which_this_side_stays() {
    let mut a = Aggregate::new();
    a.add("b.c".to_string(), stats("int b;"));
    a.add("d.c".to_string(), stats("int d;"));
    let mut b = Aggregate::new();
    b.add("a.c".to_string(), stats("int a;"));
    b.add("b.c".to_string(), stats("int b, other;"));
    b.add("e.c".to_string(), stats("int e;"));
    a.extend(&b);
    assert_eq!(a.len(), 4);
    assert_eq!(a.name(0), "a.c");
    assert_eq!(a.name(1), "b.c");
    assert_eq!(a.name(2), "d.c");
    assert_eq!(a.name(3), "e.c");
    assert_eq!(a.get("b.c"), Some(stats("int b;")));
    assert_eq!(b.len(), 3);
    a.extend(&Aggregate::new());
    assert_eq!(a.len(), 4);
}

#[test]
fn names_compare_as_strings_do() {
    let names = ["", "a", "A", "a.c", "ab", "b", "\u{e9}", "z", "dir/a.c", "dir0", "~"];
    for x in names {
        for y in names {
            assert_eq!(name_before(x, y), x < y, "{:?} {:?}", x, y);
            assert_eq!(bytes_precede(x.as_bytes(), y.as_bytes()), x.as_bytes() < y.as_bytes());
        }
    }
}
