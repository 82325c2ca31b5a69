use cddl_cat::ast::Occur;
use cddl_cat::flatten::occur_bounds;
use cddl_cat::lexer::{ident, occur, uint_u64, Step};

fn chars(s: &str) -> Vec<char> {
    s.chars().collect()
}

#[test]
fn test_ident() {
    let v = chars("a");
    assert!(matches!(ident(&v, 0), Step::Found(1, ref s) if s == "a"));
    let v = chars("a1");
    assert!(matches!(ident(&v, 0), Step::Found(2, ref s) if s == "a1"));
    let v = chars("a..b");
    assert!(matches!(ident(&v, 0), Step::Found(4, ref s) if s == "a..b"));
    let v = chars("a.1");
    assert!(matches!(ident(&v, 0), Step::Found(3, ref s) if s == "a.1"));
    let v = chars("a1.");
    assert!(matches!(ident(&v, 0), Step::Found(2, ref s) if s == "a1"));
    let v = chars("@a1");
    assert!(matches!(ident(&v, 0), Step::Found(3, ref s) if s == "@a1"));
    let v = chars("1a");
    assert!(matches!(ident(&v, 0), Step::Miss));
}

#[test]
fn test_uint() {
    let v = chars("0");
    assert!(matches!(uint_u64(&v, 0), Step::Found(1, 0)));
    let v = chars("999");
    assert!(matches!(uint_u64(&v, 0), Step::Found(3, 999)));
    let v = chars("0x100");
    assert!(matches!(uint_u64(&v, 0), Step::Found(5, 256)));
    let v = chars("0b101");
    assert!(matches!(uint_u64(&v, 0), Step::Found(5, 5)));
    let v = chars("00");
    assert!(matches!(uint_u64(&v, 0), Step::Found(1, 0)));
}

#[test]
fn test_uint_boundary() {
    let v = chars("0xFFFFFFFFFFFFFFFF");
    assert!(matches!(uint_u64(&v, 0), Step::Found(18, u64::MAX)));
    let v = chars("0xFFFFFFFFFFFFFFFFF");
    assert!(matches!(uint_u64(&v, 0), Step::Abort(_)));
}

#[test]
fn test_ident_no_range_split() {
    let v = chars("min..max");
    assert!(matches!(ident(&v, 0), Step::Found(8, ref s) if s == "min..max"));
}

#[test]
fn test_occur() {
    let v = chars("?");
    assert!(matches!(occur(&v, 0), Step::Found(1, Occur::Optional)));
    let v = chars("+");
    assert!(matches!(occur(&v, 0), Step::Found(1, Occur::OneOrMore)));
    let v = chars("*");
    assert!(matches!(occur(&v, 0), Step::Found(1, Occur::ZeroOrMore)));
    let v = chars("*9");
    assert!(matches!(occur(&v, 0), Step::Found(2, Occur::Numbered(0, 9))));
    let v = chars("7*");
    assert!(matches!(occur(&v, 0), Step::Found(2, Occur::Numbered(7, usize::MAX))));
    let v = chars("7*9");
    assert!(matches!(occur(&v, 0), Step::Found(3, Occur::Numbered(7, 9))));
    let v = chars("0b100*0x10");
    assert!(matches!(occur(&v, 0), Step::Found(10, Occur::Numbered(4, 16))));
}

#[test]
fn test_occur_bounds_table() {
    assert_eq!(occur_bounds(&None), (1, 1));
    assert_eq!(occur_bounds(&Some(Occur::Optional)), (0, 1));
    assert_eq!(occur_bounds(&Some(Occur::ZeroOrMore)), (0, usize::MAX));
    assert_eq!(occur_bounds(&Some(Occur::OneOrMore)), (1, usize::MAX));
    assert_eq!(occur_bounds(&Some(Occur::Numbered(7, 9))), (7, 9));
}
