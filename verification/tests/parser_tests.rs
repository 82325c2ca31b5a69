use cddl_cat::ast::{
    Cddl, GrpChoice, GrpEnt, GrpEntVal, Group, Member, MemberKey, MemberKeyVal, Rule, RuleVal,
    Type, Type1, Type2, TypeControl, TypeRange, Value,
};
use cddl_cat::lexer::{bytestring, float_or_int, is_unescaped_schar, schar, sesc, text_literal,
    unescaped_schar, value, ws, Step};
use cddl_cat::parser::{
    cddl, grpchoice, grpent, grpent_member, grpent_parens, grpent_val, memberkey_bareword,
    memberkey_type1, rule, type1, type2,
};

fn chars(s: &str) -> Vec<char> {
    s.chars().collect()
}

fn tn(name: &str) -> Type {
    Type(vec![Type1::Simple(Type2::Typename(name.to_string()))])
}

#[test]
fn test_whitespace() {
    let cddl_text = "  ; a comment\n        \r\n; another;;;comment\n  ";
    let v = chars(cddl_text);
    assert_eq!(ws(&v, 0), v.len());
}

#[test]
fn test_float_or_int() {
    let float_at = |s: &str, end: usize, want: f64| {
        let v = chars(s);
        match float_or_int(&v, 0) {
            Step::Found(p, Value::Float(lex)) => {
                assert_eq!(p, end);
                assert_eq!(lex.parse::<f64>().unwrap(), want);
            }
            other => panic!("expected float for {}: {:?}", s, other),
        }
    };
    float_at("0.0", 3, 0.0);
    float_at("1e99", 4, 1e99);
    float_at("-1e-99", 6, -1e-99);

    assert_eq!(float_or_int(&chars("123"), 0), Step::Found(3, Value::Uint(123)));
    assert_eq!(float_or_int(&chars("-123"), 0), Step::Found(4, Value::Nint(-123)));
    assert_eq!(float_or_int(&chars("1e"), 0), Step::Found(1, Value::Uint(1)));
    assert_eq!(float_or_int(&chars("1."), 0), Step::Found(1, Value::Uint(1)));
    assert_eq!(float_or_int(&chars("abc"), 0), Step::Miss);

    assert_eq!(float_or_int(&chars("0x100"), 0), Step::Found(5, Value::Uint(256)));
    assert_eq!(float_or_int(&chars("0b101"), 0), Step::Found(5, Value::Uint(5)));
    // We're not supposed to parse leading zeros.
    assert_eq!(float_or_int(&chars("00"), 0), Step::Found(1, Value::Uint(0)));

    assert_eq!(float_or_int(&chars("-0x100"), 0), Step::Found(6, Value::Nint(-256)));
    assert_eq!(float_or_int(&chars("-0b101"), 0), Step::Found(6, Value::Nint(-5)));

    // Allowed by the CDDL grammar but not meaningful: a non-decimal base
    // with a fraction or exponent is a hard error.
    assert!(matches!(float_or_int(&chars("0b1e99"), 0), Step::Abort(_)));
    assert!(matches!(float_or_int(&chars("0b1.1"), 0), Step::Abort(_)));
}

#[test]
fn test_bytestring() {
    let result1 = bytestring(&chars("'abc'"), 0);
    assert_eq!(result1, Step::Found(5, vec![97, 98, 99]));

    // Same thing, in hex format
    match bytestring(&chars("h'61 62 63'"), 0) {
        Step::Found(p, bytes) => {
            assert_eq!(p, 11);
            assert_eq!(bytes, vec![97, 98, 99]);
        }
        other => panic!("unexpected {:?}", other),
    }

    // A non-ASCII payload contributes its UTF-8 bytes.
    match bytestring(&chars("'aの'"), 0) {
        Step::Found(p, bytes) => {
            assert_eq!(p, 4);
            assert_eq!(bytes, "aの".as_bytes().to_vec());
        }
        other => panic!("unexpected {:?}", other),
    }
}

#[test]
fn test_text() {
    assert!(is_unescaped_schar('A'));
    assert!(is_unescaped_schar('の'));
    assert!(is_unescaped_schar(std::char::from_u32(0x10FF0).unwrap()));
    assert!(!is_unescaped_schar(0x7F as char));

    assert!(matches!(unescaped_schar(&chars("Aの"), 0), Step::Found(2, ref s) if s == "Aの"));

    assert!(matches!(sesc(&chars(r#"\n"#), 0), Step::Found(2, ref s) if s == "n"));
    assert!(matches!(sesc(&chars(r#"\nn"#), 0), Step::Found(2, ref s) if s == "n"));
    assert!(matches!(sesc(&chars(r#"\の"#), 0), Step::Found(2, ref s) if s == "の"));

    let raw = r#"Ab! \c の \\"#;
    let v = chars(raw);
    assert!(matches!(schar(&v, 0), Step::Found(p, ref s) if p == v.len() && s == raw));
    assert!(matches!(schar(&chars(r#"a\nb"#), 0), Step::Found(4, ref s) if s == r#"a\nb"#));
    assert!(matches!(schar(&chars("a\nb"), 0), Step::Found(1, ref s) if s == "a"));

    assert!(!matches!(text_literal(&chars("\"a\nb"), 0), Step::Found(..)));
    assert!(!matches!(text_literal(&chars("abc"), 0), Step::Found(..)));

    assert!(matches!(text_literal(&chars(r#""a\nb""#), 0), Step::Found(6, ref s) if s == "a\nb"));
    assert!(
        matches!(text_literal(&chars(r#""\uD834\uDD1E""#), 0), Step::Found(14, ref s) if s == "𝄞")
    );
    assert!(matches!(text_literal(&chars(r#""の""#), 0), Step::Found(3, ref s) if s == "の"));
}

#[test]
fn test_value() {
    assert_eq!(value(&chars("123"), 0), Step::Found(3, Value::Uint(123)));
    assert_eq!(
        value(&chars(r#""abc""#), 0),
        Step::Found(5, Value::Text("abc".to_string()))
    );
    assert_eq!(value(&chars("abc"), 0), Step::Miss);
}

#[test]
fn test_memberkey_type1() {
    let expected = MemberKey {
        val: MemberKeyVal::Type1(Type1::Simple(Type2::Typename("a".to_string()))),
        cut: false,
    };
    assert_eq!(memberkey_type1(&chars("a => b"), 0), Step::Found(4, expected));

    let expected = MemberKey {
        val: MemberKeyVal::Type1(Type1::Simple(Type2::Typename("a".to_string()))),
        cut: true,
    };
    assert_eq!(memberkey_type1(&chars("a ^ => b"), 0), Step::Found(6, expected));
}

#[test]
fn test_memberkey_bareword() {
    let expected = MemberKey { val: MemberKeyVal::Bareword("a".to_string()), cut: true };
    assert_eq!(memberkey_bareword(&chars("a:b"), 0), Step::Found(2, expected));
}

#[test]
fn test_member() {
    let expected = Member {
        key: Some(MemberKey { val: MemberKeyVal::Bareword("a".to_string()), cut: true }),
        value: tn("b"),
    };
    assert_eq!(grpent_member(&chars("a:b"), 0), Step::Found(3, expected));

    let expected = Member { key: None, value: tn("foo") };
    assert_eq!(grpent_member(&chars("foo"), 0), Step::Found(3, expected));
}

#[test]
fn test_grpent_parens() {
    let expected = Group(vec![GrpChoice(vec![])]);
    assert_eq!(grpent_parens(&chars("()"), 0), Step::Found(2, expected));
}

#[test]
fn test_grpent_val() {
    let expected = GrpEntVal::Member(Member { key: None, value: tn("foo") });
    assert_eq!(grpent_val(&chars("foo"), 0), Step::Found(3, expected));

    let expected = GrpEntVal::Member(Member {
        key: None,
        value: Type(vec![Type1::Simple(Type2::Value(Value::Uint(17)))]),
    });
    assert_eq!(grpent_val(&chars("17"), 0), Step::Found(2, expected));
}

#[test]
fn test_grpent() {
    let expected = GrpEnt {
        occur: None,
        val: GrpEntVal::Member(Member { key: None, value: tn("foo") }),
    };
    assert_eq!(grpent(&chars("foo"), 0), Step::Found(3, expected));

    let expected = GrpEnt {
        occur: None,
        val: GrpEntVal::Member(Member {
            key: Some(MemberKey { val: MemberKeyVal::Bareword("foo".to_string()), cut: true }),
            value: tn("bar"),
        }),
    };
    assert_eq!(grpent(&chars("foo: bar"), 0), Step::Found(8, expected));
}

#[test]
fn test_grpchoice() {
    let ent = |name: &str| GrpEnt {
        occur: None,
        val: GrpEntVal::Member(Member { key: None, value: tn(name) }),
    };
    assert_eq!(grpchoice(&chars("abc"), 0), Step::Found(3, GrpChoice(vec![ent("abc")])));
    assert_eq!(
        grpchoice(&chars("abc, def"), 0),
        Step::Found(8, GrpChoice(vec![ent("abc"), ent("def")]))
    );
}

#[test]
fn test_grpchoice_empty() {
    assert_eq!(grpchoice(&chars(""), 0), Step::Found(0, GrpChoice(vec![])));
}

#[test]
fn test_group_empty() {
    assert_eq!(
        cddl_cat::parser::group(&chars(""), 0),
        Step::Found(0, Group(vec![GrpChoice(vec![])]))
    );
}

#[test]
fn test_type1() {
    let range = |start: u64, end: u64, inclusive: bool| {
        Type1::Range(TypeRange {
            start: Type2::Value(Value::Uint(start)),
            end: Type2::Value(Value::Uint(end)),
            inclusive,
        })
    };
    assert_eq!(type1(&chars("1 .. 9"), 0), Step::Found(6, range(1, 9, true)));
    assert_eq!(type1(&chars("0x10 .. 0x1C"), 0), Step::Found(12, range(16, 28, true)));
    assert_eq!(type1(&chars("1 ... 9"), 0), Step::Found(7, range(1, 9, false)));

    let expected = Type1::Control(TypeControl {
        first: Type2::Typename("uint".to_string()),
        op: "size".to_string(),
        second: Type2::Value(Value::Uint(3)),
    });
    assert_eq!(type1(&chars("uint .size 3"), 0), Step::Found(12, expected));

    // RFC 8610 2.2.2.1 points out that "min..max" is not a range, but an
    // identifier (because '.' is a valid ident character).
    assert_eq!(
        type2(&chars("min..max"), 0),
        Step::Found(8, Type2::Typename("min..max".to_string()))
    );
}

#[test]
fn test_rule() {
    let expected = Rule { name: "foo".to_string(), val: RuleVal::AssignType(tn("bar")) };
    assert_eq!(rule(&chars("foo=bar"), 0), Step::Found(7, expected));
}

#[test]
fn test_cddl() {
    let text = "foo = {\"a\": bar,\n b => baz}";
    let key_a = MemberKey {
        val: MemberKeyVal::Value(Value::Text("a".to_string())),
        cut: true,
    };
    let ent_a = GrpEnt {
        occur: None,
        val: GrpEntVal::Member(Member { key: Some(key_a), value: tn("bar") }),
    };
    let key_b = MemberKey {
        val: MemberKeyVal::Type1(Type1::Simple(Type2::Typename("b".to_string()))),
        cut: false,
    };
    let ent_b = GrpEnt {
        occur: None,
        val: GrpEntVal::Member(Member { key: Some(key_b), value: tn("baz") }),
    };
    let map = Type2::MapGroup(Group(vec![GrpChoice(vec![ent_a, ent_b])]));
    let rule_foo = Rule {
        name: "foo".to_string(),
        val: RuleVal::AssignType(Type(vec![Type1::Simple(map)])),
    };
    let expected = Cddl { rules: vec![rule_foo] };
    assert_eq!(cddl_cat::parse_cddl(text).unwrap(), expected);
    let v = chars(text);
    assert!(matches!(cddl(&v, 0), Step::Found(p, _) if p == v.len()));
}

#[test]
fn test_cddl_slice() {
    let result = cddl_cat::slice_parse_cddl(" foo = { a: tstr } bar = \n[ int ] ").unwrap();
    assert_eq!(result.rules[0].1, "foo = { a: tstr }");
    assert_eq!(result.rules[1].1, "bar = \n[ int ]");
}

#[test]
fn test_whitespace_immaterial() {
    // Whitespace and comments between grammar elements do not change the
    // resulting syntax tree.
    let a = cddl_cat::parse_cddl("thing = { foo: tstr }").unwrap();
    let b = cddl_cat::parse_cddl("thing={foo:tstr} ; trailing comment\n").unwrap();
    assert_eq!(a, b);
}
