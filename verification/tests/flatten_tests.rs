use cddl_cat::flatten::{KeyValue, Literal, Node, PreludeType};
use cddl_cat::flatten_from_str;

fn render_node(node: &Node) -> String {
    match node {
        Node::Literal(Literal::Int(n)) => format!("Literal(Int({}))", n),
        Node::Literal(Literal::Bool(b)) => format!("Literal(Bool({}))", b),
        Node::Literal(Literal::Text(t)) => format!("Literal(Text({:?}))", t),
        Node::Literal(Literal::Bytes(b)) => format!("Literal(Bytes({:?}))", b),
        Node::Literal(Literal::Float(t)) => format!("Literal(Float({}))", t),
        Node::PreludeType(PreludeType::Any) => "PreludeType(Any)".to_string(),
        Node::PreludeType(PreludeType::Bool) => "PreludeType(Bool)".to_string(),
        Node::PreludeType(PreludeType::Int) => "PreludeType(Int)".to_string(),
        Node::PreludeType(PreludeType::Uint) => "PreludeType(Uint)".to_string(),
        Node::PreludeType(PreludeType::Nint) => "PreludeType(Nint)".to_string(),
        Node::PreludeType(PreludeType::Tstr) => "PreludeType(Tstr)".to_string(),
        Node::PreludeType(PreludeType::Bstr) => "PreludeType(Bstr)".to_string(),
        Node::PreludeType(PreludeType::Float) => "PreludeType(Float)".to_string(),
        Node::PreludeType(PreludeType::Null) => "PreludeType(Null)".to_string(),
        Node::Rule(name) => format!("Rule(Rule {{ name: {:?} }})", format!("{}!", name)),
        Node::Choice(opts) => {
            let inner: Vec<String> = opts.iter().map(render_node).collect();
            format!("Choice([{}])", inner.join(", "))
        }
        Node::MapNode(ms) => format!("Map(Map {{ members: [{}] }})", render_members(ms)),
        Node::ArrayNode(ms) => format!("Array(Array {{ members: [{}] }})", render_members(ms)),
    }
}

fn render_members(ms: &[KeyValue]) -> String {
    let inner: Vec<String> = ms
        .iter()
        .map(|kv| match &kv.key {
            Some(key) => format!("KeyValue({}, {})", render_node(key), render_node(&kv.value)),
            None => format!("KeyValue(-, {})", render_node(&kv.value)),
        })
        .collect();
    inner.join(", ")
}

fn render_schema(schema: &cddl_cat::Schema) -> String {
    let mut pairs: Vec<(String, String)> = schema
        .rules
        .iter()
        .map(|(name, node)| (name.clone(), render_node(node)))
        .collect();
    pairs.sort();
    let body: Vec<String> = pairs
        .iter()
        .map(|(name, node)| format!("{:?}: {}", name, node))
        .collect();
    format!("{{{}}}", body.join(", "))
}

#[test]
fn test_flatten_literal_int() {
    let cddl_input = r#"thing = 1"#;
    let result = flatten_from_str(cddl_input).unwrap();
    let result = render_schema(&result);
    assert_eq!(result, r#"{"thing": Literal(Int(1))}"#);
}

#[test]
fn test_flatten_literal_tstr() {
    let cddl_input = r#"thing = "abc""#;
    let result = flatten_from_str(cddl_input).unwrap();
    let result = render_schema(&result);
    assert_eq!(result, r#"{"thing": Literal(Text("abc"))}"#);
}

#[test]
fn test_flatten_prelude_reference() {
    let cddl_input = r#"thing = int"#;
    let result = flatten_from_str(cddl_input).unwrap();
    let result = render_schema(&result);
    assert_eq!(result, r#"{"thing": PreludeType(Int)}"#);
}

#[test]
fn test_flatten_map() {
    // A map containing a bareword key
    let cddl_input = r#"thing = { foo: tstr }"#;
    let result = flatten_from_str(cddl_input).unwrap();
    let result = render_schema(&result);
    let expected =
        r#"{"thing": Map(Map { members: [KeyValue(Literal(Text("foo")), PreludeType(Tstr))] })}"#;
    assert_eq!(result, expected);

    // A map containing a prelude type key.
    let cddl_input = r#"thing = { tstr => tstr }"#;
    let result = flatten_from_str(cddl_input).unwrap();
    let result = render_schema(&result);
    let expected =
        r#"{"thing": Map(Map { members: [KeyValue(PreludeType(Tstr), PreludeType(Tstr))] })}"#;
    assert_eq!(result, expected);

    // A map key name alias
    let cddl_input = r#"foo = "bar" thing = { foo => tstr }"#;
    let result = flatten_from_str(cddl_input).unwrap();
    let result = render_schema(&result);
    let expected = r#"{"foo": Literal(Text("bar")), "thing": Map(Map { members: [KeyValue(Rule(Rule { name: "foo!" }), PreludeType(Tstr))] })}"#;
    assert_eq!(result, expected);
}

#[test]
fn test_flatten_unknown_rule() {
    let err = flatten_from_str("thing = foo").unwrap_err();
    assert!(matches!(err, cddl_cat::ValidationError::UnknownRule(ref n) if n == "foo"));
}

#[test]
fn test_flatten_occurrence_bounds() {
    let result = flatten_from_str("thing = { ? foo: tstr }").unwrap();
    match &result.rules[0].1 {
        Node::MapNode(ms) => {
            assert_eq!(ms.len(), 1);
            assert_eq!(ms[0].lower, 0);
            assert_eq!(ms[0].upper, 1);
            assert!(ms[0].cut);
        }
        other => panic!("unexpected node {:?}", other),
    }
}

#[test]
fn test_flatten_type_choice() {
    let result = flatten_from_str("thing = 1 / tstr").unwrap();
    let rendered = render_schema(&result);
    assert_eq!(rendered, r#"{"thing": Choice([Literal(Int(1)), PreludeType(Tstr)])}"#);
}

#[test]
fn test_flatten_range_unsupported() {
    let err = flatten_from_str("x = 1..3").unwrap_err();
    assert!(matches!(err, cddl_cat::ValidationError::UnsupportedConstruct(_)));
}

#[test]
fn test_errors() {
    let err = cddl_cat::parse_cddl("x=9999999999999999999999999999999").unwrap_err();
    assert_eq!(err.kind, cddl_cat::ErrorKind::MalformedInteger);

    let err = cddl_cat::parse_cddl(r#"x="\ud800""#).unwrap_err();
    assert_eq!(err.kind, cddl_cat::ErrorKind::MalformedText);

    let err = cddl_cat::parse_cddl("x=h'61 62 6'").unwrap_err();
    assert_eq!(err.kind, cddl_cat::ErrorKind::MalformedHex);
}

#[test]
fn test_bad_hex_digit() {
    let err = cddl_cat::parse_cddl("x=h'6g'").unwrap_err();
    assert_eq!(err.kind, cddl_cat::ErrorKind::MalformedHex);
}

#[test]
fn test_parse_cddl_ok() {
    assert!(cddl_cat::parse_cddl("map = { name: tstr }").is_ok());
}

#[test]
fn test_stuff() {
    cddl_cat::parse_cddl("thing = { foo : tstr }").unwrap();
    cddl_cat::parse_cddl("bar = (c: int)").unwrap();
    cddl_cat::parse_cddl("thing = {agroup empty} agroup = (age: int, name: tstr) empty = ()")
        .unwrap();
    cddl_cat::parse_cddl(
        r#"
        address = { delivery }

        delivery = (
        street: tstr, ? "number": uint, city //
        po_box: uint, city //
        per_pickup: true )

        city = (
        name: tstr, zip_code: uint
        )"#,
    )
    .unwrap();
}
