//! Reduction of a parsed CDDL document to its validation schema.
//!
//! The flattener collapses syntax detail the validator does not need: each
//! rule name is bound to a node.  Literal values and prelude type names
//! become leaf nodes, a bare name becomes a rule reference, a map or array
//! becomes a node of key/value members with occurrence bounds and cut
//! flags, and a type or group choice becomes a `Choice` node.  A second
//! pass checks that every rule reference names a rule of the schema.
//!
//! Ranges, control operators, unwraps, bare group names and group
//! assignments are recognized by the parser but carry no validation
//! semantics here; they reduce to an `UnsupportedConstruct` error.  Each
//! executable function's contract equates its result with a ghost twin
//! over the syntax tree's ghost mirror.

use vstd::prelude::*;

use crate::ast::{
    dv_cddl, Cddl, GrpEnt, GrpEntVal, MemberKey, MemberKeyVal, Occur, RuleVal, SpecCddl,
    SpecGroup, SpecGrpChoice, SpecGrpEnt, SpecGrpEntVal, SpecMemberKey, SpecMemberKeyVal,
    SpecRule, SpecRuleVal, SpecType, SpecType1, SpecType2, SpecValue, Type, Type1, Type2, Value,
};
use crate::lexer::{ParseError, SpecParseError};
use crate::parser::{parse_cddl, sp_parse_cddl};

verus! {

/// A constant a schema node can require a value to equal exactly.
#[derive(Debug, PartialEq)]
pub enum Literal {
    /// A boolean constant.
    Bool(bool),
    /// An integer constant, widened to a signed 128-bit value.
    Int(i128),
    /// A text constant.
    Text(String),
    /// A byte-string constant.
    Bytes(Vec<u8>),
    /// A float constant, kept as its source text.
    Float(String),
}

/// Ghost mirror of [`Literal`].
pub enum SpecLiteral {
    Bool(bool),
    Int(i128),
    Text(Seq<char>),
    Bytes(Seq<u8>),
    Float(Seq<char>),
}

/// The built-in primitive type names of CDDL.
#[derive(Debug, PartialEq, Clone, Copy)]
pub enum PreludeType {
    Any,
    Bool,
    Int,
    Uint,
    Nint,
    Tstr,
    Bstr,
    Float,
    Null,
}

/// One node of the validation schema.
#[derive(Debug, PartialEq)]
pub enum Node {
    /// Matches exactly one constant.
    Literal(Literal),
    /// Matches a primitive category.
    PreludeType(PreludeType),
    /// Matches whatever the named rule matches.
    Rule(String),
    /// Matches when at least one option matches.
    Choice(Vec<Node>),
    /// Matches a map whose entries satisfy the members.
    MapNode(Vec<KeyValue>),
    /// Matches an array whose elements satisfy the members in order.
    ArrayNode(Vec<KeyValue>),
}

/// One member of a map or array node: an optional key (arrays are
/// positional), the value type, the occurrence bounds (`upper` of
/// `usize::MAX` meaning unbounded), and the cut flag.
#[derive(Debug, PartialEq)]
pub struct KeyValue {
    pub key: Option<Node>,
    pub value: Node,
    pub lower: usize,
    pub upper: usize,
    pub cut: bool,
}

/// Ghost mirror of [`Node`].
pub enum SpecNode {
    Literal(SpecLiteral),
    PreludeType(PreludeType),
    Rule(Seq<char>),
    Choice(Seq<SpecNode>),
    MapNode(Seq<SpecKeyValue>),
    ArrayNode(Seq<SpecKeyValue>),
}

/// Ghost mirror of [`KeyValue`].
pub struct SpecKeyValue {
    pub key: Option<SpecNode>,
    pub value: SpecNode,
    pub lower: int,
    pub upper: int,
    pub cut: bool,
}

pub open spec fn dv_literal(l: Literal) -> SpecLiteral {
    match l {
        Literal::Bool(b) => SpecLiteral::Bool(b),
        Literal::Int(n) => SpecLiteral::Int(n),
        Literal::Text(s) => SpecLiteral::Text(s@),
        Literal::Bytes(b) => SpecLiteral::Bytes(b@),
        Literal::Float(s) => SpecLiteral::Float(s@),
    }
}

#[verifier::opaque]
pub open spec fn dv_node(n: Node) -> SpecNode
    decreases n,
{
    match n {
        Node::Literal(l) => SpecNode::Literal(dv_literal(l)),
        Node::PreludeType(p) => SpecNode::PreludeType(p),
        Node::Rule(name) => SpecNode::Rule(name@),
        Node::Choice(opts) => SpecNode::Choice(dv_node_seq(opts@)),
        Node::MapNode(ms) => SpecNode::MapNode(dv_kv_seq(ms@)),
        Node::ArrayNode(ms) => SpecNode::ArrayNode(dv_kv_seq(ms@)),
    }
}

#[verifier::opaque]
pub open spec fn dv_node_seq(s: Seq<Node>) -> Seq<SpecNode>
    decreases s,
{
    Seq::new(s.len(), |k: int| if 0 <= k < s.len() { dv_node(s[k]) } else { arbitrary() })
}

#[verifier::opaque]
pub open spec fn dv_kv_seq(s: Seq<KeyValue>) -> Seq<SpecKeyValue>
    decreases s,
{
    Seq::new(s.len(), |k: int| if 0 <= k < s.len() { dv_kv(s[k]) } else { arbitrary() })
}

#[verifier::opaque]
pub open spec fn dv_kv(kv: KeyValue) -> SpecKeyValue
    decreases kv,
{
    SpecKeyValue {
        key: match kv.key {
            Option::Some(k) => Option::Some(dv_node(k)),
            Option::None => Option::None,
        },
        value: dv_node(kv.value),
        lower: kv.lower as int,
        upper: kv.upper as int,
        cut: kv.cut,
    }
}

impl DeepView for Literal {
    type V = SpecLiteral;

    open spec fn deep_view(&self) -> SpecLiteral {
        dv_literal(*self)
    }
}

impl DeepView for Node {
    type V = SpecNode;

    open spec fn deep_view(&self) -> SpecNode {
        dv_node(*self)
    }
}

impl DeepView for KeyValue {
    type V = SpecKeyValue;

    open spec fn deep_view(&self) -> SpecKeyValue {
        dv_kv(*self)
    }
}

/// An error produced while building a schema.
#[derive(Debug, PartialEq)]
pub enum ValidationError {
    /// The CDDL text did not parse.
    Parse(ParseError),
    /// A construct the flattener gives no validation semantics yet.
    UnsupportedConstruct(String),
    /// A rule reference whose name is bound by no rule of the schema.
    UnknownRule(String),
    /// A rule with an empty right-hand side.
    EmptyRule(String),
}

/// Ghost mirror of [`ValidationError`].
pub enum SpecValidationError {
    Parse(SpecParseError),
    UnsupportedConstruct(Seq<char>),
    UnknownRule(Seq<char>),
    EmptyRule(Seq<char>),
}

impl DeepView for ValidationError {
    type V = SpecValidationError;

    open spec fn deep_view(&self) -> SpecValidationError {
        match self {
            ValidationError::Parse(e) => SpecValidationError::Parse(e.deep_view()),
            ValidationError::UnsupportedConstruct(s) => SpecValidationError::UnsupportedConstruct(
                s@,
            ),
            ValidationError::UnknownRule(s) => SpecValidationError::UnknownRule(s@),
            ValidationError::EmptyRule(s) => SpecValidationError::EmptyRule(s@),
        }
    }
}

/// A schema: each rule name bound to its node, in source order.
#[derive(Debug, PartialEq)]
pub struct Schema {
    /// The rules, each a name and its node.
    pub rules: Vec<(String, Node)>,
}

/// The bindings of a schema, as ghost pairs.
pub open spec fn dv_schema(s: Schema) -> Seq<(Seq<char>, SpecNode)> {
    Seq::new(
        s.rules@.len(),
        |k: int| if 0 <= k < s.rules@.len() {
            (s.rules@[k].0@, dv_node(s.rules@[k].1))
        } else {
            arbitrary()
        },
    )
}

impl DeepView for Schema {
    type V = Seq<(Seq<char>, SpecNode)>;

    open spec fn deep_view(&self) -> Seq<(Seq<char>, SpecNode)> {
        dv_schema(*self)
    }
}

/// The occurrence table of the schema: an absent indicator means exactly
/// once; `?`, `*` and `+` mean zero-or-one, any number, and one-or-more,
/// with `usize::MAX` standing for no upper bound; `n*m` carries its own
/// bounds.
pub open spec fn sp_occur_bounds(o: Option<Occur>) -> (int, int) {
    match o {
        Option::None => (1, 1),
        Option::Some(Occur::Optional) => (0, 1),
        Option::Some(Occur::ZeroOrMore) => (0, usize::MAX as int),
        Option::Some(Occur::OneOrMore) => (1, usize::MAX as int),
        Option::Some(Occur::Numbered(n, m)) => (n as int, m as int),
    }
}

/// Converts a parsed occurrence indicator to the schema's bounds.
pub fn occur_bounds(o: &Option<Occur>) -> (r: (usize, usize))
    ensures
        (r.0 as int, r.1 as int) == sp_occur_bounds(*o),
{
    match o {
        Option::None => (1, 1),
        Option::Some(Occur::Optional) => (0, 1),
        Option::Some(Occur::ZeroOrMore) => (0, usize::MAX),
        Option::Some(Occur::OneOrMore) => (1, usize::MAX),
        Option::Some(Occur::Numbered(n, m)) => (*n, *m),
    }
}

// ---------------------------------------------------------------------------
// The ghost flattener
// ---------------------------------------------------------------------------

/// A literal value widens to a schema constant: integers to `i128`.
pub open spec fn sp_flatten_value(v: SpecValue) -> SpecLiteral {
    match v {
        SpecValue::Uint(n) => SpecLiteral::Int(n as i128),
        SpecValue::Nint(n) => SpecLiteral::Int(n as i128),
        SpecValue::Text(s) => SpecLiteral::Text(s),
        SpecValue::Bytes(b) => SpecLiteral::Bytes(b),
        SpecValue::Float(s) => SpecLiteral::Float(s),
    }
}

/// A type name resolves to a prelude type, a boolean constant, or a rule
/// reference.
pub open spec fn sp_flatten_typename(name: Seq<char>) -> SpecNode {
    if name == "any"@ {
        SpecNode::PreludeType(PreludeType::Any)
    } else if name == "bool"@ {
        SpecNode::PreludeType(PreludeType::Bool)
    } else if name == "int"@ {
        SpecNode::PreludeType(PreludeType::Int)
    } else if name == "uint"@ {
        SpecNode::PreludeType(PreludeType::Uint)
    } else if name == "nint"@ {
        SpecNode::PreludeType(PreludeType::Nint)
    } else if name == "tstr"@ {
        SpecNode::PreludeType(PreludeType::Tstr)
    } else if name == "bstr"@ {
        SpecNode::PreludeType(PreludeType::Bstr)
    } else if name == "float"@ {
        SpecNode::PreludeType(PreludeType::Float)
    } else if name == "null"@ {
        SpecNode::PreludeType(PreludeType::Null)
    } else if name == "true"@ {
        SpecNode::Literal(SpecLiteral::Bool(true))
    } else if name == "false"@ {
        SpecNode::Literal(SpecLiteral::Bool(false))
    } else {
        SpecNode::Rule(name)
    }
}

#[verifier::opaque]
pub open spec fn sp_flatten_type2(t: SpecType2) -> Result<SpecNode, SpecValidationError>
    decreases t, 0int, 2int,
{
    match t {
        SpecType2::Value(v) => Result::Ok(SpecNode::Literal(sp_flatten_value(v))),
        SpecType2::Typename(name) => Result::Ok(sp_flatten_typename(name)),
        SpecType2::Parenthesized(ty) => sp_flatten_type(ty),
        SpecType2::MapGroup(g) => sp_flatten_group(g, true),
        SpecType2::Array(g) => sp_flatten_group(g, false),
        SpecType2::Unwrap(_) => Result::Err(
            SpecValidationError::UnsupportedConstruct("group unwrap"@),
        ),
    }
}

#[verifier::opaque]
pub open spec fn sp_flatten_type1(t: SpecType1) -> Result<SpecNode, SpecValidationError>
    decreases t, 0int, 3int,
{
    match t {
        SpecType1::Simple(t2) => sp_flatten_type2(t2),
        SpecType1::Range(_) => Result::Err(
            SpecValidationError::UnsupportedConstruct("range operator"@),
        ),
        SpecType1::Control(_) => Result::Err(
            SpecValidationError::UnsupportedConstruct("control operator"@),
        ),
    }
}

#[verifier::opaque]
pub open spec fn sp_flatten_type1_seq(ts: Seq<SpecType1>, k: int) -> Result<
    Seq<SpecNode>,
    SpecValidationError,
>
    decreases ts, ts.len() - k, 4int,
{
    if 0 <= k < ts.len() {
        match sp_flatten_type1(ts[k]) {
            Result::Ok(n) => match sp_flatten_type1_seq(ts, k + 1) {
                Result::Ok(rest) => Result::Ok(seq![n] + rest),
                Result::Err(e) => Result::Err(e),
            },
            Result::Err(e) => Result::Err(e),
        }
    } else {
        Result::Ok(Seq::empty())
    }
}

/// A type with one alternative flattens through; several alternatives
/// become a `Choice`; none is a defensive `EmptyRule`.
#[verifier::opaque]
pub open spec fn sp_flatten_type(t: SpecType) -> Result<SpecNode, SpecValidationError>
    decreases t, 0int, 5int,
{
    if t.0.len() == 1 {
        sp_flatten_type1(t.0[0])
    } else if t.0.len() == 0 {
        Result::Err(SpecValidationError::EmptyRule(Seq::empty()))
    } else {
        match sp_flatten_type1_seq(t.0, 0) {
            Result::Ok(opts) => Result::Ok(SpecNode::Choice(opts)),
            Result::Err(e) => Result::Err(e),
        }
    }
}

/// A member key: a bareword or value key is a cut literal; a `type1` key
/// carries its own cut flag from the `^` marker.
#[verifier::opaque]
pub open spec fn sp_flatten_memberkey(mk: SpecMemberKey) -> Result<
    (SpecNode, bool),
    SpecValidationError,
>
    decreases mk, 0int, 4int,
{
    match mk.val {
        SpecMemberKeyVal::Bareword(name) => Result::Ok(
            (SpecNode::Literal(SpecLiteral::Text(name)), true),
        ),
        SpecMemberKeyVal::Value(v) => Result::Ok(
            (SpecNode::Literal(sp_flatten_value(v)), true),
        ),
        SpecMemberKeyVal::Type1(t1) => match sp_flatten_type1(t1) {
            Result::Ok(n) => Result::Ok((n, mk.cut)),
            Result::Err(e) => Result::Err(e),
        },
    }
}

/// A group entry becomes one member.  In a map the member must carry a
/// key; in an array the key is optional.  The occurrence must be sane.
#[verifier::opaque]
pub open spec fn sp_flatten_groupentry(ge: SpecGrpEnt, in_map: bool) -> Result<
    SpecKeyValue,
    SpecValidationError,
>
    decreases ge, 0int, 6int,
{
    let bounds = sp_occur_bounds(ge.occur);
    if bounds.0 > bounds.1 {
        Result::Err(
            SpecValidationError::UnsupportedConstruct("occurrence lower bound above upper"@),
        )
    } else {
        match ge.val {
            SpecGrpEntVal::Member(m) => {
                match m.key {
                    Option::Some(mk) => match sp_flatten_memberkey(mk) {
                        Result::Ok((key, cut)) => match sp_flatten_type(m.value) {
                            Result::Ok(value) => Result::Ok(
                                SpecKeyValue {
                                    key: Option::Some(key),
                                    value,
                                    lower: bounds.0,
                                    upper: bounds.1,
                                    cut,
                                },
                            ),
                            Result::Err(e) => Result::Err(e),
                        },
                        Result::Err(e) => Result::Err(e),
                    },
                    Option::None => {
                        if in_map {
                            Result::Err(
                                SpecValidationError::UnsupportedConstruct(
                                    "map member without key"@,
                                ),
                            )
                        } else {
                            match sp_flatten_type(m.value) {
                                Result::Ok(value) => Result::Ok(
                                    SpecKeyValue {
                                        key: Option::None,
                                        value,
                                        lower: bounds.0,
                                        upper: bounds.1,
                                        cut: false,
                                    },
                                ),
                                Result::Err(e) => Result::Err(e),
                            }
                        }
                    },
                }
            },
            SpecGrpEntVal::Groupname(_) => Result::Err(
                SpecValidationError::UnsupportedConstruct("bare group name"@),
            ),
            SpecGrpEntVal::Parenthesized(_) => Result::Err(
                SpecValidationError::UnsupportedConstruct("parenthesized group entry"@),
            ),
        }
    }
}

#[verifier::opaque]
pub open spec fn sp_flatten_grpents(ges: Seq<SpecGrpEnt>, k: int, in_map: bool) -> Result<
    Seq<SpecKeyValue>,
    SpecValidationError,
>
    decreases ges, ges.len() - k, 7int,
{
    if 0 <= k < ges.len() {
        match sp_flatten_groupentry(ges[k], in_map) {
            Result::Ok(kv) => match sp_flatten_grpents(ges, k + 1, in_map) {
                Result::Ok(rest) => Result::Ok(seq![kv] + rest),
                Result::Err(e) => Result::Err(e),
            },
            Result::Err(e) => Result::Err(e),
        }
    } else {
        Result::Ok(Seq::empty())
    }
}

#[verifier::opaque]
pub open spec fn sp_flatten_grpchoice(gc: SpecGrpChoice, in_map: bool) -> Result<
    SpecNode,
    SpecValidationError,
>
    decreases gc, 0int, 8int,
{
    match sp_flatten_grpents(gc.0, 0, in_map) {
        Result::Ok(ms) => Result::Ok(
            if in_map {
                SpecNode::MapNode(ms)
            } else {
                SpecNode::ArrayNode(ms)
            },
        ),
        Result::Err(e) => Result::Err(e),
    }
}

#[verifier::opaque]
pub open spec fn sp_flatten_grpchoices(gcs: Seq<SpecGrpChoice>, k: int, in_map: bool) -> Result<
    Seq<SpecNode>,
    SpecValidationError,
>
    decreases gcs, gcs.len() - k, 9int,
{
    if 0 <= k < gcs.len() {
        match sp_flatten_grpchoice(gcs[k], in_map) {
            Result::Ok(n) => match sp_flatten_grpchoices(gcs, k + 1, in_map) {
                Result::Ok(rest) => Result::Ok(seq![n] + rest),
                Result::Err(e) => Result::Err(e),
            },
            Result::Err(e) => Result::Err(e),
        }
    } else {
        Result::Ok(Seq::empty())
    }
}

/// A `{ group }` or `[ group ]`: one group choice gives the map or array
/// node directly; several are wrapped in a `Choice`.
#[verifier::opaque]
pub open spec fn sp_flatten_group(g: SpecGroup, in_map: bool) -> Result<
    SpecNode,
    SpecValidationError,
>
    decreases g, 0int, 10int,
{
    if g.0.len() == 1 {
        sp_flatten_grpchoice(g.0[0], in_map)
    } else {
        match sp_flatten_grpchoices(g.0, 0, in_map) {
            Result::Ok(opts) => Result::Ok(SpecNode::Choice(opts)),
            Result::Err(e) => Result::Err(e),
        }
    }
}

/// One rule's right-hand side: a type assignment flattens to its node; a
/// group assignment has no schema meaning here; an empty type is the
/// defensive `EmptyRule` error, carrying the rule's name.
#[verifier::opaque]
pub open spec fn sp_flatten_rule(r: SpecRule) -> Result<SpecNode, SpecValidationError> {
    match r.val {
        SpecRuleVal::AssignType(t) => {
            if t.0.len() == 0 {
                Result::Err(SpecValidationError::EmptyRule(r.name))
            } else {
                sp_flatten_type(t)
            }
        },
        SpecRuleVal::AssignGroup(_) => Result::Err(
            SpecValidationError::UnsupportedConstruct("group assignment"@),
        ),
    }
}

#[verifier::opaque]
pub open spec fn sp_flatten_rules(rs: Seq<SpecRule>, k: int) -> Result<
    Seq<(Seq<char>, SpecNode)>,
    SpecValidationError,
>
    decreases rs.len() - k,
{
    if 0 <= k < rs.len() {
        match sp_flatten_rule(rs[k]) {
            Result::Ok(n) => match sp_flatten_rules(rs, k + 1) {
                Result::Ok(rest) => Result::Ok(seq![(rs[k].name, n)] + rest),
                Result::Err(e) => Result::Err(e),
            },
            Result::Err(e) => Result::Err(e),
        }
    } else {
        Result::Ok(Seq::empty())
    }
}

/// A name is bound when some rule of the schema carries it.
pub open spec fn sp_has_rule(bs: Seq<(Seq<char>, SpecNode)>, name: Seq<char>) -> bool {
    exists|k: int| 0 <= k < bs.len() && bs[k].0 == name
}

/// Every rule reference of the node, along owning edges, is bound.
#[verifier::opaque]
pub open spec fn sp_refs_ok(bs: Seq<(Seq<char>, SpecNode)>, n: SpecNode) -> bool
    decreases n, 0int, 0int,
{
    match n {
        SpecNode::Literal(_) => true,
        SpecNode::PreludeType(_) => true,
        SpecNode::Rule(name) => sp_has_rule(bs, name),
        SpecNode::Choice(opts) => sp_refs_ok_seq(bs, opts, 0),
        SpecNode::MapNode(ms) => sp_refs_ok_kvs(bs, ms, 0),
        SpecNode::ArrayNode(ms) => sp_refs_ok_kvs(bs, ms, 0),
    }
}

#[verifier::opaque]
pub open spec fn sp_refs_ok_seq(bs: Seq<(Seq<char>, SpecNode)>, ns: Seq<SpecNode>, k: int) -> bool
    decreases ns, ns.len() - k, 1int,
{
    if 0 <= k < ns.len() {
        sp_refs_ok(bs, ns[k]) && sp_refs_ok_seq(bs, ns, k + 1)
    } else {
        true
    }
}

#[verifier::opaque]
pub open spec fn sp_refs_ok_kvs(bs: Seq<(Seq<char>, SpecNode)>, ms: Seq<SpecKeyValue>, k: int) -> bool
    decreases ms, ms.len() - k, 1int,
{
    if 0 <= k < ms.len() {
        (match ms[k].key {
            Option::Some(key) => sp_refs_ok(bs, key),
            Option::None => true,
        }) && sp_refs_ok(bs, ms[k].value) && sp_refs_ok_kvs(bs, ms, k + 1)
    } else {
        true
    }
}

/// Every rule reference of every binding is bound by the schema itself.
#[verifier::opaque]
pub open spec fn sp_schema_refs_ok(bs: Seq<(Seq<char>, SpecNode)>, k: int) -> bool
    decreases bs.len() - k,
{
    if 0 <= k < bs.len() {
        sp_refs_ok(bs, bs[k].1) && sp_schema_refs_ok(bs, k + 1)
    } else {
        true
    }
}

// ---------------------------------------------------------------------------
// The executable flattener
// ---------------------------------------------------------------------------

fn prelude_of(name: &String) -> (r: Option<PreludeType>)
    ensures
        match r {
            Option::Some(p) => sp_flatten_typename(name@) == SpecNode::PreludeType(p),
            Option::None => forall|p: PreludeType|
                sp_flatten_typename(name@) != SpecNode::PreludeType(p),
        },
{
    if crate::lexer::str_eq(name.as_str(), "any") {
        Some(PreludeType::Any)
    } else if crate::lexer::str_eq(name.as_str(), "bool") {
        Some(PreludeType::Bool)
    } else if crate::lexer::str_eq(name.as_str(), "int") {
        Some(PreludeType::Int)
    } else if crate::lexer::str_eq(name.as_str(), "uint") {
        Some(PreludeType::Uint)
    } else if crate::lexer::str_eq(name.as_str(), "nint") {
        Some(PreludeType::Nint)
    } else if crate::lexer::str_eq(name.as_str(), "tstr") {
        Some(PreludeType::Tstr)
    } else if crate::lexer::str_eq(name.as_str(), "bstr") {
        Some(PreludeType::Bstr)
    } else if crate::lexer::str_eq(name.as_str(), "float") {
        Some(PreludeType::Float)
    } else if crate::lexer::str_eq(name.as_str(), "null") {
        Some(PreludeType::Null)
    } else {
        None
    }
}

/// Resolves a type name: a prelude type, a boolean constant, or a rule
/// reference.
#[verifier::rlimit(100)]
#[verifier::spinoff_prover]
pub fn flatten_typename(name: &String) -> (r: Node)
    ensures
        r.deep_view() == sp_flatten_typename(name@),
{
    proof {
        reveal_with_fuel(dv_node, 1);
    }
    let res: Node = match prelude_of(name) {
        Some(p) => Node::PreludeType(p),
        None => {
            if crate::lexer::str_eq(name.as_str(), "true") {
                Node::Literal(Literal::Bool(true))
            } else if crate::lexer::str_eq(name.as_str(), "false") {
                Node::Literal(Literal::Bool(false))
            } else {
                Node::Rule(name.clone())
            }
        },
    };
    proof {
        assert(res.deep_view() == sp_flatten_typename(name@));
    }
    res
}

/// Copies a literal value into a schema constant, integers widened.
pub fn flatten_value(v: &Value) -> (r: Literal)
    ensures
        r.deep_view() == sp_flatten_value(v.deep_view()),
{
    match v {
        Value::Uint(n) => Literal::Int(*n as i128),
        Value::Nint(n) => Literal::Int(*n as i128),
        Value::Text(s) => Literal::Text(s.clone()),
        Value::Bytes(b) => {
            let r = Literal::Bytes(b.clone());
            proof {
                assert(r.deep_view() =~= sp_flatten_value(v.deep_view()));
            }
            r
        },
        Value::Float(s) => Literal::Float(s.clone()),
    }
}

/// Flattens one `type2`.
#[verifier::rlimit(100)]
#[verifier::spinoff_prover]
pub fn flatten_type2(t: &Type2) -> (r: Result<Node, ValidationError>)
    ensures
        match sp_flatten_type2(t.deep_view()) {
            Result::Ok(n0) => r matches Result::Ok(n) && n.deep_view() == n0,
            Result::Err(e0) => r matches Result::Err(e) && e.deep_view() == e0,
        },
    decreases *t, 0int, 2int,
{
    proof {
        reveal_with_fuel(sp_flatten_type2, 2);
        reveal_with_fuel(crate::ast::dv_type2, 1);
        reveal_with_fuel(dv_node, 1);
    }
    match t {
        Type2::Value(v) => Result::Ok(Node::Literal(flatten_value(v))),
        Type2::Typename(name) => Result::Ok(flatten_typename(name)),
        Type2::Parenthesized(ty) => flatten_type(ty),
        Type2::MapGroup(g) => flatten_group(g, true),
        Type2::Array(g) => flatten_group(g, false),
        Type2::Unwrap(_) => Result::Err(
            ValidationError::UnsupportedConstruct(String::from_str("group unwrap")),
        ),
    }
}

/// Flattens one choice alternative; ranges and control operators carry no
/// validation semantics here.
#[verifier::rlimit(100)]
#[verifier::spinoff_prover]
pub fn flatten_type1(t: &Type1) -> (r: Result<Node, ValidationError>)
    ensures
        match sp_flatten_type1(t.deep_view()) {
            Result::Ok(n0) => r matches Result::Ok(n) && n.deep_view() == n0,
            Result::Err(e0) => r matches Result::Err(e) && e.deep_view() == e0,
        },
    decreases *t, 0int, 3int,
{
    proof {
        reveal_with_fuel(sp_flatten_type1, 2);
        reveal_with_fuel(crate::ast::dv_type1, 1);
    }
    match t {
        Type1::Simple(t2) => flatten_type2(t2),
        Type1::Range(_) => Result::Err(
            ValidationError::UnsupportedConstruct(String::from_str("range operator")),
        ),
        Type1::Control(_) => Result::Err(
            ValidationError::UnsupportedConstruct(String::from_str("control operator")),
        ),
    }
}

#[verifier::rlimit(100)]
#[verifier::spinoff_prover]
fn flatten_type1_list(ts: &Vec<Type1>, k: usize) -> (r: Result<Vec<Node>, ValidationError>)
    requires
        k <= ts.len(),
    ensures
        match sp_flatten_type1_seq(crate::ast::dv_type1_seq(ts@), k as int) {
            Result::Ok(ns0) => r matches Result::Ok(ns) && ns.deep_view() == ns0,
            Result::Err(e0) => r matches Result::Err(e) && e.deep_view() == e0,
        },
    decreases *ts, ts.len() - k, 4int,
{
    proof {
        reveal_with_fuel(sp_flatten_type1_seq, 2);
        reveal_with_fuel(crate::ast::dv_type1_seq, 1);
    }
    let res: Result<Vec<Node>, ValidationError> = if k < ts.len() {
        match flatten_type1(&ts[k]) {
            Result::Ok(n) => match flatten_type1_list(ts, k + 1) {
                Result::Ok(mut rest) => {
                    let ghost rd = rest.deep_view();
                    let mut out: Vec<Node> = Vec::new();
                    out.push(n);
                    out.append(&mut rest);
                    proof {
                        assert(out.deep_view() =~= seq![n.deep_view()] + rd);
                    }
                    Result::Ok(out)
                },
                Result::Err(e) => Result::Err(e),
            },
            Result::Err(e) => Result::Err(e),
        }
    } else {
        let empty: Vec<Node> = Vec::new();
        proof {
            assert(empty.deep_view() =~= Seq::<SpecNode>::empty());
        }
        Result::Ok(empty)
    };
    proof {
        assert(match sp_flatten_type1_seq(crate::ast::dv_type1_seq(ts@), k as int) {
            Result::Ok(ns0) => res matches Result::Ok(ns) && ns.deep_view() == ns0,
            Result::Err(e0) => res matches Result::Err(e) && e.deep_view() == e0,
        });
    }
    res
}

/// Flattens a type: one alternative flattens through, several become a
/// `Choice`, none is the defensive empty-rule error.
#[verifier::rlimit(100)]
#[verifier::spinoff_prover]
pub fn flatten_type(t: &Type) -> (r: Result<Node, ValidationError>)
    ensures
        match sp_flatten_type(t.deep_view()) {
            Result::Ok(n0) => r matches Result::Ok(n) && n.deep_view() == n0,
            Result::Err(e0) => r matches Result::Err(e) && e.deep_view() == e0,
        },
    decreases *t, 0int, 5int,
{
    proof {
        reveal_with_fuel(sp_flatten_type, 2);
        reveal_with_fuel(crate::ast::dv_type, 1);
        reveal_with_fuel(crate::ast::dv_type1_seq, 1);
        reveal_with_fuel(dv_node, 1);
    }
    let res: Result<Node, ValidationError> = if t.0.len() == 1 {
        flatten_type1(&t.0[0])
    } else if t.0.len() == 0 {
        Result::Err(ValidationError::EmptyRule(String::new()))
    } else {
        match flatten_type1_list(&t.0, 0) {
            Result::Ok(opts) => {
                proof {
                    reveal_with_fuel(dv_node_seq, 1);
                    assert(dv_node_seq(opts@) =~= opts.deep_view());
                }
                Result::Ok(Node::Choice(opts))
            },
            Result::Err(e) => Result::Err(e),
        }
    };
    proof {
        assert(match sp_flatten_type(t.deep_view()) {
            Result::Ok(n0) => res matches Result::Ok(n) && n.deep_view() == n0,
            Result::Err(e0) => res matches Result::Err(e) && e.deep_view() == e0,
        });
    }
    res
}

/// Flattens a member key to its key node and cut flag.
#[verifier::rlimit(100)]
#[verifier::spinoff_prover]
pub fn flatten_memberkey(mk: &MemberKey) -> (r: Result<(Node, bool), ValidationError>)
    ensures
        match sp_flatten_memberkey(mk.deep_view()) {
            Result::Ok(kc0) => r matches Result::Ok(kc) && kc.0.deep_view() == kc0.0 && kc.1
                == kc0.1,
            Result::Err(e0) => r matches Result::Err(e) && e.deep_view() == e0,
        },
    decreases *mk, 0int, 4int,
{
    proof {
        reveal_with_fuel(sp_flatten_memberkey, 2);
        reveal_with_fuel(crate::ast::dv_memberkey, 1);
        reveal_with_fuel(crate::ast::dv_memberkeyval, 1);
        reveal_with_fuel(dv_node, 1);
    }
    match &mk.val {
        MemberKeyVal::Bareword(name) => Result::Ok(
            (Node::Literal(Literal::Text(name.clone())), true),
        ),
        MemberKeyVal::Value(v) => Result::Ok((Node::Literal(flatten_value(v)), true)),
        MemberKeyVal::Type1(t1) => match flatten_type1(t1) {
            Result::Ok(n) => Result::Ok((n, mk.cut)),
            Result::Err(e) => Result::Err(e),
        },
    }
}

/// Flattens one group entry to a member.
#[verifier::rlimit(100)]
#[verifier::spinoff_prover]
pub fn flatten_groupentry(ge: &GrpEnt, in_map: bool) -> (r: Result<KeyValue, ValidationError>)
    ensures
        match sp_flatten_groupentry(ge.deep_view(), in_map) {
            Result::Ok(kv0) => r matches Result::Ok(kv) && kv.deep_view() == kv0,
            Result::Err(e0) => r matches Result::Err(e) && e.deep_view() == e0,
        },
    decreases *ge, 0int, 6int,
{
    proof {
        reveal_with_fuel(sp_flatten_groupentry, 2);
        reveal_with_fuel(crate::ast::dv_grpent, 1);
        reveal_with_fuel(crate::ast::dv_grpentval, 1);
        reveal_with_fuel(crate::ast::dv_member, 1);
        reveal_with_fuel(dv_kv, 1);
    }
    let bounds = occur_bounds(&ge.occur);
    let res: Result<KeyValue, ValidationError> = if bounds.0 > bounds.1 {
        Result::Err(
            ValidationError::UnsupportedConstruct(
                String::from_str("occurrence lower bound above upper"),
            ),
        )
    } else {
        match &ge.val {
            GrpEntVal::Member(m) => {
                match &m.key {
                    Option::Some(mk) => match flatten_memberkey(mk) {
                        Result::Ok(kc) => match flatten_type(&m.value) {
                            Result::Ok(value) => Result::Ok(
                                KeyValue {
                                    key: Some(kc.0),
                                    value,
                                    lower: bounds.0,
                                    upper: bounds.1,
                                    cut: kc.1,
                                },
                            ),
                            Result::Err(e) => Result::Err(e),
                        },
                        Result::Err(e) => Result::Err(e),
                    },
                    Option::None => {
                        if in_map {
                            Result::Err(
                                ValidationError::UnsupportedConstruct(
                                    String::from_str("map member without key"),
                                ),
                            )
                        } else {
                            match flatten_type(&m.value) {
                                Result::Ok(value) => Result::Ok(
                                    KeyValue {
                                        key: None,
                                        value,
                                        lower: bounds.0,
                                        upper: bounds.1,
                                        cut: false,
                                    },
                                ),
                                Result::Err(e) => Result::Err(e),
                            }
                        }
                    },
                }
            },
            GrpEntVal::Groupname(_) => Result::Err(
                ValidationError::UnsupportedConstruct(String::from_str("bare group name")),
            ),
            GrpEntVal::Parenthesized(_) => Result::Err(
                ValidationError::UnsupportedConstruct(
                    String::from_str("parenthesized group entry"),
                ),
            ),
        }
    };
    proof {
        assert(match sp_flatten_groupentry(ge.deep_view(), in_map) {
            Result::Ok(kv0) => res matches Result::Ok(kv) && kv.deep_view() == kv0,
            Result::Err(e0) => res matches Result::Err(e) && e.deep_view() == e0,
        });
    }
    res
}

#[verifier::rlimit(100)]
#[verifier::spinoff_prover]
fn flatten_grpent_list(ges: &Vec<GrpEnt>, k: usize, in_map: bool) -> (r: Result<
    Vec<KeyValue>,
    ValidationError,
>)
    requires
        k <= ges.len(),
    ensures
        match sp_flatten_grpents(crate::ast::dv_grpent_seq(ges@), k as int, in_map) {
            Result::Ok(ms0) => r matches Result::Ok(ms) && ms.deep_view() == ms0,
            Result::Err(e0) => r matches Result::Err(e) && e.deep_view() == e0,
        },
    decreases *ges, ges.len() - k, 7int,
{
    proof {
        reveal_with_fuel(sp_flatten_grpents, 2);
        reveal_with_fuel(crate::ast::dv_grpent_seq, 1);
    }
    let res: Result<Vec<KeyValue>, ValidationError> = if k < ges.len() {
        match flatten_groupentry(&ges[k], in_map) {
            Result::Ok(kv) => match flatten_grpent_list(ges, k + 1, in_map) {
                Result::Ok(mut rest) => {
                    let ghost rd = rest.deep_view();
                    let mut out: Vec<KeyValue> = Vec::new();
                    out.push(kv);
                    out.append(&mut rest);
                    proof {
                        assert(out.deep_view() =~= seq![kv.deep_view()] + rd);
                    }
                    Result::Ok(out)
                },
                Result::Err(e) => Result::Err(e),
            },
            Result::Err(e) => Result::Err(e),
        }
    } else {
        let empty: Vec<KeyValue> = Vec::new();
        proof {
            assert(empty.deep_view() =~= Seq::<SpecKeyValue>::empty());
        }
        Result::Ok(empty)
    };
    proof {
        assert(match sp_flatten_grpents(crate::ast::dv_grpent_seq(ges@), k as int, in_map) {
            Result::Ok(ms0) => res matches Result::Ok(ms) && ms.deep_view() == ms0,
            Result::Err(e0) => res matches Result::Err(e) && e.deep_view() == e0,
        });
    }
    res
}

#[verifier::rlimit(100)]
#[verifier::spinoff_prover]
fn flatten_grpchoice(gc: &crate::ast::GrpChoice, in_map: bool) -> (r: Result<
    Node,
    ValidationError,
>)
    ensures
        match sp_flatten_grpchoice(gc.deep_view(), in_map) {
            Result::Ok(n0) => r matches Result::Ok(n) && n.deep_view() == n0,
            Result::Err(e0) => r matches Result::Err(e) && e.deep_view() == e0,
        },
    decreases *gc, 0int, 8int,
{
    proof {
        reveal_with_fuel(sp_flatten_grpchoice, 2);
        reveal_with_fuel(crate::ast::dv_grpchoice, 1);
        reveal_with_fuel(dv_node, 1);
        reveal_with_fuel(dv_kv_seq, 1);
    }
    let res: Result<Node, ValidationError> = match flatten_grpent_list(&gc.0, 0, in_map) {
        Result::Ok(ms) => {
            proof {
                assert(dv_kv_seq(ms@) =~= ms.deep_view());
            }
            Result::Ok(
                if in_map {
                    Node::MapNode(ms)
                } else {
                    Node::ArrayNode(ms)
                },
            )
        },
        Result::Err(e) => Result::Err(e),
    };
    proof {
        assert(match sp_flatten_grpchoice(gc.deep_view(), in_map) {
            Result::Ok(n0) => res matches Result::Ok(n) && n.deep_view() == n0,
            Result::Err(e0) => res matches Result::Err(e) && e.deep_view() == e0,
        });
    }
    res
}

#[verifier::rlimit(100)]
#[verifier::spinoff_prover]
fn flatten_grpchoice_list(gcs: &Vec<crate::ast::GrpChoice>, k: usize, in_map: bool) -> (r: Result<
    Vec<Node>,
    ValidationError,
>)
    requires
        k <= gcs.len(),
    ensures
        match sp_flatten_grpchoices(crate::ast::dv_grpchoice_seq(gcs@), k as int, in_map) {
            Result::Ok(ns0) => r matches Result::Ok(ns) && ns.deep_view() == ns0,
            Result::Err(e0) => r matches Result::Err(e) && e.deep_view() == e0,
        },
    decreases *gcs, gcs.len() - k, 9int,
{
    proof {
        reveal_with_fuel(sp_flatten_grpchoices, 2);
        reveal_with_fuel(crate::ast::dv_grpchoice_seq, 1);
    }
    let res: Result<Vec<Node>, ValidationError> = if k < gcs.len() {
        match flatten_grpchoice(&gcs[k], in_map) {
            Result::Ok(n) => match flatten_grpchoice_list(gcs, k + 1, in_map) {
                Result::Ok(mut rest) => {
                    let ghost rd = rest.deep_view();
                    let mut out: Vec<Node> = Vec::new();
                    out.push(n);
                    out.append(&mut rest);
                    proof {
                        assert(out.deep_view() =~= seq![n.deep_view()] + rd);
                    }
                    Result::Ok(out)
                },
                Result::Err(e) => Result::Err(e),
            },
            Result::Err(e) => Result::Err(e),
        }
    } else {
        let empty: Vec<Node> = Vec::new();
        proof {
            assert(empty.deep_view() =~= Seq::<SpecNode>::empty());
        }
        Result::Ok(empty)
    };
    proof {
        assert(match sp_flatten_grpchoices(crate::ast::dv_grpchoice_seq(gcs@), k as int, in_map) {
            Result::Ok(ns0) => res matches Result::Ok(ns) && ns.deep_view() == ns0,
            Result::Err(e0) => res matches Result::Err(e) && e.deep_view() == e0,
        });
    }
    res
}

/// Flattens a `{ group }` or `[ group ]`.
#[verifier::rlimit(100)]
#[verifier::spinoff_prover]
pub fn flatten_group(g: &crate::ast::Group, in_map: bool) -> (r: Result<Node, ValidationError>)
    ensures
        match sp_flatten_group(g.deep_view(), in_map) {
            Result::Ok(n0) => r matches Result::Ok(n) && n.deep_view() == n0,
            Result::Err(e0) => r matches Result::Err(e) && e.deep_view() == e0,
        },
    decreases *g, 0int, 10int,
{
    proof {
        reveal_with_fuel(sp_flatten_group, 2);
        reveal_with_fuel(crate::ast::dv_group, 1);
        reveal_with_fuel(crate::ast::dv_grpchoice_seq, 1);
        reveal_with_fuel(dv_node, 1);
    }
    let res: Result<Node, ValidationError> = if g.0.len() == 1 {
        flatten_grpchoice(&g.0[0], in_map)
    } else {
        match flatten_grpchoice_list(&g.0, 0, in_map) {
            Result::Ok(opts) => {
                proof {
                    reveal_with_fuel(dv_node_seq, 1);
                    assert(dv_node_seq(opts@) =~= opts.deep_view());
                }
                Result::Ok(Node::Choice(opts))
            },
            Result::Err(e) => Result::Err(e),
        }
    };
    proof {
        assert(match sp_flatten_group(g.deep_view(), in_map) {
            Result::Ok(n0) => res matches Result::Ok(n) && n.deep_view() == n0,
            Result::Err(e0) => res matches Result::Err(e) && e.deep_view() == e0,
        });
    }
    res
}

/// Flattens one rule's right-hand side.
#[verifier::rlimit(100)]
#[verifier::spinoff_prover]
pub fn flatten_rule(rl: &crate::ast::Rule) -> (r: Result<Node, ValidationError>)
    ensures
        match sp_flatten_rule(rl.deep_view()) {
            Result::Ok(n0) => r matches Result::Ok(n) && n.deep_view() == n0,
            Result::Err(e0) => r matches Result::Err(e) && e.deep_view() == e0,
        },
{
    proof {
        reveal(sp_flatten_rule);
        reveal_with_fuel(crate::ast::dv_ruleval, 1);
        reveal_with_fuel(sp_flatten_type, 2);
        reveal_with_fuel(crate::ast::dv_type, 1);
        reveal_with_fuel(crate::ast::dv_type1_seq, 1);
    }
    let res: Result<Node, ValidationError> = match &rl.val {
        RuleVal::AssignType(t) => {
            if t.0.len() == 0 {
                Result::Err(ValidationError::EmptyRule(rl.name.clone()))
            } else {
                flatten_type(t)
            }
        },
        RuleVal::AssignGroup(_) => Result::Err(
            ValidationError::UnsupportedConstruct(String::from_str("group assignment")),
        ),
    };
    proof {
        assert(match sp_flatten_rule(rl.deep_view()) {
            Result::Ok(n0) => res matches Result::Ok(n) && n.deep_view() == n0,
            Result::Err(e0) => res matches Result::Err(e) && e.deep_view() == e0,
        });
    }
    res
}

#[verifier::rlimit(100)]
#[verifier::spinoff_prover]
fn flatten_rule_list(rs: &Vec<crate::ast::Rule>, k: usize) -> (r: Result<
    Vec<(String, Node)>,
    ValidationError,
>)
    requires
        k <= rs.len(),
    ensures
        match sp_flatten_rules(crate::ast::dv_rule_seq(rs@), k as int) {
            Result::Ok(bs0) => r matches Result::Ok(bs) && bs.deep_view() == bs0,
            Result::Err(e0) => r matches Result::Err(e) && e.deep_view() == e0,
        },
    decreases rs.len() - k,
{
    proof {
        reveal_with_fuel(sp_flatten_rules, 2);
    }
    let res: Result<Vec<(String, Node)>, ValidationError> = if k < rs.len() {
        match flatten_rule(&rs[k]) {
            Result::Ok(n) => match flatten_rule_list(rs, k + 1) {
                Result::Ok(mut rest) => {
                    let ghost rd = rest.deep_view();
                    let mut out: Vec<(String, Node)> = Vec::new();
                    out.push((rs[k].name.clone(), n));
                    out.append(&mut rest);
                    proof {
                        assert(out.deep_view() =~= seq![(rs@[k as int].name@, n.deep_view())]
                            + rd);
                    }
                    Result::Ok(out)
                },
                Result::Err(e) => Result::Err(e),
            },
            Result::Err(e) => Result::Err(e),
        }
    } else {
        let empty: Vec<(String, Node)> = Vec::new();
        proof {
            assert(empty.deep_view() =~= Seq::<(Seq<char>, SpecNode)>::empty());
        }
        Result::Ok(empty)
    };
    proof {
        assert(match sp_flatten_rules(crate::ast::dv_rule_seq(rs@), k as int) {
            Result::Ok(bs0) => res matches Result::Ok(bs) && bs.deep_view() == bs0,
            Result::Err(e0) => res matches Result::Err(e) && e.deep_view() == e0,
        });
    }
    res
}

// ---------------------------------------------------------------------------
// Reference resolution and the public entry points
// ---------------------------------------------------------------------------

fn has_rule(bs: &Vec<(String, Node)>, name: &String) -> (r: bool)
    ensures
        r == sp_has_rule(bs.deep_view(), name@),
{
    let mut k: usize = 0;
    while k < bs.len()
        invariant
            k <= bs.len(),
            forall|j: int| 0 <= j < k as int ==> bs.deep_view()[j].0 != name@,
        decreases bs.len() - k,
    {
        if crate::lexer::str_eq(bs[k].0.as_str(), name.as_str()) {
            proof {
                assert(bs.deep_view()[k as int].0 == name@);
            }
            return true;
        }
        k = k + 1;
    }
    false
}

#[verifier::rlimit(100)]
#[verifier::spinoff_prover]
fn check_node(bs: &Vec<(String, Node)>, n: &Node) -> (r: Result<(), ValidationError>)
    ensures
        r is Ok <==> sp_refs_ok(bs.deep_view(), n.deep_view()),
        r matches Result::Err(e) ==> e matches ValidationError::UnknownRule(m) && !sp_has_rule(
            bs.deep_view(),
            m@,
        ),
    decreases *n, 0int, 0int,
{
    proof {
        reveal_with_fuel(sp_refs_ok, 2);
        reveal_with_fuel(dv_node, 1);
    }
    match n {
        Node::Literal(_) => Result::Ok(()),
        Node::PreludeType(_) => Result::Ok(()),
        Node::Rule(name) => {
            if has_rule(bs, name) {
                Result::Ok(())
            } else {
                Result::Err(ValidationError::UnknownRule(name.clone()))
            }
        },
        Node::Choice(opts) => {
            let r = check_nodes(bs, opts, 0);
            proof {
                reveal_with_fuel(dv_node_seq, 1);
                assert(dv_node_seq(opts@) =~= opts.deep_view());
            }
            r
        },
        Node::MapNode(ms) => {
            let r = check_kvs(bs, ms, 0);
            proof {
                reveal_with_fuel(dv_kv_seq, 1);
                assert(dv_kv_seq(ms@) =~= ms.deep_view());
            }
            r
        },
        Node::ArrayNode(ms) => {
            let r = check_kvs(bs, ms, 0);
            proof {
                reveal_with_fuel(dv_kv_seq, 1);
                assert(dv_kv_seq(ms@) =~= ms.deep_view());
            }
            r
        },
    }
}

#[verifier::rlimit(100)]
#[verifier::spinoff_prover]
fn check_nodes(bs: &Vec<(String, Node)>, ns: &Vec<Node>, k: usize) -> (r: Result<
    (),
    ValidationError,
>)
    requires
        k <= ns.len(),
    ensures
        r is Ok <==> sp_refs_ok_seq(bs.deep_view(), ns.deep_view(), k as int),
        r matches Result::Err(e) ==> e matches ValidationError::UnknownRule(m) && !sp_has_rule(
            bs.deep_view(),
            m@,
        ),
    decreases *ns, ns.len() - k, 1int,
{
    proof {
        reveal_with_fuel(sp_refs_ok_seq, 2);
    }
    if k < ns.len() {
        match check_node(bs, &ns[k]) {
            Result::Ok(()) => check_nodes(bs, ns, k + 1),
            Result::Err(e) => Result::Err(e),
        }
    } else {
        Result::Ok(())
    }
}

#[verifier::rlimit(100)]
#[verifier::spinoff_prover]
fn check_kvs(bs: &Vec<(String, Node)>, ms: &Vec<KeyValue>, k: usize) -> (r: Result<
    (),
    ValidationError,
>)
    requires
        k <= ms.len(),
    ensures
        r is Ok <==> sp_refs_ok_kvs(bs.deep_view(), ms.deep_view(), k as int),
        r matches Result::Err(e) ==> e matches ValidationError::UnknownRule(m) && !sp_has_rule(
            bs.deep_view(),
            m@,
        ),
    decreases *ms, ms.len() - k, 1int,
{
    proof {
        reveal_with_fuel(sp_refs_ok_kvs, 2);
        reveal_with_fuel(dv_kv, 1);
    }
    if k < ms.len() {
        let key_ok: Result<(), ValidationError> = match &ms[k].key {
            Option::Some(key) => check_node(bs, key),
            Option::None => Result::Ok(()),
        };
        match key_ok {
            Result::Ok(()) => match check_node(bs, &ms[k].value) {
                Result::Ok(()) => check_kvs(bs, ms, k + 1),
                Result::Err(e) => Result::Err(e),
            },
            Result::Err(e) => Result::Err(e),
        }
    } else {
        Result::Ok(())
    }
}

#[verifier::rlimit(100)]
#[verifier::spinoff_prover]
fn resolve_from(s: &Schema, k: usize) -> (r: Result<(), ValidationError>)
    requires
        k <= s.rules.len(),
    ensures
        r is Ok <==> sp_schema_refs_ok(s.deep_view(), k as int),
        r matches Result::Err(e) ==> e matches ValidationError::UnknownRule(m) && !sp_has_rule(
            s.deep_view(),
            m@,
        ),
    decreases s.rules.len() - k,
{
    proof {
        reveal_with_fuel(sp_schema_refs_ok, 2);
        assert(s.deep_view() =~= s.rules.deep_view());
    }
    if k < s.rules.len() {
        match check_node(&s.rules, &s.rules[k].1) {
            Result::Ok(()) => resolve_from(s, k + 1),
            Result::Err(e) => Result::Err(e),
        }
    } else {
        Result::Ok(())
    }
}

/// Checks that every rule reference of the schema, reached along owning
/// edges, names a rule the schema binds; the error carries a name that no
/// rule binds.
pub fn resolve_rule_refs(s: &Schema) -> (r: Result<(), ValidationError>)
    ensures
        r is Ok <==> sp_schema_refs_ok(s.deep_view(), 0),
        r matches Result::Err(e) ==> e matches ValidationError::UnknownRule(m) && !sp_has_rule(
            s.deep_view(),
            m@,
        ),
{
    resolve_from(s, 0)
}

/// Builds a schema from a parsed document: one binding per rule, in source
/// order, each the flattening of the rule's right-hand side; fails with
/// `UnknownRule` when a rule reference names no rule of the schema.
pub fn flatten(ast: &Cddl) -> (r: Result<Schema, ValidationError>)
    ensures
        match sp_flatten_rules(dv_cddl(*ast).rules, 0) {
            Result::Err(e0) => r matches Result::Err(e) && e.deep_view() == e0,
            Result::Ok(bs) => {
                if sp_schema_refs_ok(bs, 0) {
                    r matches Result::Ok(s) && s.deep_view() == bs
                } else {
                    r matches Result::Err(e) && e matches ValidationError::UnknownRule(m)
                        && !sp_has_rule(bs, m@)
                }
            },
        },
{
    proof {
        assert(dv_cddl(*ast).rules =~= crate::ast::dv_rule_seq(ast.rules@));
    }
    match flatten_rule_list(&ast.rules, 0) {
        Result::Err(e) => Result::Err(e),
        Result::Ok(bindings) => {
            let schema = Schema { rules: bindings };
            proof {
                assert(schema.deep_view() =~= schema.rules.deep_view());
            }
            match resolve_rule_refs(&schema) {
                Result::Ok(()) => Result::Ok(schema),
                Result::Err(e) => Result::Err(e),
            }
        },
    }
}

/// Parses CDDL text and builds its schema: exactly [`parse_cddl`] followed
/// by [`flatten`], a parse failure carried as `ValidationError::Parse`.
pub fn flatten_from_str(cddl_input: &str) -> (r: Result<Schema, ValidationError>)
    ensures
        match sp_parse_cddl(cddl_input@) {
            Result::Err(e0) => r matches Result::Err(e) && e.deep_view()
                == SpecValidationError::Parse(e0),
            Result::Ok(c) => match sp_flatten_rules(c.rules, 0) {
                Result::Err(e0) => r matches Result::Err(e) && e.deep_view() == e0,
                Result::Ok(bs) => {
                    if sp_schema_refs_ok(bs, 0) {
                        r matches Result::Ok(s) && s.deep_view() == bs
                    } else {
                        r matches Result::Err(e) && e matches ValidationError::UnknownRule(m)
                            && !sp_has_rule(bs, m@)
                    }
                },
            },
        },
{
    match parse_cddl(cddl_input) {
        Result::Ok(ast) => {
            let r = flatten(&ast);
            proof {
                assert(dv_cddl(ast) == ast.deep_view());
            }
            r
        },
        Result::Err(e) => Result::Err(ValidationError::Parse(e)),
    }
}

} // verus!
