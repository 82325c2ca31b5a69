//! The syntax tree produced by the CDDL parser.
//!
//! The tree is transient: it is produced by [`crate::parser::parse_cddl`] and
//! consumed by the flattener.  Each executable type has a ghost mirror (the
//! `Spec*` types) stating its mathematical content: text becomes `Seq<char>`,
//! vectors become `Seq`.  A float literal is carried as its source text,
//! since verified code holds no floating-point values; consumers decide how
//! to interpret it.

use vstd::prelude::*;

verus! {

/// A literal value appearing in CDDL source text.
#[derive(Debug, PartialEq)]
pub enum Value {
    /// An unsigned integer literal.
    Uint(u64),
    /// A negative integer literal (the value stored is negative).
    Nint(i64),
    /// A floating-point literal, kept as its source text.
    Float(String),
    /// A text literal, after escape expansion.
    Text(String),
    /// A byte-string literal.
    Bytes(Vec<u8>),
}

/// Ghost mirror of [`Value`].
pub enum SpecValue {
    Uint(u64),
    Nint(i64),
    Float(Seq<char>),
    Text(Seq<char>),
    Bytes(Seq<u8>),
}

/// An occurrence indicator on a group entry.
#[derive(Debug, PartialEq, Clone, Copy)]
pub enum Occur {
    /// `?`: zero or one.
    Optional,
    /// `*`: any number.
    ZeroOrMore,
    /// `+`: one or more.
    OneOrMore,
    /// `n*m`: between `n` and `m`; an absent bound was already replaced by
    /// `0` or `usize::MAX` by the parser.
    Numbered(usize, usize),
}

/// A non-empty sequence of choice alternatives separated by `/`.
#[derive(Debug, PartialEq)]
pub struct Type(pub Vec<Type1>);

/// Ghost mirror of [`Type`].
pub struct SpecType(pub Seq<SpecType1>);

/// One choice alternative: a plain type, a range, or a control expression.
#[derive(Debug, PartialEq)]
pub enum Type1 {
    /// A plain `type2`.
    Simple(Type2),
    /// `start .. end` or `start ... end`.
    Range(TypeRange),
    /// `first .op second`.
    Control(TypeControl),
}

/// Ghost mirror of [`Type1`].
pub enum SpecType1 {
    Simple(SpecType2),
    Range(SpecTypeRange),
    Control(SpecTypeControl),
}

/// A range expression `start .. end` (inclusive) or `start ... end`.
#[derive(Debug, PartialEq)]
pub struct TypeRange {
    pub start: Type2,
    pub end: Type2,
    pub inclusive: bool,
}

/// Ghost mirror of [`TypeRange`].
pub struct SpecTypeRange {
    pub start: SpecType2,
    pub end: SpecType2,
    pub inclusive: bool,
}

/// A control expression `first .op second`; the operator is recognized but
/// carries no validation semantics here.
#[derive(Debug, PartialEq)]
pub struct TypeControl {
    pub first: Type2,
    pub op: String,
    pub second: Type2,
}

/// Ghost mirror of [`TypeControl`].
pub struct SpecTypeControl {
    pub first: SpecType2,
    pub op: Seq<char>,
    pub second: SpecType2,
}

/// The base alternatives of `type2`.
#[derive(Debug, PartialEq)]
pub enum Type2 {
    /// A literal value.
    Value(Value),
    /// A type or rule name.
    Typename(String),
    /// `( type )`.
    Parenthesized(Type),
    /// `{ group }`.
    MapGroup(Group),
    /// `[ group ]`.
    Array(Group),
    /// `~ name`.
    Unwrap(String),
}

/// Ghost mirror of [`Type2`].
pub enum SpecType2 {
    Value(SpecValue),
    Typename(Seq<char>),
    Parenthesized(SpecType),
    MapGroup(SpecGroup),
    Array(SpecGroup),
    Unwrap(Seq<char>),
}

/// A non-empty sequence of group choices separated by `//`.
#[derive(Debug, PartialEq)]
pub struct Group(pub Vec<GrpChoice>);

/// Ghost mirror of [`Group`].
pub struct SpecGroup(pub Seq<SpecGrpChoice>);

/// One group choice: a possibly empty sequence of group entries.
#[derive(Debug, PartialEq)]
pub struct GrpChoice(pub Vec<GrpEnt>);

/// Ghost mirror of [`GrpChoice`].
pub struct SpecGrpChoice(pub Seq<SpecGrpEnt>);

/// A group entry with its optional occurrence indicator.
#[derive(Debug, PartialEq)]
pub struct GrpEnt {
    pub occur: Option<Occur>,
    pub val: GrpEntVal,
}

/// Ghost mirror of [`GrpEnt`].
pub struct SpecGrpEnt {
    pub occur: Option<Occur>,
    pub val: SpecGrpEntVal,
}

/// The payload of a group entry.
#[derive(Debug, PartialEq)]
pub enum GrpEntVal {
    /// `[memberkey] type`.
    Member(Member),
    /// A bare group name.
    Groupname(String),
    /// `( group )`.
    Parenthesized(Group),
}

/// Ghost mirror of [`GrpEntVal`].
pub enum SpecGrpEntVal {
    Member(SpecMember),
    Groupname(Seq<char>),
    Parenthesized(SpecGroup),
}

/// A member: an optional member key and a value type.
#[derive(Debug, PartialEq)]
pub struct Member {
    pub key: Option<MemberKey>,
    pub value: Type,
}

/// Ghost mirror of [`Member`].
pub struct SpecMember {
    pub key: Option<SpecMemberKey>,
    pub value: SpecType,
}

/// A member key together with its cut flag: `:` keys are always cut, `=>`
/// keys are cut only when marked with `^`.
#[derive(Debug, PartialEq)]
pub struct MemberKey {
    pub val: MemberKeyVal,
    pub cut: bool,
}

/// Ghost mirror of [`MemberKey`].
pub struct SpecMemberKey {
    pub val: SpecMemberKeyVal,
    pub cut: bool,
}

/// The payload of a member key.
#[derive(Debug, PartialEq)]
pub enum MemberKeyVal {
    /// `type1 =>`, optionally with `^`.
    Type1(Type1),
    /// `bareword :`.
    Bareword(String),
    /// `value :`.
    Value(Value),
}

/// Ghost mirror of [`MemberKeyVal`].
pub enum SpecMemberKeyVal {
    Type1(SpecType1),
    Bareword(Seq<char>),
    Value(SpecValue),
}

/// The right-hand side of a rule.
#[derive(Debug, PartialEq)]
pub enum RuleVal {
    /// `name = type`.
    AssignType(Type),
    /// `name = grpent` (taken when the right-hand side is not a type).
    AssignGroup(GrpEnt),
}

/// Ghost mirror of [`RuleVal`].
pub enum SpecRuleVal {
    AssignType(SpecType),
    AssignGroup(SpecGrpEnt),
}

/// A single top-level rule.
#[derive(Debug, PartialEq)]
pub struct Rule {
    pub name: String,
    pub val: RuleVal,
}

/// Ghost mirror of [`Rule`].
pub struct SpecRule {
    pub name: Seq<char>,
    pub val: SpecRuleVal,
}

/// A parsed CDDL document: its rules in source order.
#[derive(Debug, PartialEq)]
pub struct Cddl {
    pub rules: Vec<Rule>,
}

/// Ghost mirror of [`Cddl`].
pub struct SpecCddl {
    pub rules: Seq<SpecRule>,
}

/// A parsed CDDL document where each rule carries the source text it was
/// parsed from.
#[derive(Debug, PartialEq)]
pub struct CddlSlice {
    pub rules: Vec<(Rule, String)>,
}

/// Ghost mirror of [`CddlSlice`].
pub struct SpecCddlSlice {
    pub rules: Seq<(SpecRule, Seq<char>)>,
}

// The abstraction functions below relate each executable tree to its ghost
// mirror.  They recurse structurally; the `DeepView` impls at the end
// delegate to them.

pub open spec fn dv_value(v: Value) -> SpecValue {
    match v {
        Value::Uint(n) => SpecValue::Uint(n),
        Value::Nint(n) => SpecValue::Nint(n),
        Value::Float(s) => SpecValue::Float(s@),
        Value::Text(s) => SpecValue::Text(s@),
        Value::Bytes(b) => SpecValue::Bytes(b@),
    }
}

#[verifier::opaque]
pub open spec fn dv_type(t: Type) -> SpecType
    decreases t,
{
    SpecType(dv_type1_seq(t.0@))
}

#[verifier::opaque]
pub open spec fn dv_type1_seq(s: Seq<Type1>) -> Seq<SpecType1>
    decreases s,
{
    Seq::new(s.len(), |i: int| if 0 <= i < s.len() { dv_type1(s[i]) } else { arbitrary() })
}

#[verifier::opaque]
pub open spec fn dv_type1(t: Type1) -> SpecType1
    decreases t,
{
    match t {
        Type1::Simple(t2) => SpecType1::Simple(dv_type2(t2)),
        Type1::Range(r) => SpecType1::Range(
            SpecTypeRange { start: dv_type2(r.start), end: dv_type2(r.end), inclusive: r.inclusive },
        ),
        Type1::Control(c) => SpecType1::Control(
            SpecTypeControl { first: dv_type2(c.first), op: c.op@, second: dv_type2(c.second) },
        ),
    }
}

#[verifier::opaque]
pub open spec fn dv_type2(t: Type2) -> SpecType2
    decreases t,
{
    match t {
        Type2::Value(v) => SpecType2::Value(dv_value(v)),
        Type2::Typename(s) => SpecType2::Typename(s@),
        Type2::Parenthesized(ty) => SpecType2::Parenthesized(dv_type(ty)),
        Type2::MapGroup(g) => SpecType2::MapGroup(dv_group(g)),
        Type2::Array(g) => SpecType2::Array(dv_group(g)),
        Type2::Unwrap(s) => SpecType2::Unwrap(s@),
    }
}

#[verifier::opaque]
pub open spec fn dv_group(g: Group) -> SpecGroup
    decreases g,
{
    SpecGroup(dv_grpchoice_seq(g.0@))
}

#[verifier::opaque]
pub open spec fn dv_grpchoice_seq(s: Seq<GrpChoice>) -> Seq<SpecGrpChoice>
    decreases s,
{
    Seq::new(s.len(), |i: int| if 0 <= i < s.len() { dv_grpchoice(s[i]) } else { arbitrary() })
}

#[verifier::opaque]
pub open spec fn dv_grpchoice(gc: GrpChoice) -> SpecGrpChoice
    decreases gc,
{
    SpecGrpChoice(dv_grpent_seq(gc.0@))
}

#[verifier::opaque]
pub open spec fn dv_grpent_seq(s: Seq<GrpEnt>) -> Seq<SpecGrpEnt>
    decreases s,
{
    Seq::new(s.len(), |i: int| if 0 <= i < s.len() { dv_grpent(s[i]) } else { arbitrary() })
}

#[verifier::opaque]
pub open spec fn dv_grpent(ge: GrpEnt) -> SpecGrpEnt
    decreases ge,
{
    SpecGrpEnt { occur: ge.occur, val: dv_grpentval(ge.val) }
}

#[verifier::opaque]
pub open spec fn dv_grpentval(v: GrpEntVal) -> SpecGrpEntVal
    decreases v,
{
    match v {
        GrpEntVal::Member(m) => SpecGrpEntVal::Member(dv_member(m)),
        GrpEntVal::Groupname(s) => SpecGrpEntVal::Groupname(s@),
        GrpEntVal::Parenthesized(g) => SpecGrpEntVal::Parenthesized(dv_group(g)),
    }
}

#[verifier::opaque]
pub open spec fn dv_member(m: Member) -> SpecMember
    decreases m,
{
    SpecMember {
        key: match m.key {
            Option::Some(k) => Option::Some(dv_memberkey(k)),
            Option::None => Option::None,
        },
        value: dv_type(m.value),
    }
}

#[verifier::opaque]
pub open spec fn dv_memberkey(k: MemberKey) -> SpecMemberKey
    decreases k,
{
    SpecMemberKey { val: dv_memberkeyval(k.val), cut: k.cut }
}

#[verifier::opaque]
pub open spec fn dv_memberkeyval(v: MemberKeyVal) -> SpecMemberKeyVal
    decreases v,
{
    match v {
        MemberKeyVal::Type1(t) => SpecMemberKeyVal::Type1(dv_type1(t)),
        MemberKeyVal::Bareword(s) => SpecMemberKeyVal::Bareword(s@),
        MemberKeyVal::Value(val) => SpecMemberKeyVal::Value(dv_value(val)),
    }
}

#[verifier::opaque]
pub open spec fn dv_ruleval(v: RuleVal) -> SpecRuleVal
    decreases v,
{
    match v {
        RuleVal::AssignType(t) => SpecRuleVal::AssignType(dv_type(t)),
        RuleVal::AssignGroup(g) => SpecRuleVal::AssignGroup(dv_grpent(g)),
    }
}

pub open spec fn dv_rule(r: Rule) -> SpecRule {
    SpecRule { name: r.name@, val: dv_ruleval(r.val) }
}

pub open spec fn dv_rule_seq(s: Seq<Rule>) -> Seq<SpecRule> {
    Seq::new(s.len(), |i: int| dv_rule(s[i]))
}

pub open spec fn dv_cddl(c: Cddl) -> SpecCddl {
    SpecCddl { rules: dv_rule_seq(c.rules@) }
}

pub open spec fn dv_cddl_slice(c: CddlSlice) -> SpecCddlSlice {
    SpecCddlSlice { rules: Seq::new(c.rules@.len(), |i: int| (dv_rule(c.rules@[i].0), c.rules@[i].1@)) }
}

impl DeepView for Value {
    type V = SpecValue;

    open spec fn deep_view(&self) -> SpecValue {
        dv_value(*self)
    }
}

impl DeepView for Occur {
    type V = Occur;

    open spec fn deep_view(&self) -> Occur {
        *self
    }
}

impl DeepView for Type {
    type V = SpecType;

    open spec fn deep_view(&self) -> SpecType {
        dv_type(*self)
    }
}

impl DeepView for Type1 {
    type V = SpecType1;

    open spec fn deep_view(&self) -> SpecType1 {
        dv_type1(*self)
    }
}

impl DeepView for Type2 {
    type V = SpecType2;

    open spec fn deep_view(&self) -> SpecType2 {
        dv_type2(*self)
    }
}

impl DeepView for Group {
    type V = SpecGroup;

    open spec fn deep_view(&self) -> SpecGroup {
        dv_group(*self)
    }
}

impl DeepView for GrpChoice {
    type V = SpecGrpChoice;

    open spec fn deep_view(&self) -> SpecGrpChoice {
        dv_grpchoice(*self)
    }
}

impl DeepView for GrpEnt {
    type V = SpecGrpEnt;

    open spec fn deep_view(&self) -> SpecGrpEnt {
        dv_grpent(*self)
    }
}

impl DeepView for GrpEntVal {
    type V = SpecGrpEntVal;

    open spec fn deep_view(&self) -> SpecGrpEntVal {
        dv_grpentval(*self)
    }
}

impl DeepView for Member {
    type V = SpecMember;

    open spec fn deep_view(&self) -> SpecMember {
        dv_member(*self)
    }
}

impl DeepView for MemberKey {
    type V = SpecMemberKey;

    open spec fn deep_view(&self) -> SpecMemberKey {
        dv_memberkey(*self)
    }
}

impl DeepView for MemberKeyVal {
    type V = SpecMemberKeyVal;

    open spec fn deep_view(&self) -> SpecMemberKeyVal {
        dv_memberkeyval(*self)
    }
}

impl DeepView for RuleVal {
    type V = SpecRuleVal;

    open spec fn deep_view(&self) -> SpecRuleVal {
        dv_ruleval(*self)
    }
}

impl DeepView for Rule {
    type V = SpecRule;

    open spec fn deep_view(&self) -> SpecRule {
        dv_rule(*self)
    }
}

impl DeepView for Cddl {
    type V = SpecCddl;

    open spec fn deep_view(&self) -> SpecCddl {
        dv_cddl(*self)
    }
}

impl DeepView for CddlSlice {
    type V = SpecCddlSlice;

    open spec fn deep_view(&self) -> SpecCddlSlice {
        dv_cddl_slice(*self)
    }
}

} // verus!
