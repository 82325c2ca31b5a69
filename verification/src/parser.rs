//! The CDDL grammar: rules, types, groups, member keys and occurrences.
//!
//! The grammar is RFC 8610 as narrowed by this crate's scope.  Each
//! executable parsing function mirrors a ghost twin (`sp_*`) over
//! `Seq<char>`; the twins form a mutually recursive definition of the
//! grammar whose termination is measured by the remaining input length
//! together with a rank for the chain of productions that may consume
//! nothing before delegating.
//!
//! Alternatives are tried in source order.  A soft miss lets the next
//! alternative run; a hard error (a malformed integer, text or hex literal)
//! stops the whole parse, as the error policy demands.

use vstd::prelude::*;

use crate::ast::{
    dv_group, dv_grpchoice, dv_grpchoice_seq, dv_grpent, dv_grpent_seq, dv_grpentval, dv_member,
    dv_memberkey, dv_memberkeyval, dv_ruleval, dv_type, dv_type1, dv_type1_seq, dv_type2, Cddl,
    CddlSlice, Group, GrpChoice, GrpEnt, GrpEntVal, Member, MemberKey, MemberKeyVal, Rule,
    RuleVal, SpecCddl, SpecCddlSlice, SpecGroup, SpecGrpChoice, SpecGrpEnt, SpecGrpEntVal,
    SpecMember, SpecMemberKey, SpecMemberKeyVal, SpecRule, SpecRuleVal, SpecType, SpecType1,
    SpecType2, SpecTypeControl, SpecTypeRange, Type, Type1, Type2, TypeControl, TypeRange,
};
use crate::lexer::{
    chars_to_string, clamp_pos, ident, occur, optcom, sfound_in, sp_ident, sp_occur, sp_optcom,
    sp_value, sp_ws, str_to_chars, sub_chars, value, ws, ErrorKind, ParseError, SpecParseError,
    SpecStep, Step,
};

verus! {

/// What stands between the two ends of a `type1`: a range operator or a
/// control operator name.
#[derive(Debug, PartialEq)]
pub enum RangeCtl {
    /// `..` (inclusive range).
    Incl,
    /// `...` (exclusive range).
    Excl,
    /// `.name` (control operator).
    Op(String),
}

/// Ghost mirror of [`RangeCtl`].
pub enum SpecRangeCtl {
    Incl,
    Excl,
    Op(Seq<char>),
}

impl DeepView for RangeCtl {
    type V = SpecRangeCtl;

    open spec fn deep_view(&self) -> SpecRangeCtl {
        match self {
            RangeCtl::Incl => SpecRangeCtl::Incl,
            RangeCtl::Excl => SpecRangeCtl::Excl,
            RangeCtl::Op(s) => SpecRangeCtl::Op(s@),
        }
    }
}

// ---------------------------------------------------------------------------
// The ghost grammar
// ---------------------------------------------------------------------------

/// Ghost twin of [`type2`].
#[verifier::opaque]
pub open spec fn sp_type2(s: Seq<char>, i: int) -> SpecStep<SpecType2>
    decreases s.len() - i, 8int,
{
    if 0 <= i <= s.len() {
        let len = s.len() as int;
        match sp_value(s, i) {
            SpecStep::Found(j, v) => SpecStep::Found(j, SpecType2::Value(v)),
            SpecStep::Abort(e) => SpecStep::Abort(e),
            SpecStep::Miss => match sp_ident(s, i) {
                SpecStep::Found(j, name) => SpecStep::Found(j, SpecType2::Typename(name)),
                SpecStep::Abort(e) => SpecStep::Abort(e),
                SpecStep::Miss => {
                    if 0 <= i < len && s[i] == '(' {
                        let m = sp_ws(s, clamp_pos(i + 1, 0, len));
                        match sp_ty(s, m) {
                            SpecStep::Found(j, t) => {
                                let w = sp_ws(s, clamp_pos(j, m, len));
                                if w < len && s[w] == ')' {
                                    SpecStep::Found(w + 1, SpecType2::Parenthesized(t))
                                } else {
                                    SpecStep::Miss
                                }
                            },
                            SpecStep::Abort(e) => SpecStep::Abort(e),
                            SpecStep::Miss => SpecStep::Miss,
                        }
                    } else if 0 <= i < len && s[i] == '{' {
                        let m = sp_ws(s, clamp_pos(i + 1, 0, len));
                        match sp_group(s, m) {
                            SpecStep::Found(j, g) => {
                                let w = sp_ws(s, clamp_pos(j, m, len));
                                if w < len && s[w] == '}' {
                                    SpecStep::Found(w + 1, SpecType2::MapGroup(g))
                                } else {
                                    SpecStep::Miss
                                }
                            },
                            SpecStep::Abort(e) => SpecStep::Abort(e),
                            SpecStep::Miss => SpecStep::Miss,
                        }
                    } else if 0 <= i < len && s[i] == '[' {
                        let m = sp_ws(s, clamp_pos(i + 1, 0, len));
                        match sp_group(s, m) {
                            SpecStep::Found(j, g) => {
                                let w = sp_ws(s, clamp_pos(j, m, len));
                                if w < len && s[w] == ']' {
                                    SpecStep::Found(w + 1, SpecType2::Array(g))
                                } else {
                                    SpecStep::Miss
                                }
                            },
                            SpecStep::Abort(e) => SpecStep::Abort(e),
                            SpecStep::Miss => SpecStep::Miss,
                        }
                    } else if 0 <= i < len && s[i] == '~' {
                        let m = sp_ws(s, clamp_pos(i + 1, 0, len));
                        match sp_ident(s, m) {
                            SpecStep::Found(j, name) => SpecStep::Found(j, SpecType2::Unwrap(name)),
                            _ => SpecStep::Miss,
                        }
                    } else {
                        SpecStep::Miss
                    }
                },
            },
        }
    } else {
        SpecStep::Miss
    }
}

/// Ghost twin of [`range_or_control_op`].
#[verifier::opaque]
pub open spec fn sp_range_or_control_op(s: Seq<char>, i: int) -> SpecStep<(SpecRangeCtl, SpecType2)>
    decreases s.len() - i, 9int,
{
    if 0 <= i <= s.len() {
        let len = s.len() as int;
        if 0 <= i && i + 2 < len && s[i] == '.' && s[i + 1] == '.' && s[i + 2] == '.' {
            let m = sp_ws(s, clamp_pos(i + 3, 0, len));
            match sp_type2(s, m) {
                SpecStep::Found(j, t) => SpecStep::Found(j, (SpecRangeCtl::Excl, t)),
                SpecStep::Abort(e) => SpecStep::Abort(e),
                SpecStep::Miss => SpecStep::Miss,
            }
        } else if 0 <= i && i + 1 < len && s[i] == '.' && s[i + 1] == '.' {
            let m = sp_ws(s, clamp_pos(i + 2, 0, len));
            match sp_type2(s, m) {
                SpecStep::Found(j, t) => SpecStep::Found(j, (SpecRangeCtl::Incl, t)),
                SpecStep::Abort(e) => SpecStep::Abort(e),
                SpecStep::Miss => SpecStep::Miss,
            }
        } else if 0 <= i < len && s[i] == '.' {
            match sp_ident(s, clamp_pos(i + 1, 0, len)) {
                SpecStep::Found(j, name) => {
                    let m = sp_ws(s, clamp_pos(j, i + 1, len));
                    match sp_type2(s, m) {
                        SpecStep::Found(j2, t) => SpecStep::Found(j2, (SpecRangeCtl::Op(name), t)),
                        SpecStep::Abort(e) => SpecStep::Abort(e),
                        SpecStep::Miss => SpecStep::Miss,
                    }
                },
                _ => SpecStep::Miss,
            }
        } else {
            SpecStep::Miss
        }
    } else {
        SpecStep::Miss
    }
}

/// Ghost twin of [`type1`].
#[verifier::opaque]
pub open spec fn sp_type1(s: Seq<char>, i: int) -> SpecStep<SpecType1>
    decreases s.len() - i, 10int,
{
    if 0 <= i <= s.len() {
        let len = s.len() as int;
        match sp_type2(s, i) {
            SpecStep::Abort(e) => SpecStep::Abort(e),
            SpecStep::Miss => SpecStep::Miss,
            SpecStep::Found(j0, t2) => {
                let j = clamp_pos(j0, i + 1, len);
                let w = sp_ws(s, j);
                match sp_range_or_control_op(s, w) {
                    SpecStep::Miss => SpecStep::Found(j, SpecType1::Simple(t2)),
                    SpecStep::Abort(e) => SpecStep::Abort(e),
                    SpecStep::Found(e, (op, second)) => match op {
                        SpecRangeCtl::Incl => SpecStep::Found(
                            e,
                            SpecType1::Range(
                                SpecTypeRange { start: t2, end: second, inclusive: true },
                            ),
                        ),
                        SpecRangeCtl::Excl => SpecStep::Found(
                            e,
                            SpecType1::Range(
                                SpecTypeRange { start: t2, end: second, inclusive: false },
                            ),
                        ),
                        SpecRangeCtl::Op(name) => SpecStep::Found(
                            e,
                            SpecType1::Control(
                                SpecTypeControl { first: t2, op: name, second },
                            ),
                        ),
                    },
                }
            },
        }
    } else {
        SpecStep::Miss
    }
}

/// Ghost twin of the `/`-separated tail of a type: the remaining
/// alternatives after the first.
#[verifier::opaque]
pub open spec fn sp_ty_tail(s: Seq<char>, i: int) -> SpecStep<Seq<SpecType1>>
    decreases s.len() - i, 11int,
{
    if 0 <= i <= s.len() {
        let len = s.len() as int;
        let w = sp_ws(s, i);
        if w < len && s[w] == '/' {
            let m = sp_ws(s, clamp_pos(w + 1, 0, len));
            match sp_type1(s, m) {
                SpecStep::Found(j, t1) => match sp_ty_tail(s, clamp_pos(j, m + 1, len)) {
                    SpecStep::Found(e, rest) => SpecStep::Found(e, seq![t1] + rest),
                    SpecStep::Abort(er) => SpecStep::Abort(er),
                    SpecStep::Miss => SpecStep::Miss,
                },
                SpecStep::Abort(e) => SpecStep::Abort(e),
                SpecStep::Miss => SpecStep::Found(i, Seq::empty()),
            }
        } else {
            SpecStep::Found(i, Seq::empty())
        }
    } else {
        SpecStep::Miss
    }
}

/// Ghost twin of [`ty`].
#[verifier::opaque]
pub open spec fn sp_ty(s: Seq<char>, i: int) -> SpecStep<SpecType>
    decreases s.len() - i, 12int,
{
    if 0 <= i <= s.len() {
        let len = s.len() as int;
        match sp_type1(s, i) {
            SpecStep::Abort(e) => SpecStep::Abort(e),
            SpecStep::Miss => SpecStep::Miss,
            SpecStep::Found(j0, t1) => {
                let j = clamp_pos(j0, i + 1, len);
                match sp_ty_tail(s, j) {
                    SpecStep::Found(e, rest) => SpecStep::Found(e, SpecType(seq![t1] + rest)),
                    SpecStep::Abort(er) => SpecStep::Abort(er),
                    SpecStep::Miss => SpecStep::Miss,
                }
            },
        }
    } else {
        SpecStep::Miss
    }
}

/// Ghost twin of [`memberkey_type1`].
#[verifier::opaque]
pub open spec fn sp_memberkey_type1(s: Seq<char>, i: int) -> SpecStep<SpecMemberKey>
    decreases s.len() - i, 13int,
{
    if 0 <= i <= s.len() {
        let len = s.len() as int;
        match sp_type1(s, i) {
            SpecStep::Abort(e) => SpecStep::Abort(e),
            SpecStep::Miss => SpecStep::Miss,
            SpecStep::Found(j0, t1) => {
                let w = sp_ws(s, clamp_pos(j0, i + 1, len));
                if w < len && s[w] == '^' {
                    let w2 = sp_ws(s, clamp_pos(w + 1, 0, len));
                    if w2 + 1 < len && s[w2] == '=' && s[w2 + 1] == '>' {
                        SpecStep::Found(
                            w2 + 2,
                            SpecMemberKey { val: SpecMemberKeyVal::Type1(t1), cut: true },
                        )
                    } else {
                        SpecStep::Miss
                    }
                } else if w + 1 < len && s[w] == '=' && s[w + 1] == '>' {
                    SpecStep::Found(
                        w + 2,
                        SpecMemberKey { val: SpecMemberKeyVal::Type1(t1), cut: false },
                    )
                } else {
                    SpecStep::Miss
                }
            },
        }
    } else {
        SpecStep::Miss
    }
}

/// Ghost twin of [`memberkey_bareword`].
#[verifier::opaque]
pub open spec fn sp_memberkey_bareword(s: Seq<char>, i: int) -> SpecStep<SpecMemberKey> {
    let len = s.len() as int;
    match sp_ident(s, i) {
        SpecStep::Found(j, name) => {
            let w = sp_ws(s, clamp_pos(j, i + 1, len));
            if w < len && s[w] == ':' {
                SpecStep::Found(
                    w + 1,
                    SpecMemberKey { val: SpecMemberKeyVal::Bareword(name), cut: true },
                )
            } else {
                SpecStep::Miss
            }
        },
        _ => SpecStep::Miss,
    }
}

/// Ghost twin of [`memberkey_value`].
#[verifier::opaque]
pub open spec fn sp_memberkey_value(s: Seq<char>, i: int) -> SpecStep<SpecMemberKey> {
    let len = s.len() as int;
    match sp_value(s, i) {
        SpecStep::Found(j, v) => {
            let w = sp_ws(s, clamp_pos(j, i + 1, len));
            if w < len && s[w] == ':' {
                SpecStep::Found(
                    w + 1,
                    SpecMemberKey { val: SpecMemberKeyVal::Value(v), cut: true },
                )
            } else {
                SpecStep::Miss
            }
        },
        SpecStep::Abort(e) => SpecStep::Abort(e),
        SpecStep::Miss => SpecStep::Miss,
    }
}

/// Ghost twin of [`memberkey`].
#[verifier::opaque]
pub open spec fn sp_memberkey(s: Seq<char>, i: int) -> SpecStep<SpecMemberKey>
    decreases s.len() - i, 14int,
{
    if 0 <= i <= s.len() {
        match sp_memberkey_type1(s, i) {
            SpecStep::Found(j, mk) => SpecStep::Found(j, mk),
            SpecStep::Abort(e) => SpecStep::Abort(e),
            SpecStep::Miss => match sp_memberkey_bareword(s, i) {
                SpecStep::Found(j, mk) => SpecStep::Found(j, mk),
                SpecStep::Abort(e) => SpecStep::Abort(e),
                SpecStep::Miss => sp_memberkey_value(s, i),
            },
        }
    } else {
        SpecStep::Miss
    }
}

/// Ghost twin of [`grpent_member`].
#[verifier::opaque]
pub open spec fn sp_grpent_member(s: Seq<char>, i: int) -> SpecStep<SpecMember>
    decreases s.len() - i, 15int,
{
    if 0 <= i <= s.len() {
        let len = s.len() as int;
        match sp_memberkey(s, i) {
            SpecStep::Abort(e) => SpecStep::Abort(e),
            SpecStep::Found(j0, mk) => {
                let k = sp_ws(s, clamp_pos(j0, i + 1, len));
                match sp_ty(s, k) {
                    SpecStep::Found(e, t) => SpecStep::Found(
                        e,
                        SpecMember { key: Option::Some(mk), value: t },
                    ),
                    SpecStep::Abort(er) => SpecStep::Abort(er),
                    SpecStep::Miss => SpecStep::Miss,
                }
            },
            SpecStep::Miss => match sp_ty(s, i) {
                SpecStep::Found(e, t) => SpecStep::Found(
                    e,
                    SpecMember { key: Option::None, value: t },
                ),
                SpecStep::Abort(er) => SpecStep::Abort(er),
                SpecStep::Miss => SpecStep::Miss,
            },
        }
    } else {
        SpecStep::Miss
    }
}

/// Ghost twin of [`grpent_parens`].
#[verifier::opaque]
pub open spec fn sp_grpent_parens(s: Seq<char>, i: int) -> SpecStep<SpecGroup>
    decreases s.len() - i, 15int,
{
    if 0 <= i <= s.len() {
        let len = s.len() as int;
        if 0 <= i < len && s[i] == '(' {
            let m = sp_ws(s, clamp_pos(i + 1, 0, len));
            match sp_group(s, m) {
                SpecStep::Found(j, g) => {
                    let w = sp_ws(s, clamp_pos(j, m, len));
                    if w < len && s[w] == ')' {
                        SpecStep::Found(w + 1, g)
                    } else {
                        SpecStep::Miss
                    }
                },
                SpecStep::Abort(e) => SpecStep::Abort(e),
                SpecStep::Miss => SpecStep::Miss,
            }
        } else {
            SpecStep::Miss
        }
    } else {
        SpecStep::Miss
    }
}

/// Ghost twin of [`grpent_val`].
#[verifier::opaque]
pub open spec fn sp_grpent_val(s: Seq<char>, i: int) -> SpecStep<SpecGrpEntVal>
    decreases s.len() - i, 16int,
{
    if 0 <= i <= s.len() {
        match sp_grpent_member(s, i) {
            SpecStep::Found(j, m) => SpecStep::Found(j, SpecGrpEntVal::Member(m)),
            SpecStep::Abort(e) => SpecStep::Abort(e),
            SpecStep::Miss => match sp_ident(s, i) {
                SpecStep::Found(j, name) => SpecStep::Found(j, SpecGrpEntVal::Groupname(name)),
                _ => match sp_grpent_parens(s, i) {
                    SpecStep::Found(j, g) => SpecStep::Found(j, SpecGrpEntVal::Parenthesized(g)),
                    SpecStep::Abort(e) => SpecStep::Abort(e),
                    SpecStep::Miss => SpecStep::Miss,
                },
            },
        }
    } else {
        SpecStep::Miss
    }
}

/// Ghost twin of [`grpent`].
#[verifier::opaque]
pub open spec fn sp_grpent(s: Seq<char>, i: int) -> SpecStep<SpecGrpEnt>
    decreases s.len() - i, 17int,
{
    if 0 <= i <= s.len() {
        let len = s.len() as int;
        match sp_occur(s, i) {
            SpecStep::Abort(e) => SpecStep::Abort(e),
            SpecStep::Found(j0, oc) => {
                let k = sp_ws(s, clamp_pos(j0, i + 1, len));
                match sp_grpent_val(s, k) {
                    SpecStep::Found(e, v) => SpecStep::Found(
                        e,
                        SpecGrpEnt { occur: Option::Some(oc), val: v },
                    ),
                    SpecStep::Abort(er) => SpecStep::Abort(er),
                    SpecStep::Miss => SpecStep::Miss,
                }
            },
            SpecStep::Miss => match sp_grpent_val(s, i) {
                SpecStep::Found(e, v) => SpecStep::Found(
                    e,
                    SpecGrpEnt { occur: Option::None, val: v },
                ),
                SpecStep::Abort(er) => SpecStep::Abort(er),
                SpecStep::Miss => SpecStep::Miss,
            },
        }
    } else {
        SpecStep::Miss
    }
}

/// Ghost twin of the entry list of a group choice: entries separated by
/// optional commas, as many as are present.
#[verifier::opaque]
pub open spec fn sp_grpchoice_items(s: Seq<char>, i: int) -> SpecStep<Seq<SpecGrpEnt>>
    decreases s.len() - i, 18int,
{
    if 0 <= i <= s.len() {
        let len = s.len() as int;
        match sp_grpent(s, i) {
            SpecStep::Miss => SpecStep::Found(i, Seq::empty()),
            SpecStep::Abort(e) => SpecStep::Abort(e),
            SpecStep::Found(j0, ge) => {
                if i >= len {
                    // nothing can be recognized at the end of the input
                    SpecStep::Miss
                } else {
                let k = sp_optcom(s, clamp_pos(j0, i + 1, len));
                match sp_grpchoice_items(s, k) {
                    SpecStep::Found(e, rest) => SpecStep::Found(e, seq![ge] + rest),
                    SpecStep::Abort(er) => SpecStep::Abort(er),
                    SpecStep::Miss => SpecStep::Miss,
                }
                }
            },
        }
    } else {
        SpecStep::Miss
    }
}

/// Ghost twin of [`grpchoice`].
#[verifier::opaque]
pub open spec fn sp_grpchoice(s: Seq<char>, i: int) -> SpecStep<SpecGrpChoice>
    decreases s.len() - i, 19int,
{
    if 0 <= i <= s.len() {
        match sp_grpchoice_items(s, i) {
            SpecStep::Found(j, ges) => SpecStep::Found(j, SpecGrpChoice(ges)),
            SpecStep::Abort(e) => SpecStep::Abort(e),
            SpecStep::Miss => SpecStep::Miss,
        }
    } else {
        SpecStep::Miss
    }
}

/// Ghost twin of the `//`-separated tail of a group: the remaining choices
/// after the first.
#[verifier::opaque]
pub open spec fn sp_group_tail(s: Seq<char>, i: int) -> SpecStep<Seq<SpecGrpChoice>>
    decreases s.len() - i, 20int,
{
    if 0 <= i <= s.len() {
        let len = s.len() as int;
        let w = sp_ws(s, i);
        if w + 1 < len && s[w] == '/' && s[w + 1] == '/' {
            let m = sp_ws(s, clamp_pos(w + 2, 0, len));
            match sp_grpchoice(s, m) {
                SpecStep::Found(j, gc) => match sp_group_tail(s, clamp_pos(j, m, len)) {
                    SpecStep::Found(e, rest) => SpecStep::Found(e, seq![gc] + rest),
                    SpecStep::Abort(er) => SpecStep::Abort(er),
                    SpecStep::Miss => SpecStep::Miss,
                },
                SpecStep::Abort(e) => SpecStep::Abort(e),
                SpecStep::Miss => SpecStep::Miss,
            }
        } else {
            SpecStep::Found(i, Seq::empty())
        }
    } else {
        SpecStep::Miss
    }
}

/// Ghost twin of [`group`].
#[verifier::opaque]
pub open spec fn sp_group(s: Seq<char>, i: int) -> SpecStep<SpecGroup>
    decreases s.len() - i, 21int,
{
    if 0 <= i <= s.len() {
        let len = s.len() as int;
        match sp_grpchoice(s, i) {
            SpecStep::Abort(e) => SpecStep::Abort(e),
            SpecStep::Miss => SpecStep::Miss,
            SpecStep::Found(j0, first) => {
                let j = clamp_pos(j0, i, len);
                match sp_group_tail(s, j) {
                    SpecStep::Found(e, rest) => SpecStep::Found(e, SpecGroup(seq![first] + rest)),
                    SpecStep::Abort(er) => SpecStep::Abort(er),
                    SpecStep::Miss => SpecStep::Miss,
                }
            },
        }
    } else {
        SpecStep::Miss
    }
}

/// Ghost twin of [`rule_val`].
#[verifier::opaque]
pub open spec fn sp_rule_val(s: Seq<char>, i: int) -> SpecStep<SpecRuleVal>
    decreases s.len() - i, 22int,
{
    if 0 <= i <= s.len() {
        let len = s.len() as int;
        if 0 <= i < len && s[i] == '=' {
            let m = sp_ws(s, clamp_pos(i + 1, 0, len));
            match sp_ty(s, m) {
                SpecStep::Found(j, t) => SpecStep::Found(j, SpecRuleVal::AssignType(t)),
                SpecStep::Abort(e) => SpecStep::Abort(e),
                SpecStep::Miss => match sp_grpent(s, m) {
                    SpecStep::Found(j, g) => SpecStep::Found(j, SpecRuleVal::AssignGroup(g)),
                    SpecStep::Abort(e) => SpecStep::Abort(e),
                    SpecStep::Miss => SpecStep::Miss,
                },
            }
        } else {
            SpecStep::Miss
        }
    } else {
        SpecStep::Miss
    }
}

/// Ghost twin of [`rule`].
#[verifier::opaque]
pub open spec fn sp_rule(s: Seq<char>, i: int) -> SpecStep<SpecRule>
    decreases s.len() - i, 23int,
{
    if 0 <= i <= s.len() {
        let len = s.len() as int;
        match sp_ident(s, i) {
            SpecStep::Found(j0, name) => {
                let w = sp_ws(s, clamp_pos(j0, i + 1, len));
                match sp_rule_val(s, w) {
                    SpecStep::Found(e, v) => SpecStep::Found(e, SpecRule { name, val: v }),
                    SpecStep::Abort(er) => SpecStep::Abort(er),
                    SpecStep::Miss => SpecStep::Miss,
                }
            },
            _ => SpecStep::Miss,
        }
    } else {
        SpecStep::Miss
    }
}

/// Ghost twin of the rule list: rules each followed by whitespace, as many
/// as are present.
#[verifier::opaque]
pub open spec fn sp_cddl_items(s: Seq<char>, i: int) -> SpecStep<Seq<SpecRule>>
    decreases s.len() - i, 24int,
{
    if 0 <= i <= s.len() {
        let len = s.len() as int;
        match sp_rule(s, i) {
            SpecStep::Miss => SpecStep::Found(i, Seq::empty()),
            SpecStep::Abort(e) => SpecStep::Abort(e),
            SpecStep::Found(j0, r) => {
                if i >= len {
                    // nothing can be recognized at the end of the input
                    SpecStep::Miss
                } else {
                    let k = sp_ws(s, clamp_pos(j0, i + 1, len));
                    match sp_cddl_items(s, k) {
                        SpecStep::Found(e, rest) => SpecStep::Found(e, seq![r] + rest),
                        SpecStep::Abort(er) => SpecStep::Abort(er),
                        SpecStep::Miss => SpecStep::Miss,
                    }
                }
            },
        }
    } else {
        SpecStep::Miss
    }
}

/// Ghost twin of [`cddl`]: leading whitespace, then at least one rule.
#[verifier::opaque]
pub open spec fn sp_cddl(s: Seq<char>, i: int) -> SpecStep<SpecCddl>
    decreases s.len() - i, 25int,
{
    if 0 <= i <= s.len() {
        let w = sp_ws(s, i);
        match sp_cddl_items(s, w) {
            SpecStep::Found(j, rules) => {
                if rules.len() == 0 {
                    SpecStep::Miss
                } else {
                    SpecStep::Found(j, SpecCddl { rules })
                }
            },
            SpecStep::Abort(e) => SpecStep::Abort(e),
            SpecStep::Miss => SpecStep::Miss,
        }
    } else {
        SpecStep::Miss
    }
}

/// Ghost twin of the sliced rule list: each rule with the text it spans.
#[verifier::opaque]
pub open spec fn sp_cddl_slice_items(s: Seq<char>, i: int) -> SpecStep<Seq<(SpecRule, Seq<char>)>>
    decreases s.len() - i, 24int,
{
    if 0 <= i <= s.len() {
        let len = s.len() as int;
        match sp_rule(s, i) {
            SpecStep::Miss => SpecStep::Found(i, Seq::empty()),
            SpecStep::Abort(e) => SpecStep::Abort(e),
            SpecStep::Found(j0, r) => {
                if i >= len {
                    // nothing can be recognized at the end of the input
                    SpecStep::Miss
                } else {
                    let j = clamp_pos(j0, i + 1, len);
                    let k = sp_ws(s, j);
                    match sp_cddl_slice_items(s, k) {
                        SpecStep::Found(e, rest) => SpecStep::Found(
                            e,
                            seq![(r, s.subrange(i, j))] + rest,
                        ),
                        SpecStep::Abort(er) => SpecStep::Abort(er),
                        SpecStep::Miss => SpecStep::Miss,
                    }
                }
            },
        }
    } else {
        SpecStep::Miss
    }
}

/// Ghost twin of the sliced document parser.
#[verifier::opaque]
pub open spec fn sp_cddl_slice(s: Seq<char>, i: int) -> SpecStep<SpecCddlSlice>
    decreases s.len() - i, 25int,
{
    if 0 <= i <= s.len() {
        let w = sp_ws(s, i);
        match sp_cddl_slice_items(s, w) {
            SpecStep::Found(j, rules) => {
                if rules.len() == 0 {
                    SpecStep::Miss
                } else {
                    SpecStep::Found(j, SpecCddlSlice { rules })
                }
            },
            SpecStep::Abort(e) => SpecStep::Abort(e),
            SpecStep::Miss => SpecStep::Miss,
        }
    } else {
        SpecStep::Miss
    }
}

/// Ghost twin of [`parse_cddl`]: the document must parse and nothing may
/// remain.  A malformed literal keeps its specific error kind; any other
/// failure is `Unparseable`, with the text at the point of failure.
#[verifier::opaque]
pub open spec fn sp_parse_cddl(s: Seq<char>) -> Result<SpecCddl, SpecParseError> {
    match sp_cddl(s, 0) {
        SpecStep::Abort(e) => Result::Err(e),
        SpecStep::Miss => Result::Err(SpecParseError { kind: ErrorKind::Unparseable, ctx: s }),
        SpecStep::Found(j, c) => {
            if j == s.len() {
                Result::Ok(c)
            } else {
                Result::Err(
                    SpecParseError {
                        kind: ErrorKind::Unparseable,
                        ctx: s.subrange(clamp_pos(j, 0, s.len() as int), s.len() as int),
                    },
                )
            }
        },
    }
}

/// Ghost twin of [`slice_parse_cddl`].
#[verifier::opaque]
pub open spec fn sp_slice_parse_cddl(s: Seq<char>) -> Result<SpecCddlSlice, SpecParseError> {
    match sp_cddl_slice(s, 0) {
        SpecStep::Abort(e) => Result::Err(e),
        SpecStep::Miss => Result::Err(SpecParseError { kind: ErrorKind::Unparseable, ctx: s }),
        SpecStep::Found(j, c) => {
            if j == s.len() {
                Result::Ok(c)
            } else {
                Result::Err(
                    SpecParseError {
                        kind: ErrorKind::Unparseable,
                        ctx: s.subrange(clamp_pos(j, 0, s.len() as int), s.len() as int),
                    },
                )
            }
        },
    }
}


// The recursive ghost grammar above cannot stand directly in the
// contracts of the mutually recursive executable functions: inside such
// a group the verifier withholds the fuel their unfolding needs.  These
// non-recursive facades say the same thing and may stand in contracts.

/// Non-recursive facade of [`sp_type2`].
pub open spec fn type2_spec(s: Seq<char>, i: int) -> SpecStep<SpecType2> {
    sp_type2(s, i)
}

/// Non-recursive facade of [`sp_range_or_control_op`].
pub open spec fn range_or_control_op_spec(s: Seq<char>, i: int) -> SpecStep<(SpecRangeCtl, SpecType2)> {
    sp_range_or_control_op(s, i)
}

/// Non-recursive facade of [`sp_type1`].
pub open spec fn type1_spec(s: Seq<char>, i: int) -> SpecStep<SpecType1> {
    sp_type1(s, i)
}

/// Non-recursive facade of [`sp_ty_tail`].
pub open spec fn ty_tail_spec(s: Seq<char>, i: int) -> SpecStep<Seq<SpecType1>> {
    sp_ty_tail(s, i)
}

/// Non-recursive facade of [`sp_ty`].
pub open spec fn ty_spec(s: Seq<char>, i: int) -> SpecStep<SpecType> {
    sp_ty(s, i)
}

/// Non-recursive facade of [`sp_memberkey_type1`].
pub open spec fn memberkey_type1_spec(s: Seq<char>, i: int) -> SpecStep<SpecMemberKey> {
    sp_memberkey_type1(s, i)
}

/// Non-recursive facade of [`sp_memberkey`].
pub open spec fn memberkey_spec(s: Seq<char>, i: int) -> SpecStep<SpecMemberKey> {
    sp_memberkey(s, i)
}

/// Non-recursive facade of [`sp_grpent_member`].
pub open spec fn grpent_member_spec(s: Seq<char>, i: int) -> SpecStep<SpecMember> {
    sp_grpent_member(s, i)
}

/// Non-recursive facade of [`sp_grpent_parens`].
pub open spec fn grpent_parens_spec(s: Seq<char>, i: int) -> SpecStep<SpecGroup> {
    sp_grpent_parens(s, i)
}

/// Non-recursive facade of [`sp_grpent_val`].
pub open spec fn grpent_val_spec(s: Seq<char>, i: int) -> SpecStep<SpecGrpEntVal> {
    sp_grpent_val(s, i)
}

/// Non-recursive facade of [`sp_grpent`].
pub open spec fn grpent_spec(s: Seq<char>, i: int) -> SpecStep<SpecGrpEnt> {
    sp_grpent(s, i)
}

/// Non-recursive facade of [`sp_grpchoice_items`].
pub open spec fn grpchoice_items_spec(s: Seq<char>, i: int) -> SpecStep<Seq<SpecGrpEnt>> {
    sp_grpchoice_items(s, i)
}

/// Non-recursive facade of [`sp_grpchoice`].
pub open spec fn grpchoice_spec(s: Seq<char>, i: int) -> SpecStep<SpecGrpChoice> {
    sp_grpchoice(s, i)
}

/// Non-recursive facade of [`sp_group_tail`].
pub open spec fn group_tail_spec(s: Seq<char>, i: int) -> SpecStep<Seq<SpecGrpChoice>> {
    sp_group_tail(s, i)
}

/// Non-recursive facade of [`sp_group`].
pub open spec fn group_spec(s: Seq<char>, i: int) -> SpecStep<SpecGroup> {
    sp_group(s, i)
}

/// Non-recursive facade of [`sp_cddl_items`].
pub open spec fn cddl_items_spec(s: Seq<char>, i: int) -> SpecStep<Seq<SpecRule>> {
    sp_cddl_items(s, i)
}

/// Non-recursive facade of [`sp_cddl_slice_items`].
pub open spec fn cddl_slice_items_spec(s: Seq<char>, i: int) -> SpecStep<Seq<(SpecRule, Seq<char>)>> {
    sp_cddl_slice_items(s, i)
}

// ---------------------------------------------------------------------------
// The executable parser
// ---------------------------------------------------------------------------

/// Reads a `type2`: a value, a typename, a parenthesized type, a map, an
/// array, or an unwrapped name.
#[verifier::rlimit(100)]
#[verifier::spinoff_prover]
pub fn type2(s: &Vec<char>, i: usize) -> (r: Step<Type2>)
    requires
        i <= s.len(),
    ensures
        r.deep_view() == type2_spec(s@, i as int),
        sfound_in(r.deep_view(), i + 1, s@.len() as int),
    decreases s.len() - i, 8int,
{
    proof {
        reveal_with_fuel(dv_type2, 1);
        reveal_with_fuel(sp_type2, 2);
    }
    let res: Step<Type2> = match value(s, i) {
        Step::Found(j, v) => Step::Found(j, Type2::Value(v)),
        Step::Abort(e) => Step::Abort(e),
        Step::Miss => match ident(s, i) {
            Step::Found(j, name) => Step::Found(j, Type2::Typename(name)),
            Step::Abort(e) => Step::Abort(e),
            Step::Miss => {
                if i < s.len() && s[i] == '(' {
                    let m = ws(s, i + 1);
                    match ty(s, m) {
                        Step::Found(j, t) => {
                            let w = ws(s, j);
                            if w < s.len() && s[w] == ')' {
                                Step::Found(w + 1, Type2::Parenthesized(t))
                            } else {
                                Step::Miss
                            }
                        },
                        Step::Abort(e) => Step::Abort(e),
                        Step::Miss => Step::Miss,
                    }
                } else if i < s.len() && s[i] == '{' {
                    let m = ws(s, i + 1);
                    match group(s, m) {
                        Step::Found(j, g) => {
                            let w = ws(s, j);
                            if w < s.len() && s[w] == '}' {
                                Step::Found(w + 1, Type2::MapGroup(g))
                            } else {
                                Step::Miss
                            }
                        },
                        Step::Abort(e) => Step::Abort(e),
                        Step::Miss => Step::Miss,
                    }
                } else if i < s.len() && s[i] == '[' {
                    let m = ws(s, i + 1);
                    match group(s, m) {
                        Step::Found(j, g) => {
                            let w = ws(s, j);
                            if w < s.len() && s[w] == ']' {
                                Step::Found(w + 1, Type2::Array(g))
                            } else {
                                Step::Miss
                            }
                        },
                        Step::Abort(e) => Step::Abort(e),
                        Step::Miss => Step::Miss,
                    }
                } else if i < s.len() && s[i] == '~' {
                    let m = ws(s, i + 1);
                    match ident(s, m) {
                        Step::Found(j, name) => Step::Found(j, Type2::Unwrap(name)),
                        _ => Step::Miss,
                    }
                } else {
                    Step::Miss
                }
            },
        },
    };
    proof {
        assert(res.deep_view() == sp_type2(s@, i as int));
    }
    res
}

/// Reads a range operator (`..`, `...`) or a control operator (`.name`),
/// together with the type on its right.
#[verifier::rlimit(100)]
#[verifier::spinoff_prover]
pub fn range_or_control_op(s: &Vec<char>, i: usize) -> (r: Step<(RangeCtl, Type2)>)
    requires
        i <= s.len(),
    ensures
        r.deep_view() == range_or_control_op_spec(s@, i as int),
        sfound_in(r.deep_view(), i + 1, s@.len() as int),
    decreases s.len() - i, 9int,
{
    proof {
        reveal_with_fuel(sp_range_or_control_op, 2);
    }
    let res: Step<(RangeCtl, Type2)> = if i < s.len() && s[i] == '.' && i + 1 < s.len() && s[i + 1] == '.' && i + 2 < s.len() && s[i
        + 2] == '.' {
        let m = ws(s, i + 3);
        match type2(s, m) {
            Step::Found(j, t) => Step::Found(j, (RangeCtl::Excl, t)),
            Step::Abort(e) => Step::Abort(e),
            Step::Miss => Step::Miss,
        }
    } else if i < s.len() && s[i] == '.' && i + 1 < s.len() && s[i + 1] == '.' {
        let m = ws(s, i + 2);
        match type2(s, m) {
            Step::Found(j, t) => Step::Found(j, (RangeCtl::Incl, t)),
            Step::Abort(e) => Step::Abort(e),
            Step::Miss => Step::Miss,
        }
    } else if i < s.len() && s[i] == '.' {
        match ident(s, i + 1) {
            Step::Found(j, name) => {
                let m = ws(s, j);
                match type2(s, m) {
                    Step::Found(j2, t) => Step::Found(j2, (RangeCtl::Op(name), t)),
                    Step::Abort(e) => Step::Abort(e),
                    Step::Miss => Step::Miss,
                }
            },
            _ => Step::Miss,
        }
    } else {
        Step::Miss
    };
    proof {
        assert(res.deep_view() == sp_range_or_control_op(s@, i as int));
    }
    res
}

/// Reads a `type1`: a `type2`, optionally followed by a range or control
/// operator and a second `type2`.
#[verifier::rlimit(100)]
#[verifier::spinoff_prover]
pub fn type1(s: &Vec<char>, i: usize) -> (r: Step<Type1>)
    requires
        i <= s.len(),
    ensures
        r.deep_view() == type1_spec(s@, i as int),
        sfound_in(r.deep_view(), i + 1, s@.len() as int),
    decreases s.len() - i, 10int,
{
    proof {
        reveal_with_fuel(dv_type1, 1);
        reveal_with_fuel(sp_type1, 2);
    }
    let res: Step<Type1> = match type2(s, i) {
        Step::Abort(e) => Step::Abort(e),
        Step::Miss => Step::Miss,
        Step::Found(j, t2) => {
            let w = ws(s, j);
            match range_or_control_op(s, w) {
                Step::Miss => Step::Found(j, Type1::Simple(t2)),
                Step::Abort(e) => Step::Abort(e),
                Step::Found(e, (op, second)) => match op {
                    RangeCtl::Incl => Step::Found(
                        e,
                        Type1::Range(TypeRange { start: t2, end: second, inclusive: true }),
                    ),
                    RangeCtl::Excl => Step::Found(
                        e,
                        Type1::Range(TypeRange { start: t2, end: second, inclusive: false }),
                    ),
                    RangeCtl::Op(name) => Step::Found(
                        e,
                        Type1::Control(TypeControl { first: t2, op: name, second }),
                    ),
                },
            }
        },
    };
    proof {
        assert(res.deep_view() == sp_type1(s@, i as int));
    }
    res
}

#[verifier::rlimit(100)]
#[verifier::spinoff_prover]
fn ty_tail(s: &Vec<char>, i: usize) -> (r: Step<Vec<Type1>>)
    requires
        i <= s.len(),
    ensures
        r.deep_view() == ty_tail_spec(s@, i as int),
        sfound_in(r.deep_view(), i as int, s@.len() as int),
    decreases s.len() - i, 11int,
{
    proof {
        reveal_with_fuel(sp_ty_tail, 2);
    }
    let res: Step<Vec<Type1>> = {
        let w = ws(s, i);
        if w < s.len() && s[w] == '/' {
            let m = ws(s, w + 1);
            match type1(s, m) {
                Step::Found(j, t1) => match ty_tail(s, j) {
                    Step::Found(e, mut rest) => {
                        let ghost rd = rest.deep_view();
                        let mut items: Vec<Type1> = Vec::new();
                        items.push(t1);
                        items.append(&mut rest);
                        proof {
                            assert(items.deep_view() =~= seq![t1.deep_view()] + rd);
                        }
                        Step::Found(e, items)
                    },
                    Step::Abort(er) => Step::Abort(er),
                    Step::Miss => Step::Miss,
                },
                Step::Abort(e) => Step::Abort(e),
                Step::Miss => {
                    let empty: Vec<Type1> = Vec::new();
                    proof {
                        assert(empty.deep_view() =~= Seq::<SpecType1>::empty());
                    }
                    Step::Found(i, empty)
                },
            }
        } else {
            let empty: Vec<Type1> = Vec::new();
            proof {
                assert(empty.deep_view() =~= Seq::<SpecType1>::empty());
            }
            Step::Found(i, empty)
        }
    };
    proof {
        assert(res.deep_view() == sp_ty_tail(s@, i as int));
    }
    res
}

/// Reads a type: one or more `type1` alternatives separated by `/`.
#[verifier::rlimit(100)]
#[verifier::spinoff_prover]
pub fn ty(s: &Vec<char>, i: usize) -> (r: Step<Type>)
    requires
        i <= s.len(),
    ensures
        r.deep_view() == ty_spec(s@, i as int),
        sfound_in(r.deep_view(), i + 1, s@.len() as int),
    decreases s.len() - i, 12int,
{
    proof {
        reveal_with_fuel(dv_type, 1);
        reveal_with_fuel(dv_type1_seq, 1);
        reveal_with_fuel(sp_ty, 2);
    }
    let res: Step<Type> = match type1(s, i) {
        Step::Abort(e) => Step::Abort(e),
        Step::Miss => Step::Miss,
        Step::Found(j, t1) => match ty_tail(s, j) {
            Step::Found(e, mut rest) => {
                let ghost rd = rest.deep_view();
                let mut items: Vec<Type1> = Vec::new();
                items.push(t1);
                items.append(&mut rest);
                proof {
                    assert(items.deep_view() =~= seq![t1.deep_view()] + rd);
                    assert(dv_type1_seq(items@) =~= items.deep_view());
                }
                Step::Found(e, Type(items))
            },
            Step::Abort(er) => Step::Abort(er),
            Step::Miss => Step::Miss,
        },
    };
    proof {
        assert(res.deep_view() == sp_ty(s@, i as int));
    }
    res
}

/// Reads a member key of the form `type1 [^] =>`.
#[verifier::rlimit(100)]
#[verifier::spinoff_prover]
pub fn memberkey_type1(s: &Vec<char>, i: usize) -> (r: Step<MemberKey>)
    requires
        i <= s.len(),
    ensures
        r.deep_view() == memberkey_type1_spec(s@, i as int),
        sfound_in(r.deep_view(), i + 1, s@.len() as int),
    decreases s.len() - i, 13int,
{
    proof {
        reveal_with_fuel(dv_memberkey, 1);
        reveal_with_fuel(dv_memberkeyval, 1);
        reveal_with_fuel(sp_memberkey_type1, 2);
    }
    let res: Step<MemberKey> = match type1(s, i) {
        Step::Abort(e) => Step::Abort(e),
        Step::Miss => Step::Miss,
        Step::Found(j, t1) => {
            let w = ws(s, j);
            if w < s.len() && s[w] == '^' {
                let w2 = ws(s, w + 1);
                if w2 < s.len() && s[w2] == '=' && w2 + 1 < s.len() && s[w2 + 1] == '>' {
                    Step::Found(w2 + 2, MemberKey { val: MemberKeyVal::Type1(t1), cut: true })
                } else {
                    Step::Miss
                }
            } else if w < s.len() && s[w] == '=' && w + 1 < s.len() && s[w + 1] == '>' {
                Step::Found(w + 2, MemberKey { val: MemberKeyVal::Type1(t1), cut: false })
            } else {
                Step::Miss
            }
        },
    };
    proof {
        assert(res.deep_view() == sp_memberkey_type1(s@, i as int));
    }
    res
}

/// Reads a member key of the form `bareword :`.
#[verifier::rlimit(100)]
#[verifier::spinoff_prover]
pub fn memberkey_bareword(s: &Vec<char>, i: usize) -> (r: Step<MemberKey>)
    requires
        i <= s.len(),
    ensures
        r.deep_view() == sp_memberkey_bareword(s@, i as int),
        sfound_in(r.deep_view(), i + 1, s@.len() as int),
{
    proof {
        reveal_with_fuel(dv_memberkey, 1);
        reveal_with_fuel(dv_memberkeyval, 1);
        reveal(sp_memberkey_bareword);
    }
    let res: Step<MemberKey> = match ident(s, i) {
        Step::Found(j, name) => {
            let w = ws(s, j);
            if w < s.len() && s[w] == ':' {
                Step::Found(w + 1, MemberKey { val: MemberKeyVal::Bareword(name), cut: true })
            } else {
                Step::Miss
            }
        },
        _ => Step::Miss,
    };
    proof {
        assert(res.deep_view() == sp_memberkey_bareword(s@, i as int));
    }
    res
}

/// Reads a member key of the form `value :`.
#[verifier::rlimit(100)]
#[verifier::spinoff_prover]
pub fn memberkey_value(s: &Vec<char>, i: usize) -> (r: Step<MemberKey>)
    requires
        i <= s.len(),
    ensures
        r.deep_view() == sp_memberkey_value(s@, i as int),
        sfound_in(r.deep_view(), i + 1, s@.len() as int),
{
    proof {
        reveal_with_fuel(dv_memberkey, 1);
        reveal_with_fuel(dv_memberkeyval, 1);
        reveal(sp_memberkey_value);
    }
    let res: Step<MemberKey> = match value(s, i) {
        Step::Found(j, v) => {
            let w = ws(s, j);
            if w < s.len() && s[w] == ':' {
                Step::Found(w + 1, MemberKey { val: MemberKeyVal::Value(v), cut: true })
            } else {
                Step::Miss
            }
        },
        Step::Abort(e) => Step::Abort(e),
        Step::Miss => Step::Miss,
    };
    proof {
        assert(res.deep_view() == sp_memberkey_value(s@, i as int));
    }
    res
}

/// Reads a member key, trying the `=>`, bareword and value forms in order.
#[verifier::rlimit(100)]
#[verifier::spinoff_prover]
pub fn memberkey(s: &Vec<char>, i: usize) -> (r: Step<MemberKey>)
    requires
        i <= s.len(),
    ensures
        r.deep_view() == memberkey_spec(s@, i as int),
        sfound_in(r.deep_view(), i + 1, s@.len() as int),
    decreases s.len() - i, 14int,
{
    proof {
        reveal_with_fuel(sp_memberkey, 2);
    }
    let res: Step<MemberKey> = match memberkey_type1(s, i) {
        Step::Found(j, mk) => Step::Found(j, mk),
        Step::Abort(e) => Step::Abort(e),
        Step::Miss => match memberkey_bareword(s, i) {
            Step::Found(j, mk) => Step::Found(j, mk),
            Step::Abort(e) => Step::Abort(e),
            Step::Miss => memberkey_value(s, i),
        },
    };
    proof {
        assert(res.deep_view() == sp_memberkey(s@, i as int));
    }
    res
}

/// Reads a member: an optional member key, then a type.
#[verifier::rlimit(100)]
#[verifier::spinoff_prover]
pub fn grpent_member(s: &Vec<char>, i: usize) -> (r: Step<Member>)
    requires
        i <= s.len(),
    ensures
        r.deep_view() == grpent_member_spec(s@, i as int),
        sfound_in(r.deep_view(), i + 1, s@.len() as int),
    decreases s.len() - i, 15int,
{
    proof {
        reveal_with_fuel(dv_member, 1);
        reveal_with_fuel(sp_grpent_member, 2);
    }
    let res: Step<Member> = match memberkey(s, i) {
        Step::Abort(e) => Step::Abort(e),
        Step::Found(j, mk) => {
            let k = ws(s, j);
            match ty(s, k) {
                Step::Found(e, t) => Step::Found(e, Member { key: Some(mk), value: t }),
                Step::Abort(er) => Step::Abort(er),
                Step::Miss => Step::Miss,
            }
        },
        Step::Miss => match ty(s, i) {
            Step::Found(e, t) => Step::Found(e, Member { key: None, value: t }),
            Step::Abort(er) => Step::Abort(er),
            Step::Miss => Step::Miss,
        },
    };
    proof {
        assert(res.deep_view() == sp_grpent_member(s@, i as int));
    }
    res
}

/// Reads a parenthesized group `( group )`.
#[verifier::rlimit(100)]
#[verifier::spinoff_prover]
pub fn grpent_parens(s: &Vec<char>, i: usize) -> (r: Step<Group>)
    requires
        i <= s.len(),
    ensures
        r.deep_view() == grpent_parens_spec(s@, i as int),
        sfound_in(r.deep_view(), i + 1, s@.len() as int),
    decreases s.len() - i, 15int,
{
    proof {
        reveal_with_fuel(sp_grpent_parens, 2);
    }
    let res: Step<Group> = if i < s.len() && s[i] == '(' {
        let m = ws(s, i + 1);
        match group(s, m) {
            Step::Found(j, g) => {
                let w = ws(s, j);
                if w < s.len() && s[w] == ')' {
                    Step::Found(w + 1, g)
                } else {
                    Step::Miss
                }
            },
            Step::Abort(e) => Step::Abort(e),
            Step::Miss => Step::Miss,
        }
    } else {
        Step::Miss
    };
    proof {
        assert(res.deep_view() == sp_grpent_parens(s@, i as int));
    }
    res
}

/// Reads a group entry payload: a member, a group name, or a parenthesized
/// group, in that order.
#[verifier::rlimit(100)]
#[verifier::spinoff_prover]
pub fn grpent_val(s: &Vec<char>, i: usize) -> (r: Step<GrpEntVal>)
    requires
        i <= s.len(),
    ensures
        r.deep_view() == grpent_val_spec(s@, i as int),
        sfound_in(r.deep_view(), i + 1, s@.len() as int),
    decreases s.len() - i, 16int,
{
    proof {
        reveal_with_fuel(dv_grpentval, 1);
        reveal_with_fuel(sp_grpent_val, 2);
    }
    let res: Step<GrpEntVal> = match grpent_member(s, i) {
        Step::Found(j, m) => Step::Found(j, GrpEntVal::Member(m)),
        Step::Abort(e) => Step::Abort(e),
        Step::Miss => match ident(s, i) {
            Step::Found(j, name) => Step::Found(j, GrpEntVal::Groupname(name)),
            _ => match grpent_parens(s, i) {
                Step::Found(j, g) => Step::Found(j, GrpEntVal::Parenthesized(g)),
                Step::Abort(e) => Step::Abort(e),
                Step::Miss => Step::Miss,
            },
        },
    };
    proof {
        assert(res.deep_view() == sp_grpent_val(s@, i as int));
    }
    res
}

/// Reads a group entry: an optional occurrence, then its payload.
#[verifier::rlimit(100)]
#[verifier::spinoff_prover]
pub fn grpent(s: &Vec<char>, i: usize) -> (r: Step<GrpEnt>)
    requires
        i <= s.len(),
    ensures
        r.deep_view() == grpent_spec(s@, i as int),
        sfound_in(r.deep_view(), i + 1, s@.len() as int),
    decreases s.len() - i, 17int,
{
    proof {
        reveal_with_fuel(dv_grpent, 1);
        reveal_with_fuel(sp_grpent, 2);
    }
    let res: Step<GrpEnt> = match occur(s, i) {
        Step::Abort(e) => Step::Abort(e),
        Step::Found(j, oc) => {
            let k = ws(s, j);
            match grpent_val(s, k) {
                Step::Found(e, v) => Step::Found(e, GrpEnt { occur: Some(oc), val: v }),
                Step::Abort(er) => Step::Abort(er),
                Step::Miss => Step::Miss,
            }
        },
        Step::Miss => match grpent_val(s, i) {
            Step::Found(e, v) => Step::Found(e, GrpEnt { occur: None, val: v }),
            Step::Abort(er) => Step::Abort(er),
            Step::Miss => Step::Miss,
        },
    };
    proof {
        assert(res.deep_view() == sp_grpent(s@, i as int));
    }
    res
}

#[verifier::rlimit(100)]
#[verifier::spinoff_prover]
fn grpchoice_items(s: &Vec<char>, i: usize) -> (r: Step<Vec<GrpEnt>>)
    requires
        i <= s.len(),
    ensures
        r.deep_view() == grpchoice_items_spec(s@, i as int),
        sfound_in(r.deep_view(), i as int, s@.len() as int),
    decreases s.len() - i, 18int,
{
    proof {
        reveal_with_fuel(sp_grpchoice_items, 2);
    }
    let res: Step<Vec<GrpEnt>> = match grpent(s, i) {
        Step::Miss => {
            let empty: Vec<GrpEnt> = Vec::new();
            proof {
                assert(empty.deep_view() =~= Seq::<SpecGrpEnt>::empty());
            }
            Step::Found(i, empty)
        },
        Step::Abort(e) => Step::Abort(e),
        Step::Found(j, ge) => {
            assert(i < s@.len());
            let k = optcom(s, j);
            match grpchoice_items(s, k) {
                Step::Found(e, mut rest) => {
                    let ghost rd = rest.deep_view();
                    let mut items: Vec<GrpEnt> = Vec::new();
                    items.push(ge);
                    items.append(&mut rest);
                    proof {
                        assert(items.deep_view() =~= seq![ge.deep_view()] + rd);
                    }
                    Step::Found(e, items)
                },
                Step::Abort(er) => Step::Abort(er),
                Step::Miss => Step::Miss,
            }
        },
    };
    proof {
        assert(res.deep_view() == sp_grpchoice_items(s@, i as int));
    }
    res
}

/// Reads one group choice: entries separated by optional commas.
#[verifier::rlimit(100)]
#[verifier::spinoff_prover]
pub fn grpchoice(s: &Vec<char>, i: usize) -> (r: Step<GrpChoice>)
    requires
        i <= s.len(),
    ensures
        r.deep_view() == grpchoice_spec(s@, i as int),
        sfound_in(r.deep_view(), i as int, s@.len() as int),
    decreases s.len() - i, 19int,
{
    proof {
        reveal_with_fuel(dv_grpchoice, 1);
        reveal_with_fuel(dv_grpent_seq, 1);
        reveal_with_fuel(sp_grpchoice, 2);
    }
    let res: Step<GrpChoice> = match grpchoice_items(s, i) {
        Step::Found(j, ges) => {
            let gc = GrpChoice(ges);
            proof {
                assert(dv_grpent_seq(gc.0@) =~= gc.0.deep_view());
                assert(dv_grpchoice(gc) == SpecGrpChoice(dv_grpent_seq(gc.0@)));
            }
            Step::Found(j, gc)
        },
        Step::Abort(e) => Step::Abort(e),
        Step::Miss => Step::Miss,
    };
    proof {
        assert(res.deep_view() == sp_grpchoice(s@, i as int));
    }
    res
}

#[verifier::rlimit(100)]
#[verifier::spinoff_prover]
fn group_tail(s: &Vec<char>, i: usize) -> (r: Step<Vec<GrpChoice>>)
    requires
        i <= s.len(),
    ensures
        r.deep_view() == group_tail_spec(s@, i as int),
        sfound_in(r.deep_view(), i as int, s@.len() as int),
    decreases s.len() - i, 20int,
{
    proof {
        reveal_with_fuel(sp_group_tail, 2);
    }
    let res: Step<Vec<GrpChoice>> = {
        let w = ws(s, i);
        if w < s.len() && s[w] == '/' && w + 1 < s.len() && s[w + 1] == '/' {
            let m = ws(s, w + 2);
            match grpchoice(s, m) {
                Step::Found(j, gc) => match group_tail(s, j) {
                    Step::Found(e, mut rest) => {
                        let ghost rd = rest.deep_view();
                        let mut items: Vec<GrpChoice> = Vec::new();
                        items.push(gc);
                        items.append(&mut rest);
                        proof {
                            assert(items.deep_view() =~= seq![gc.deep_view()] + rd);
                        }
                        Step::Found(e, items)
                    },
                    Step::Abort(er) => Step::Abort(er),
                    Step::Miss => Step::Miss,
                },
                Step::Abort(e) => Step::Abort(e),
                Step::Miss => Step::Miss,
            }
        } else {
            let empty: Vec<GrpChoice> = Vec::new();
            proof {
                assert(empty.deep_view() =~= Seq::<SpecGrpChoice>::empty());
            }
            Step::Found(i, empty)
        }
    };
    proof {
        assert(res.deep_view() == sp_group_tail(s@, i as int));
    }
    res
}

/// Reads a group: one or more group choices separated by `//`.
#[verifier::rlimit(100)]
#[verifier::spinoff_prover]
pub fn group(s: &Vec<char>, i: usize) -> (r: Step<Group>)
    requires
        i <= s.len(),
    ensures
        r.deep_view() == group_spec(s@, i as int),
        sfound_in(r.deep_view(), i as int, s@.len() as int),
    decreases s.len() - i, 21int,
{
    proof {
        reveal_with_fuel(dv_group, 1);
        reveal_with_fuel(dv_grpchoice_seq, 1);
        reveal_with_fuel(sp_group, 2);
    }
    let res: Step<Group> = match grpchoice(s, i) {
        Step::Abort(e) => Step::Abort(e),
        Step::Miss => Step::Miss,
        Step::Found(j, first) => match group_tail(s, j) {
            Step::Found(e, mut rest) => {
                let ghost rd = rest.deep_view();
                let mut items: Vec<GrpChoice> = Vec::new();
                items.push(first);
                items.append(&mut rest);
                proof {
                    assert(items.deep_view() =~= seq![first.deep_view()] + rd);
                    assert(dv_grpchoice_seq(items@) =~= items.deep_view());
                }
                Step::Found(e, Group(items))
            },
            Step::Abort(er) => Step::Abort(er),
            Step::Miss => Step::Miss,
        },
    };
    proof {
        assert(res.deep_view() == sp_group(s@, i as int));
    }
    res
}

/// Reads the right side of a rule: `=`, then a type or a group entry.
#[verifier::rlimit(100)]
#[verifier::spinoff_prover]
pub fn rule_val(s: &Vec<char>, i: usize) -> (r: Step<RuleVal>)
    requires
        i <= s.len(),
    ensures
        r.deep_view() == sp_rule_val(s@, i as int),
        sfound_in(r.deep_view(), i + 1, s@.len() as int),
    decreases s.len() - i, 22int,
{
    proof {
        reveal_with_fuel(dv_ruleval, 1);
        reveal(sp_rule_val);
    }
    let res: Step<RuleVal> = if i < s.len() && s[i] == '=' {
        let m = ws(s, i + 1);
        match ty(s, m) {
            Step::Found(j, t) => Step::Found(j, RuleVal::AssignType(t)),
            Step::Abort(e) => Step::Abort(e),
            Step::Miss => match grpent(s, m) {
                Step::Found(j, g) => Step::Found(j, RuleVal::AssignGroup(g)),
                Step::Abort(e) => Step::Abort(e),
                Step::Miss => Step::Miss,
            },
        }
    } else {
        Step::Miss
    };
    proof {
        assert(res.deep_view() == sp_rule_val(s@, i as int));
    }
    res
}

/// Reads one rule: a name, `=`, and its right side.
#[verifier::rlimit(100)]
#[verifier::spinoff_prover]
pub fn rule(s: &Vec<char>, i: usize) -> (r: Step<Rule>)
    requires
        i <= s.len(),
    ensures
        r.deep_view() == sp_rule(s@, i as int),
        sfound_in(r.deep_view(), i + 1, s@.len() as int),
    decreases s.len() - i, 23int,
{
    proof {
        reveal(sp_rule);
    }
    let res: Step<Rule> = match ident(s, i) {
        Step::Found(j, name) => {
            let w = ws(s, j);
            match rule_val(s, w) {
                Step::Found(e, v) => Step::Found(e, Rule { name, val: v }),
                Step::Abort(er) => Step::Abort(er),
                Step::Miss => Step::Miss,
            }
        },
        _ => Step::Miss,
    };
    proof {
        assert(res.deep_view() == sp_rule(s@, i as int));
    }
    res
}

#[verifier::rlimit(100)]
#[verifier::spinoff_prover]
fn cddl_items(s: &Vec<char>, i: usize) -> (r: Step<Vec<Rule>>)
    requires
        i <= s.len(),
    ensures
        r.deep_view() == cddl_items_spec(s@, i as int),
        sfound_in(r.deep_view(), i as int, s@.len() as int),
    decreases s.len() - i, 24int,
{
    proof {
        reveal_with_fuel(sp_cddl_items, 2);
    }
    let res: Step<Vec<Rule>> = match rule(s, i) {
        Step::Miss => {
            let empty: Vec<Rule> = Vec::new();
            proof {
                assert(empty.deep_view() =~= Seq::<SpecRule>::empty());
            }
            Step::Found(i, empty)
        },
        Step::Abort(e) => Step::Abort(e),
        Step::Found(j, ru) => {
            assert(i < s@.len());
            let k = ws(s, j);
            match cddl_items(s, k) {
                Step::Found(e, mut rest) => {
                    let ghost rd = rest.deep_view();
                    let mut items: Vec<Rule> = Vec::new();
                    items.push(ru);
                    items.append(&mut rest);
                    proof {
                        assert(items.deep_view() =~= seq![ru.deep_view()] + rd);
                    }
                    Step::Found(e, items)
                },
                Step::Abort(er) => Step::Abort(er),
                Step::Miss => Step::Miss,
            }
        },
    };
    proof {
        assert(res.deep_view() == sp_cddl_items(s@, i as int));
    }
    res
}

/// Reads a whole document: leading whitespace, then at least one rule.
#[verifier::rlimit(100)]
#[verifier::spinoff_prover]
pub fn cddl(s: &Vec<char>, i: usize) -> (r: Step<Cddl>)
    requires
        i <= s.len(),
    ensures
        r.deep_view() == sp_cddl(s@, i as int),
        sfound_in(r.deep_view(), i as int, s@.len() as int),
    decreases s.len() - i, 25int,
{
    proof {
        reveal(sp_cddl);
    }
    let res: Step<Cddl> = {
        let w = ws(s, i);
        match cddl_items(s, w) {
            Step::Found(j, rules) => {
                if rules.len() == 0 {
                    Step::Miss
                } else {
                    proof {
                        assert(crate::ast::dv_rule_seq(rules@) =~= rules.deep_view());
                    }
                    Step::Found(j, Cddl { rules })
                }
            },
            Step::Abort(e) => Step::Abort(e),
            Step::Miss => Step::Miss,
        }
    };
    proof {
        assert(res.deep_view() == sp_cddl(s@, i as int));
    }
    res
}

#[verifier::rlimit(100)]
#[verifier::spinoff_prover]
fn cddl_slice_items(s: &Vec<char>, i: usize) -> (r: Step<Vec<(Rule, String)>>)
    requires
        i <= s.len(),
    ensures
        r.deep_view() == cddl_slice_items_spec(s@, i as int),
        sfound_in(r.deep_view(), i as int, s@.len() as int),
    decreases s.len() - i, 24int,
{
    proof {
        reveal_with_fuel(sp_cddl_slice_items, 2);
    }
    let res: Step<Vec<(Rule, String)>> = match rule(s, i) {
        Step::Miss => {
            let empty: Vec<(Rule, String)> = Vec::new();
            proof {
                assert(empty.deep_view() =~= Seq::<(SpecRule, Seq<char>)>::empty());
            }
            Step::Found(i, empty)
        },
        Step::Abort(e) => Step::Abort(e),
        Step::Found(j, ru) => {
            assert(i < s@.len());
            let text = chars_to_string(&sub_chars(s, i, j));
            let k = ws(s, j);
            match cddl_slice_items(s, k) {
                Step::Found(e, mut rest) => {
                    let ghost rd = rest.deep_view();
                    let mut items: Vec<(Rule, String)> = Vec::new();
                    items.push((ru, text));
                    items.append(&mut rest);
                    proof {
                        assert(items.deep_view() =~= seq![(ru.deep_view(), text@)] + rd);
                    }
                    Step::Found(e, items)
                },
                Step::Abort(er) => Step::Abort(er),
                Step::Miss => Step::Miss,
            }
        },
    };
    proof {
        assert(res.deep_view() == sp_cddl_slice_items(s@, i as int));
    }
    res
}

/// Reads a whole document, keeping the source text each rule spans.
#[verifier::rlimit(100)]
#[verifier::spinoff_prover]
pub fn cddl_slice(s: &Vec<char>, i: usize) -> (r: Step<CddlSlice>)
    requires
        i <= s.len(),
    ensures
        r.deep_view() == sp_cddl_slice(s@, i as int),
        sfound_in(r.deep_view(), i as int, s@.len() as int),
    decreases s.len() - i, 25int,
{
    proof {
        reveal(sp_cddl_slice);
    }
    let res: Step<CddlSlice> = {
        let w = ws(s, i);
        match cddl_slice_items(s, w) {
            Step::Found(j, rules) => {
                if rules.len() == 0 {
                    Step::Miss
                } else {
                    proof {
                        assert(Seq::new(
                            rules@.len(),
                            |k: int| (crate::ast::dv_rule(rules@[k].0), rules@[k].1@),
                        ) =~= rules.deep_view());
                    }
                    Step::Found(j, CddlSlice { rules })
                }
            },
            Step::Abort(e) => Step::Abort(e),
            Step::Miss => Step::Miss,
        }
    };
    proof {
        assert(res.deep_view() == sp_cddl_slice(s@, i as int));
    }
    res
}

/// The main entry point for parsing CDDL text.
///
/// On success the returned [`Cddl`] holds every rule of the input, in
/// order; the whole input must be consumed.  The contract equates the
/// result with the ghost grammar [`sp_parse_cddl`] on the input's
/// characters, for every input: parsing is a pure function of the text.
pub fn parse_cddl(input: &str) -> (r: Result<Cddl, ParseError>)
    ensures
        match sp_parse_cddl(input@) {
            Result::Ok(c0) => r matches Result::Ok(c) && c.deep_view() == c0,
            Result::Err(e0) => r matches Result::Err(e) && e.deep_view() == e0,
        },
{
    proof {
        reveal(sp_parse_cddl);
    }
    let res: Result<Cddl, ParseError> = {
        let cs = str_to_chars(input);
        match cddl(&cs, 0) {
            Step::Abort(e) => Result::Err(e),
            Step::Miss => Result::Err(
                ParseError { kind: ErrorKind::Unparseable, ctx: chars_to_string(&cs) },
            ),
            Step::Found(j, c) => {
                if j == cs.len() {
                    Result::Ok(c)
                } else {
                    Result::Err(
                        ParseError {
                            kind: ErrorKind::Unparseable,
                            ctx: chars_to_string(&sub_chars(&cs, j, cs.len())),
                        },
                    )
                }
            },
        }
    };
    proof {
        assert(match sp_parse_cddl(input@) {
            Result::Ok(c0) => res matches Result::Ok(c) && c.deep_view() == c0,
            Result::Err(e0) => res matches Result::Err(e) && e.deep_view() == e0,
        });
    }
    res
}

/// An entry point for parsing CDDL text, preserving rule strings.
///
/// This operates exactly like [`parse_cddl`], but also stores a copy of
/// each rule's original CDDL text.
pub fn slice_parse_cddl(input: &str) -> (r: Result<CddlSlice, ParseError>)
    ensures
        match sp_slice_parse_cddl(input@) {
            Result::Ok(c0) => r matches Result::Ok(c) && c.deep_view() == c0,
            Result::Err(e0) => r matches Result::Err(e) && e.deep_view() == e0,
        },
{
    proof {
        reveal(sp_slice_parse_cddl);
    }
    let res: Result<CddlSlice, ParseError> = {
        let cs = str_to_chars(input);
        match cddl_slice(&cs, 0) {
            Step::Abort(e) => Result::Err(e),
            Step::Miss => Result::Err(
                ParseError { kind: ErrorKind::Unparseable, ctx: chars_to_string(&cs) },
            ),
            Step::Found(j, c) => {
                if j == cs.len() {
                    Result::Ok(c)
                } else {
                    Result::Err(
                        ParseError {
                            kind: ErrorKind::Unparseable,
                            ctx: chars_to_string(&sub_chars(&cs, j, cs.len())),
                        },
                    )
                }
            },
        }
    };
    proof {
        assert(match sp_slice_parse_cddl(input@) {
            Result::Ok(c0) => res matches Result::Ok(c) && c.deep_view() == c0,
            Result::Err(e0) => res matches Result::Err(e) && e.deep_view() == e0,
        });
    }
    res
}

} // verus!
