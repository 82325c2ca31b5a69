//! Token-level parsing: whitespace and comments, identifiers, numeric
//! literals, text literals and byte-string literals.
//!
//! Every parsing function takes the input as a vector of characters together
//! with a start position and returns a [`Step`]: the position one past the
//! consumed text and the recognized token, a soft miss (the caller may try
//! another alternative), or a hard error carrying a [`ParseError`] (the whole
//! parse stops).  Each function's contract equates its result with a ghost
//! twin (`sp_*`) defined over `Seq<char>`; those twins together are the
//! grammar's mathematical definition.

use vstd::prelude::*;

use crate::ast::SpecValue;

verus! {

/// The kind of error generated during CDDL parsing.
#[derive(Debug, PartialEq)]
pub enum ErrorKind {
    /// An integer didn't parse correctly.
    MalformedInteger,
    /// A floating-point number didn't parse correctly.
    MalformedFloat,
    /// A hex literal didn't parse correctly.
    MalformedHex,
    /// A malformed text string.
    MalformedText,
    /// A nonspecific parsing error.
    Unparseable,
}

impl Clone for ErrorKind {
    fn clone(&self) -> (r: ErrorKind)
        ensures
            r == *self,
    {
        match self {
            ErrorKind::MalformedInteger => ErrorKind::MalformedInteger,
            ErrorKind::MalformedFloat => ErrorKind::MalformedFloat,
            ErrorKind::MalformedHex => ErrorKind::MalformedHex,
            ErrorKind::MalformedText => ErrorKind::MalformedText,
            ErrorKind::Unparseable => ErrorKind::Unparseable,
        }
    }
}

/// An error that occurred during CDDL parsing.
#[derive(Debug, PartialEq)]
pub struct ParseError {
    /// The kind of error generated during CDDL parsing.
    pub kind: ErrorKind,
    /// A snippet of text from the CDDL input near the cause of the error.
    pub ctx: String,
}

/// Ghost mirror of [`ParseError`].
pub struct SpecParseError {
    pub kind: ErrorKind,
    pub ctx: Seq<char>,
}

impl DeepView for ParseError {
    type V = SpecParseError;

    open spec fn deep_view(&self) -> SpecParseError {
        SpecParseError { kind: self.kind, ctx: self.ctx@ }
    }
}

/// The outcome of one parsing step.
#[derive(Debug, PartialEq)]
pub enum Step<T> {
    /// The token was recognized; the position is one past its end.
    Found(usize, T),
    /// The token is not present here; another alternative may be tried.
    Miss,
    /// A malformed token; the whole parse fails with this error.
    Abort(ParseError),
}

/// Ghost mirror of [`Step`].
pub enum SpecStep<T> {
    Found(int, T),
    Miss,
    Abort(SpecParseError),
}

impl<T: DeepView> DeepView for Step<T> {
    type V = SpecStep<T::V>;

    open spec fn deep_view(&self) -> SpecStep<T::V> {
        match self {
            Step::Found(p, v) => SpecStep::Found(*p as int, v.deep_view()),
            Step::Miss => SpecStep::Miss,
            Step::Abort(e) => SpecStep::Abort(e.deep_view()),
        }
    }
}

/// A found position is between `lo` and `hi`.
pub open spec fn sfound_in<T>(r: SpecStep<T>, lo: int, hi: int) -> bool {
    match r {
        SpecStep::Found(p, _) => lo <= p <= hi,
        _ => true,
    }
}

/// Positions handed to a continuation are pinned into `[lo, hi]`; the
/// scanners never leave that window, so the pin is the identity on every
/// reachable value, but it makes termination of the ghost grammar evident.
pub open spec fn clamp_pos(j: int, lo: int, hi: int) -> int {
    let lo2 = if lo > hi {
        hi
    } else {
        lo
    };
    if j < lo2 {
        lo2
    } else if j > hi {
        hi
    } else {
        j
    }
}

// ---------------------------------------------------------------------------
// Character classes
// ---------------------------------------------------------------------------

/// A character class used by the run scanner.
#[derive(Debug, PartialEq, Clone, Copy)]
pub enum Cls {
    /// Space, tab, carriage return, line feed.
    WsChar,
    /// A letter or one of `@ _ $`.
    Ealpha,
    /// A decimal digit.
    Digit,
    /// A hexadecimal digit.
    HexDig,
    /// A binary digit.
    BinDig,
    /// `-` or `.` inside an identifier.
    DashDot,
    /// Any character other than `'`: the payload of `h'...'`, scanned to
    /// the closing quote so that a bad digit is reported, not skipped.
    NotQuote,
    /// A base64 character, inside `b64'...'`.
    B64,
    /// A byte-string character per RFC 8610's BCHAR range, inside `'...'`.
    BChar,
    /// An unescaped text character per RFC 8610.
    SChar,
}

/// Ghost definition of each character class.
pub open spec fn in_cls(c: char, k: Cls) -> bool {
    match k {
        Cls::WsChar => c == ' ' || c == '\t' || c == '\r' || c == '\n',
        Cls::Ealpha => ('a' <= c && c <= 'z') || ('A' <= c && c <= 'Z') || c == '@' || c == '_'
            || c == '$',
        Cls::Digit => '0' <= c && c <= '9',
        Cls::HexDig => ('0' <= c && c <= '9') || ('a' <= c && c <= 'f') || ('A' <= c && c <= 'F'),
        Cls::BinDig => c == '0' || c == '1',
        Cls::DashDot => c == '-' || c == '.',
        Cls::NotQuote => c != '\'',
        Cls::B64 => ('0' <= c && c <= '9') || ('a' <= c && c <= 'z') || ('A' <= c && c <= 'Z')
            || c == '+' || c == '/' || c == '=',
        Cls::BChar => {
            let v = c as u32;
            (0x20 <= v && v <= 0x26) || (0x28 <= v && v <= 0x5B) || (0x5D <= v && v <= 0x10FFFD)
        },
        Cls::SChar => {
            let v = c as u32;
            (0x20 <= v && v <= 0x21) || (0x23 <= v && v <= 0x5B) || (0x5D <= v && v <= 0x7E) || (
            0x80 <= v && v <= 0x10FFFD)
        },
    }
}

/// Decides membership in a character class.
pub fn cls_contains(c: char, k: Cls) -> (b: bool)
    ensures
        b == in_cls(c, k),
{
    match k {
        Cls::WsChar => c == ' ' || c == '\t' || c == '\r' || c == '\n',
        Cls::Ealpha => ('a' <= c && c <= 'z') || ('A' <= c && c <= 'Z') || c == '@' || c == '_'
            || c == '$',
        Cls::Digit => '0' <= c && c <= '9',
        Cls::HexDig => ('0' <= c && c <= '9') || ('a' <= c && c <= 'f') || ('A' <= c && c <= 'F'),
        Cls::BinDig => c == '0' || c == '1',
        Cls::DashDot => c == '-' || c == '.',
        Cls::NotQuote => c != '\'',
        Cls::B64 => ('0' <= c && c <= '9') || ('a' <= c && c <= 'z') || ('A' <= c && c <= 'Z')
            || c == '+' || c == '/' || c == '=',
        Cls::BChar => {
            let v = c as u32;
            (0x20 <= v && v <= 0x26) || (0x28 <= v && v <= 0x5B) || (0x5D <= v && v <= 0x10FFFD)
        },
        Cls::SChar => {
            let v = c as u32;
            (0x20 <= v && v <= 0x21) || (0x23 <= v && v <= 0x5B) || (0x5D <= v && v <= 0x7E) || (
            0x80 <= v && v <= 0x10FFFD)
        },
    }
}

/// An unescaped text character: RFC 8610's SCHAR range.
pub fn is_unescaped_schar(c: char) -> (b: bool)
    ensures
        b == in_cls(c, Cls::SChar),
{
    cls_contains(c, Cls::SChar)
}

/// A base64 character (alphanumeric, `+`, `/` or `=`).
pub fn is_base64_char(c: char) -> (b: bool)
    ensures
        b == in_cls(c, Cls::B64),
{
    cls_contains(c, Cls::B64)
}

/// A character allowed after a backslash: the printable and non-ASCII range.
pub open spec fn sp_sesc_char(c: char) -> bool {
    let v = c as u32;
    (0x20 <= v && v <= 0x7E) || (0x80 <= v && v <= 0x10FFFD)
}

/// Decides whether a character may follow a backslash escape.
pub fn is_sesc_char(c: char) -> (b: bool)
    ensures
        b == sp_sesc_char(c),
{
    let v = c as u32;
    (0x20 <= v && v <= 0x7E) || (0x80 <= v && v <= 0x10FFFD)
}

// ---------------------------------------------------------------------------
// Runs of characters
// ---------------------------------------------------------------------------

pub open spec fn sp_run_raw(s: Seq<char>, i: int, k: Cls) -> int
    decreases s.len() - i,
{
    if 0 <= i < s.len() && in_cls(s[i], k) {
        sp_run_raw(s, i + 1, k)
    } else {
        i
    }
}

/// The end of the longest run of class-`k` characters starting at `i`.
pub open spec fn sp_run(s: Seq<char>, i: int, k: Cls) -> int {
    clamp_pos(sp_run_raw(s, i, k), i, s.len() as int)
}

proof fn lemma_run_raw_bounds(s: Seq<char>, i: int, k: Cls)
    requires
        0 <= i <= s.len(),
    ensures
        i <= sp_run_raw(s, i, k) <= s.len(),
        sp_run(s, i, k) == sp_run_raw(s, i, k),
    decreases s.len() - i,
{
    if i < s.len() && in_cls(s[i], k) {
        lemma_run_raw_bounds(s, i + 1, k);
    }
}

/// Scans past the longest run of class-`k` characters starting at `i`.
pub fn run_cls(s: &Vec<char>, i: usize, k: Cls) -> (r: usize)
    requires
        i <= s.len(),
    ensures
        r == sp_run(s@, i as int, k),
        i <= r <= s.len(),
    decreases s.len() - i,
{
    proof {
        lemma_run_raw_bounds(s@, i as int, k);
    }
    if i < s.len() && cls_contains(s[i], k) {
        proof {
            lemma_run_raw_bounds(s@, i + 1int, k);
        }
        run_cls(s, i + 1, k)
    } else {
        assert(sp_run_raw(s@, i as int, k) == i as int);
        i
    }
}

// ---------------------------------------------------------------------------
// Whitespace and comments
// ---------------------------------------------------------------------------

pub open spec fn sp_skip_line_raw(s: Seq<char>, i: int) -> int
    decreases s.len() - i,
{
    if 0 <= i < s.len() && s[i] != '\r' && s[i] != '\n' {
        sp_skip_line_raw(s, i + 1)
    } else {
        i
    }
}

/// The end of a comment body: everything up to (not including) the next
/// carriage return or line feed.
pub open spec fn sp_skip_line(s: Seq<char>, i: int) -> int {
    clamp_pos(sp_skip_line_raw(s, i), i, s.len() as int)
}

proof fn lemma_skip_line_raw_bounds(s: Seq<char>, i: int)
    requires
        0 <= i <= s.len(),
    ensures
        i <= sp_skip_line_raw(s, i) <= s.len(),
        sp_skip_line(s, i) == sp_skip_line_raw(s, i),
    decreases s.len() - i,
{
    if i < s.len() && s[i] != '\r' && s[i] != '\n' {
        lemma_skip_line_raw_bounds(s, i + 1);
    }
}

fn skip_line(s: &Vec<char>, i: usize) -> (r: usize)
    requires
        i <= s.len(),
    ensures
        r == sp_skip_line(s@, i as int),
        i <= r <= s.len(),
    decreases s.len() - i,
{
    proof {
        lemma_skip_line_raw_bounds(s@, i as int);
    }
    if i < s.len() && s[i] != '\r' && s[i] != '\n' {
        proof {
            lemma_skip_line_raw_bounds(s@, i + 1int);
        }
        skip_line(s, i + 1)
    } else {
        assert(sp_skip_line_raw(s@, i as int) == i as int);
        i
    }
}

pub open spec fn sp_ws_raw(s: Seq<char>, i: int) -> int
    decreases s.len() - i,
{
    if 0 <= i < s.len() {
        if in_cls(s[i], Cls::WsChar) {
            sp_ws_raw(s, i + 1)
        } else if s[i] == ';' {
            sp_ws_raw(s, clamp_pos(sp_skip_line(s, i + 1), i + 1, s.len() as int))
        } else {
            i
        }
    } else {
        i
    }
}

/// The position after any run of whitespace and `;` comments starting at `i`.
pub open spec fn sp_ws(s: Seq<char>, i: int) -> int {
    clamp_pos(sp_ws_raw(s, i), i, s.len() as int)
}

proof fn lemma_ws_raw_bounds(s: Seq<char>, i: int)
    requires
        0 <= i <= s.len(),
    ensures
        i <= sp_ws_raw(s, i) <= s.len(),
        sp_ws(s, i) == sp_ws_raw(s, i),
    decreases s.len() - i,
{
    if i < s.len() {
        if in_cls(s[i], Cls::WsChar) {
            lemma_ws_raw_bounds(s, i + 1);
        } else if s[i] == ';' {
            lemma_ws_raw_bounds(s, clamp_pos(sp_skip_line(s, i + 1), i + 1, s.len() as int));
        }
    }
}

/// Skips whitespace and comments.
pub fn ws(s: &Vec<char>, i: usize) -> (r: usize)
    requires
        i <= s.len(),
    ensures
        r == sp_ws(s@, i as int),
        i <= r <= s.len(),
    decreases s.len() - i,
{
    proof {
        lemma_ws_raw_bounds(s@, i as int);
    }
    if i < s.len() {
        if cls_contains(s[i], Cls::WsChar) {
            proof {
                lemma_ws_raw_bounds(s@, i + 1int);
            }
            let r = ws(s, i + 1);
            assert(sp_ws_raw(s@, i as int) == sp_ws_raw(s@, i + 1int));
            r
        } else if s[i] == ';' {
            let j = skip_line(s, i + 1);
            proof {
                lemma_ws_raw_bounds(s@, j as int);
            }
            let r = ws(s, j);
            assert(sp_ws_raw(s@, i as int) == sp_ws_raw(s@, j as int));
            r
        } else {
            assert(sp_ws_raw(s@, i as int) == i as int);
            i
        }
    } else {
        assert(sp_ws_raw(s@, i as int) == i as int);
        i
    }
}

/// The position after an optional comma surrounded by whitespace.
pub open spec fn sp_optcom(s: Seq<char>, i: int) -> int {
    let j = sp_ws(s, i);
    if j < s.len() && s[j] == ',' {
        sp_ws(s, j + 1)
    } else {
        j
    }
}

/// Skips whitespace, one optional comma, and more whitespace.
pub fn optcom(s: &Vec<char>, i: usize) -> (r: usize)
    requires
        i <= s.len(),
    ensures
        r == sp_optcom(s@, i as int),
        i <= r <= s.len(),
{
    let j = ws(s, i);
    if j < s.len() && s[j] == ',' {
        ws(s, j + 1)
    } else {
        j
    }
}

// ---------------------------------------------------------------------------
// Identifiers
// ---------------------------------------------------------------------------

pub open spec fn sp_ident_tail_raw(s: Seq<char>, i: int) -> int
    decreases s.len() - i,
{
    let j = sp_run(s, i, Cls::DashDot);
    let e = if j < s.len() && in_cls(s[j], Cls::Ealpha) {
        sp_run(s, j, Cls::Ealpha)
    } else if j < s.len() && in_cls(s[j], Cls::Digit) {
        sp_run(s, j, Cls::Digit)
    } else {
        i  // no tail segment here; yield the start to signal a stop
    };
    if e > i {
        sp_ident_tail_raw(s, e)
    } else {
        i
    }
}

/// The end of an identifier's tail: repeated segments of `-`/`.` runs
/// followed by a letter or digit run.
pub open spec fn sp_ident_tail(s: Seq<char>, i: int) -> int {
    clamp_pos(sp_ident_tail_raw(s, i), i, s.len() as int)
}

proof fn lemma_ident_tail_raw_bounds(s: Seq<char>, i: int)
    requires
        0 <= i <= s.len(),
    ensures
        i <= sp_ident_tail_raw(s, i) <= s.len(),
        sp_ident_tail(s, i) == sp_ident_tail_raw(s, i),
    decreases s.len() - i,
{
    let j = sp_run(s, i, Cls::DashDot);
    lemma_run_raw_bounds(s, i, Cls::DashDot);
    let e = if j < s.len() && in_cls(s[j], Cls::Ealpha) {
        lemma_run_raw_bounds(s, j, Cls::Ealpha);
        sp_run(s, j, Cls::Ealpha)
    } else if j < s.len() && in_cls(s[j], Cls::Digit) {
        lemma_run_raw_bounds(s, j, Cls::Digit);
        sp_run(s, j, Cls::Digit)
    } else {
        i
    };
    if e > i {
        lemma_ident_tail_raw_bounds(s, e);
    }
}

fn ident_tail(s: &Vec<char>, i: usize) -> (r: usize)
    requires
        i <= s.len(),
    ensures
        r == sp_ident_tail(s@, i as int),
        i <= r <= s.len(),
    decreases s.len() - i,
{
    proof {
        lemma_ident_tail_raw_bounds(s@, i as int);
    }
    let j = run_cls(s, i, Cls::DashDot);
    let e: usize = if j < s.len() && cls_contains(s[j], Cls::Ealpha) {
        run_cls(s, j, Cls::Ealpha)
    } else if j < s.len() && cls_contains(s[j], Cls::Digit) {
        run_cls(s, j, Cls::Digit)
    } else {
        i
    };
    if e > i {
        proof {
            lemma_ident_tail_raw_bounds(s@, e as int);
        }
        let r = ident_tail(s, e);
        assert(sp_ident_tail_raw(s@, i as int) == sp_ident_tail_raw(s@, e as int));
        r
    } else {
        assert(sp_ident_tail_raw(s@, i as int) == i as int);
        i
    }
}

/// The result of scanning an identifier at `i`: the position one past its
/// end, or nothing when `i` does not start an identifier.
pub open spec fn sp_ident_end(s: Seq<char>, i: int) -> Option<int> {
    if 0 <= i < s.len() && in_cls(s[i], Cls::Ealpha) {
        let j = sp_run(s, i, Cls::Ealpha);
        Option::Some(sp_ident_tail(s, j))
    } else {
        Option::None
    }
}

/// Ghost twin of [`ident`]: the recognized identifier text.
#[verifier::opaque]
pub open spec fn sp_ident(s: Seq<char>, i: int) -> SpecStep<Seq<char>> {
    match sp_ident_end(s, i) {
        Option::Some(e) => SpecStep::Found(e, s.subrange(i, e)),
        Option::None => SpecStep::Miss,
    }
}

/// Recognizes an identifier: a letter or `@ _ $`, continued by the same
/// class plus digits and internal `-` / `.` characters.
pub fn ident(s: &Vec<char>, i: usize) -> (r: Step<String>)
    requires
        i <= s.len(),
    ensures
        r.deep_view() == sp_ident(s@, i as int),
        sfound_in(r.deep_view(), i + 1, s@.len() as int),
{
    proof {
        reveal_with_fuel(sp_ident, 1);
    }
    if i < s.len() && cls_contains(s[i], Cls::Ealpha) {
        let j = run_cls(s, i, Cls::Ealpha);
        assert(j > i) by {
            lemma_run_raw_bounds(s@, i + 1int, Cls::Ealpha);
            assert(sp_run_raw(s@, i as int, Cls::Ealpha) == sp_run_raw(s@, i + 1int, Cls::Ealpha));
        }
        let e = ident_tail(s, j);
        let text = chars_to_string(&sub_chars(s, i, e));
        Step::Found(e, text)
    } else {
        Step::Miss
    }
}

// ---------------------------------------------------------------------------
// Small helpers
// ---------------------------------------------------------------------------

/// Copies the characters of `s` between `a` and `b` into a fresh vector.
pub fn sub_chars(s: &Vec<char>, a: usize, b: usize) -> (r: Vec<char>)
    requires
        a <= b <= s.len(),
    ensures
        r@ == s@.subrange(a as int, b as int),
{
    let mut out: Vec<char> = Vec::new();
    let mut i: usize = a;
    while i < b
        invariant
            a <= i <= b <= s.len(),
            out@ == s@.subrange(a as int, i as int),
        decreases b - i,
    {
        out.push(s[i]);
        i = i + 1;
        assert(out@ =~= s@.subrange(a as int, i as int));
    }
    out
}

/// Relies on `String`'s `FromIterator<char>` impl: collecting characters
/// yields the string of exactly those characters, in order.
#[verifier::external_body]
pub fn chars_to_string(cs: &Vec<char>) -> (r: String)
    ensures
        r@ == cs@,
{
    cs.iter().collect()
}

/// Copies the characters of a string slice into a vector, in order.
pub fn str_to_chars(t: &str) -> (r: Vec<char>)
    ensures
        r@ == t@,
{
    let n = t.unicode_len();
    let mut out: Vec<char> = Vec::new();
    let mut i: usize = 0;
    while i < n
        invariant
            i <= n,
            n == t@.len(),
            out@ == t@.subrange(0, i as int),
        decreases n - i,
    {
        out.push(t.get_char(i));
        i = i + 1;
        assert(out@ =~= t@.subrange(0, i as int));
    }
    assert(out@ =~= t@);
    out
}

// ---------------------------------------------------------------------------
// Numbers
// ---------------------------------------------------------------------------

/// The numeric value of one digit character (hex digits included).
pub open spec fn sp_dval(c: char) -> int {
    if '0' <= c && c <= '9' {
        c as int - 48
    } else if 'a' <= c && c <= 'f' {
        c as int - 87
    } else if 'A' <= c && c <= 'F' {
        c as int - 55
    } else {
        0
    }
}

/// The value of a digit string read in the given base.
pub open spec fn sp_digits_val(s: Seq<char>, base: int) -> int
    decreases s.len(),
{
    if s.len() == 0 {
        0
    } else {
        sp_digits_val(s.drop_last(), base) * base + sp_dval(s.last())
    }
}

proof fn lemma_digits_val_nonneg(s: Seq<char>, base: int)
    requires
        base >= 2,
    ensures
        sp_digits_val(s, base) >= 0,
    decreases s.len(),
{
    if s.len() > 0 {
        lemma_digits_val_nonneg(s.drop_last(), base);
        assert(sp_digits_val(s.drop_last(), base) * base >= 0) by (nonlinear_arith)
            requires
                sp_digits_val(s.drop_last(), base) >= 0,
                base >= 2,
        ;
    }
}

proof fn lemma_digits_val_step(s: Seq<char>, base: int, k: int)
    requires
        0 <= k < s.len(),
    ensures
        sp_digits_val(s.take(k + 1), base) == sp_digits_val(s.take(k), base) * base + sp_dval(
            s[k],
        ),
{
    assert(s.take(k + 1).drop_last() =~= s.take(k));
    assert(s.take(k + 1).last() == s[k]);
}

proof fn lemma_digits_val_grows(s: Seq<char>, base: int, k: int)
    requires
        base >= 2,
        0 <= k <= s.len(),
    ensures
        sp_digits_val(s, base) >= sp_digits_val(s.take(k), base),
    decreases s.len() - k,
{
    if k < s.len() {
        lemma_digits_val_step(s, base, k);
        lemma_digits_val_nonneg(s.take(k), base);
        assert(sp_digits_val(s.take(k), base) * base >= sp_digits_val(s.take(k), base)) by (
        nonlinear_arith)
            requires
                sp_digits_val(s.take(k), base) >= 0,
                base >= 2,
        ;
        lemma_digits_val_grows(s, base, k + 1);
    } else {
        assert(s.take(k) =~= s);
    }
}

/// The numeric value of one digit character.
fn dval(c: char) -> (d: u64)
    ensures
        d as int == sp_dval(c),
        d < 16,
{
    if '0' <= c && c <= '9' {
        (c as u32 - 48) as u64
    } else if 'a' <= c && c <= 'f' {
        (c as u32 - 87) as u64
    } else if 'A' <= c && c <= 'F' {
        (c as u32 - 55) as u64
    } else {
        0
    }
}

/// Reads the digit characters between `a` and `b` in the given base;
/// reports the exact value, or nothing exactly when the value exceeds
/// `u64::MAX`.
fn digits_to_u64(s: &Vec<char>, a: usize, b: usize, base: u64) -> (r: Option<u64>)
    requires
        a <= b <= s.len(),
        2 <= base <= 16,
    ensures
        match r {
            Option::Some(v) => v as int == sp_digits_val(s@.subrange(a as int, b as int), base as int),
            Option::None => sp_digits_val(s@.subrange(a as int, b as int), base as int) > u64::MAX,
        },
{
    let ghost whole = s@.subrange(a as int, b as int);
    let mut acc: u64 = 0;
    let mut k: usize = a;
    while k < b
        invariant
            a <= k <= b <= s.len(),
            2 <= base <= 16,
            whole == s@.subrange(a as int, b as int),
            acc as int == sp_digits_val(whole.take(k - a), base as int),
        decreases b - k,
    {
        let d = dval(s[k]);
        proof {
            lemma_digits_val_step(whole, base as int, k - a);
            assert(whole[k - a] == s@[k as int]);
        }
        let m = match acc.checked_mul(base) {
            Option::Some(m) => m,
            Option::None => {
                proof {
                    lemma_digits_val_nonneg(whole.take(k - a), base as int);
                    lemma_digits_val_grows(whole, base as int, k - a + 1);
                }
                return Option::None;
            },
        };
        let next = match m.checked_add(d) {
            Option::Some(v) => v,
            Option::None => {
                proof {
                    lemma_digits_val_grows(whole, base as int, k - a + 1);
                }
                return Option::None;
            },
        };
        acc = next;
        k = k + 1;
    }
    proof {
        assert(whole.take(b - a) =~= whole);
    }
    Option::Some(acc)
}

/// Where an unsigned integer token starts at `i`: its base and the range of
/// its digit characters, or nothing when no such token starts here.
pub open spec fn sp_uint_scan(s: Seq<char>, i: int) -> Option<(int, int, int)> {
    let len = s.len() as int;
    if i + 1 < len && s[i] == '0' && s[i + 1] == 'x' && sp_run(s, i + 2, Cls::HexDig) > i + 2 {
        Option::Some((16, i + 2, sp_run(s, i + 2, Cls::HexDig)))
    } else if i + 1 < len && s[i] == '0' && s[i + 1] == 'b' && sp_run(s, i + 2, Cls::BinDig) > i
        + 2 {
        Option::Some((2, i + 2, sp_run(s, i + 2, Cls::BinDig)))
    } else if 0 <= i < len && s[i] == '0' {
        Option::Some((10, i, i + 1))
    } else if 0 <= i < len && '1' <= s[i] && s[i] <= '9' {
        Option::Some((10, i, sp_run(s, i, Cls::Digit)))
    } else {
        Option::None
    }
}

/// Scans an unsigned integer token: `(base, digits start, digits end)`.
pub fn uint(s: &Vec<char>, i: usize) -> (r: Option<(u64, usize, usize)>)
    requires
        i <= s.len(),
    ensures
        match r {
            Option::Some((b, ds, de)) => {
                &&& sp_uint_scan(s@, i as int) == Option::Some((b as int, ds as int, de as int))
                &&& i <= ds <= de <= s.len()
                &&& i < de
                &&& 2 <= b <= 16
            },
            Option::None => sp_uint_scan(s@, i as int) is None,
        },
{
    if i < s.len() && s[i] == '0' && i + 1 < s.len() && s[i + 1] == 'x' {
        let e = run_cls(s, i + 2, Cls::HexDig);
        if e > i + 2 {
            return Option::Some((16, i + 2, e));
        }
    }
    if i < s.len() && s[i] == '0' && i + 1 < s.len() && s[i + 1] == 'b' {
        let e = run_cls(s, i + 2, Cls::BinDig);
        if e > i + 2 {
            return Option::Some((2, i + 2, e));
        }
    }
    if i < s.len() && s[i] == '0' {
        Option::Some((10, i, i + 1))
    } else if i < s.len() && '1' <= s[i] && s[i] <= '9' {
        let e = run_cls(s, i, Cls::Digit);
        assert(e > i) by {
            lemma_run_raw_bounds(s@, i + 1int, Cls::Digit);
            assert(sp_run_raw(s@, i as int, Cls::Digit) == sp_run_raw(s@, i + 1int, Cls::Digit));
        }
        Option::Some((10, i, e))
    } else {
        Option::None
    }
}

/// Ghost twin of [`uint_u64`].
#[verifier::opaque]
pub open spec fn sp_uint_u64(s: Seq<char>, i: int) -> SpecStep<u64> {
    match sp_uint_scan(s, i) {
        Option::Some((b, ds, de)) => {
            let v = sp_digits_val(s.subrange(ds, de), b);
            if v <= u64::MAX {
                SpecStep::Found(de, v as u64)
            } else {
                SpecStep::Abort(
                    SpecParseError { kind: ErrorKind::MalformedInteger, ctx: s.subrange(ds, de) },
                )
            }
        },
        Option::None => SpecStep::Miss,
    }
}

/// Reads an unsigned integer in decimal, hexadecimal (`0x`) or binary
/// (`0b`) notation; a value beyond `u64::MAX` is a `MalformedInteger` error.
pub fn uint_u64(s: &Vec<char>, i: usize) -> (r: Step<u64>)
    requires
        i <= s.len(),
    ensures
        r.deep_view() == sp_uint_u64(s@, i as int),
        sfound_in(r.deep_view(), i + 1, s@.len() as int),
{
    proof {
        reveal_with_fuel(sp_uint_u64, 1);
    }
    match uint(s, i) {
        Option::Some((b, ds, de)) => {
            match digits_to_u64(s, ds, de, b) {
                Option::Some(v) => Step::Found(de, v),
                Option::None => Step::Abort(
                    ParseError {
                        kind: ErrorKind::MalformedInteger,
                        ctx: chars_to_string(&sub_chars(s, ds, de)),
                    },
                ),
            }
        },
        Option::None => Step::Miss,
    }
}

/// Where a signed integer token starts at `i`: the sign, then the base and
/// digit range of its unsigned part.
pub open spec fn sp_int_scan(s: Seq<char>, i: int) -> Option<(bool, int, int, int)> {
    if 0 <= i < s.len() && s[i] == '-' {
        match sp_uint_scan(s, i + 1) {
            Option::Some((b, ds, de)) => Option::Some((true, b, ds, de)),
            Option::None => Option::None,
        }
    } else {
        match sp_uint_scan(s, i) {
            Option::Some((b, ds, de)) => Option::Some((false, b, ds, de)),
            Option::None => Option::None,
        }
    }
}

/// Scans a signed integer token: `(negative, base, digits start, digits end)`.
pub fn int_token(s: &Vec<char>, i: usize) -> (r: Option<(bool, u64, usize, usize)>)
    requires
        i <= s.len(),
    ensures
        match r {
            Option::Some((neg, b, ds, de)) => {
                &&& sp_int_scan(s@, i as int) == Option::Some(
                    (neg, b as int, ds as int, de as int),
                )
                &&& i <= ds <= de <= s.len()
                &&& i < de
                &&& 2 <= b <= 16
            },
            Option::None => sp_int_scan(s@, i as int) is None,
        },
{
    if i < s.len() && s[i] == '-' {
        match uint(s, i + 1) {
            Option::Some((b, ds, de)) => Option::Some((true, b, ds, de)),
            Option::None => Option::None,
        }
    } else {
        match uint(s, i) {
            Option::Some((b, ds, de)) => Option::Some((false, b, ds, de)),
            Option::None => Option::None,
        }
    }
}

/// The integer outcome for a scanned integer token: `Uint` or `Nint`, or a
/// `MalformedInteger` error when the digits exceed the representable range.
pub open spec fn sp_parse_int(s: Seq<char>, neg: bool, b: int, ds: int, de: int) -> SpecStep<
    SpecValue,
> {
    let v = sp_digits_val(s.subrange(ds, de), b);
    if v > u64::MAX {
        SpecStep::Abort(
            SpecParseError { kind: ErrorKind::MalformedInteger, ctx: s.subrange(ds, de) },
        )
    } else if neg {
        if v <= i64::MAX {
            SpecStep::Found(de, SpecValue::Nint((-v) as i64))
        } else {
            SpecStep::Abort(
                SpecParseError { kind: ErrorKind::MalformedInteger, ctx: s.subrange(ds, de) },
            )
        }
    } else {
        SpecStep::Found(de, SpecValue::Uint(v as u64))
    }
}

fn parse_int(s: &Vec<char>, neg: bool, b: u64, ds: usize, de: usize) -> (r: Step<super::ast::Value>)
    requires
        ds <= de <= s.len(),
        2 <= b <= 16,
    ensures
        r.deep_view() == sp_parse_int(s@, neg, b as int, ds as int, de as int),
        sfound_in(r.deep_view(), de as int, de as int),
{
    match digits_to_u64(s, ds, de, b) {
        Option::Some(v) => {
            if neg {
                if v <= 9223372036854775807u64 {
                    Step::Found(de, super::ast::Value::Nint(-(v as i64)))
                } else {
                    Step::Abort(
                        ParseError {
                            kind: ErrorKind::MalformedInteger,
                            ctx: chars_to_string(&sub_chars(s, ds, de)),
                        },
                    )
                }
            } else {
                Step::Found(de, super::ast::Value::Uint(v))
            }
        },
        Option::None => Step::Abort(
            ParseError {
                kind: ErrorKind::MalformedInteger,
                ctx: chars_to_string(&sub_chars(s, ds, de)),
            },
        ),
    }
}

/// The end of a fraction part `.digits` at `i`, when present.
pub open spec fn sp_frac_end(s: Seq<char>, i: int) -> Option<int> {
    if i + 1 < s.len() && s[i] == '.' && in_cls(s[i + 1], Cls::Digit) {
        Option::Some(sp_run(s, i + 1, Cls::Digit))
    } else {
        Option::None
    }
}

/// The end of an exponent part `e[+-]digits` at `i`, when present.
pub open spec fn sp_exp_end(s: Seq<char>, i: int) -> Option<int> {
    if i + 1 < s.len() && s[i] == 'e' {
        if in_cls(s[i + 1], Cls::Digit) {
            Option::Some(sp_run(s, i + 1, Cls::Digit))
        } else if i + 2 < s.len() && (s[i + 1] == '+' || s[i + 1] == '-') && in_cls(
            s[i + 2],
            Cls::Digit,
        ) {
            Option::Some(sp_run(s, i + 2, Cls::Digit))
        } else {
            Option::None
        }
    } else {
        Option::None
    }
}

/// Ghost twin of [`float_or_int`].  A number with a fraction or exponent is
/// a float and is kept as its source text; with a non-decimal base such a
/// number is a `MalformedInteger`-class error.  A plain integer follows
/// [`sp_parse_int`].
#[verifier::opaque]
pub open spec fn sp_float_or_int(s: Seq<char>, i: int) -> SpecStep<SpecValue> {
    match sp_int_scan(s, i) {
        Option::None => SpecStep::Miss,
        Option::Some((neg, b, ds, de)) => {
            let after_frac = match sp_frac_end(s, de) {
                Option::Some(e) => e,
                Option::None => de,
            };
            let after_exp = match sp_exp_end(s, after_frac) {
                Option::Some(e) => e,
                Option::None => after_frac,
            };
            if after_exp == de {
                sp_parse_int(s, neg, b, ds, de)
            } else if b != 10 {
                SpecStep::Abort(
                    SpecParseError {
                        kind: ErrorKind::MalformedInteger,
                        ctx: s.subrange(i, after_exp),
                    },
                )
            } else {
                SpecStep::Found(after_exp, SpecValue::Float(s.subrange(i, after_exp)))
            }
        },
    }
}

/// Reads a number: an integer, optionally followed by a fraction and an
/// exponent.  If either of the latter two is present the number is a float.
pub fn float_or_int(s: &Vec<char>, i: usize) -> (r: Step<super::ast::Value>)
    requires
        i <= s.len(),
    ensures
        r.deep_view() == sp_float_or_int(s@, i as int),
        sfound_in(r.deep_view(), i + 1, s@.len() as int),
{
    proof {
        reveal_with_fuel(sp_float_or_int, 1);
    }
    match int_token(s, i) {
        Option::None => Step::Miss,
        Option::Some((neg, b, ds, de)) => {
            let after_frac: usize = if de < s.len() && s[de] == '.' && de + 1 < s.len()
                && cls_contains(s[de + 1], Cls::Digit) {
                run_cls(s, de + 1, Cls::Digit)
            } else {
                de
            };
            let after_exp: usize = if after_frac < s.len() && s[after_frac] == 'e' && after_frac
                + 1 < s.len() {
                if cls_contains(s[after_frac + 1], Cls::Digit) {
                    run_cls(s, after_frac + 1, Cls::Digit)
                } else if after_frac + 2 < s.len() && (s[after_frac + 1] == '+' || s[after_frac + 1]
                    == '-') && cls_contains(s[after_frac + 2], Cls::Digit) {
                    run_cls(s, after_frac + 2, Cls::Digit)
                } else {
                    after_frac
                }
            } else {
                after_frac
            };
            if after_exp == de {
                parse_int(s, neg, b, ds, de)
            } else if b != 10 {
                Step::Abort(
                    ParseError {
                        kind: ErrorKind::MalformedInteger,
                        ctx: chars_to_string(&sub_chars(s, i, after_exp)),
                    },
                )
            } else {
                Step::Found(
                    after_exp,
                    super::ast::Value::Float(chars_to_string(&sub_chars(s, i, after_exp))),
                )
            }
        },
    }
}

// ---------------------------------------------------------------------------
// Occurrence indicators
// ---------------------------------------------------------------------------

/// Ghost twin of [`occur`]: `?`, `+`, or `[uint] * [uint]`.
#[verifier::opaque]
pub open spec fn sp_occur(s: Seq<char>, i: int) -> SpecStep<super::ast::Occur> {
    if 0 <= i < s.len() && s[i] == '+' {
        SpecStep::Found(i + 1, super::ast::Occur::OneOrMore)
    } else if 0 <= i < s.len() && s[i] == '?' {
        SpecStep::Found(i + 1, super::ast::Occur::Optional)
    } else {
        match sp_uint_u64(s, i) {
            SpecStep::Abort(e) => SpecStep::Abort(e),
            SpecStep::Found(j, lo) => {
                if j < s.len() && s[j] == '*' {
                    match sp_uint_u64(s, j + 1) {
                        SpecStep::Abort(e) => SpecStep::Abort(e),
                        SpecStep::Found(k, hi) => sp_occur_numbered(s, i, k, lo as int, hi as int),
                        SpecStep::Miss => sp_occur_numbered(
                            s,
                            i,
                            j + 1,
                            lo as int,
                            usize::MAX as int,
                        ),
                    }
                } else {
                    SpecStep::Miss
                }
            },
            SpecStep::Miss => {
                if 0 <= i < s.len() && s[i] == '*' {
                    match sp_uint_u64(s, i + 1) {
                        SpecStep::Abort(e) => SpecStep::Abort(e),
                        SpecStep::Found(k, hi) => sp_occur_numbered(s, i, k, 0, hi as int),
                        SpecStep::Miss => SpecStep::Found(i + 1, super::ast::Occur::ZeroOrMore),
                    }
                } else {
                    SpecStep::Miss
                }
            },
        }
    }
}

/// A numbered occurrence, with each bound checked against `usize`.
pub open spec fn sp_occur_numbered(s: Seq<char>, start: int, end: int, lo: int, hi: int) -> SpecStep<
    super::ast::Occur,
> {
    if lo <= usize::MAX && hi <= usize::MAX {
        SpecStep::Found(end, super::ast::Occur::Numbered(lo as usize, hi as usize))
    } else {
        SpecStep::Abort(
            SpecParseError {
                kind: ErrorKind::MalformedInteger,
                ctx: s.subrange(clamp_pos(start, 0, s.len() as int), clamp_pos(end, 0, s.len() as int)),
            },
        )
    }
}

/// Reads an occurrence indicator: `?`, `+`, or `[uint] * [uint]`.
pub fn occur(s: &Vec<char>, i: usize) -> (r: Step<super::ast::Occur>)
    requires
        i <= s.len(),
    ensures
        r.deep_view() == sp_occur(s@, i as int),
        sfound_in(r.deep_view(), i + 1, s@.len() as int),
{
    proof {
        reveal_with_fuel(sp_occur, 1);
    }
    if i < s.len() && s[i] == '+' {
        return Step::Found(i + 1, super::ast::Occur::OneOrMore);
    }
    if i < s.len() && s[i] == '?' {
        return Step::Found(i + 1, super::ast::Occur::Optional);
    }
    match uint_u64(s, i) {
        Step::Abort(e) => Step::Abort(e),
        Step::Found(j, lo) => {
            if j < s.len() && s[j] == '*' {
                match uint_u64(s, j + 1) {
                    Step::Abort(e) => Step::Abort(e),
                    Step::Found(k, hi) => occur_numbered(s, i, k, lo, hi),
                    Step::Miss => occur_numbered(s, i, j + 1, lo, usize::MAX as u64),
                }
            } else {
                Step::Miss
            }
        },
        Step::Miss => {
            if i < s.len() && s[i] == '*' {
                match uint_u64(s, i + 1) {
                    Step::Abort(e) => Step::Abort(e),
                    Step::Found(k, hi) => occur_numbered_star(s, i, k, hi),
                    Step::Miss => Step::Found(i + 1, super::ast::Occur::ZeroOrMore),
                }
            } else {
                Step::Miss
            }
        },
    }
}

fn occur_numbered(s: &Vec<char>, start: usize, end: usize, lo: u64, hi: u64) -> (r: Step<
    super::ast::Occur,
>)
    requires
        start <= end <= s.len(),
    ensures
        r.deep_view() == sp_occur_numbered(s@, start as int, end as int, lo as int, hi as int),
        sfound_in(r.deep_view(), end as int, end as int),
{
    if lo <= usize::MAX as u64 && hi <= usize::MAX as u64 {
        Step::Found(end, super::ast::Occur::Numbered(lo as usize, hi as usize))
    } else {
        Step::Abort(
            ParseError {
                kind: ErrorKind::MalformedInteger,
                ctx: chars_to_string(&sub_chars(s, start, end)),
            },
        )
    }
}

fn occur_numbered_star(s: &Vec<char>, start: usize, end: usize, hi: u64) -> (r: Step<
    super::ast::Occur,
>)
    requires
        start <= end <= s.len(),
    ensures
        r.deep_view() == sp_occur_numbered(s@, start as int, end as int, 0, hi as int),
        sfound_in(r.deep_view(), end as int, end as int),
{
    if hi <= usize::MAX as u64 {
        Step::Found(end, super::ast::Occur::Numbered(0, hi as usize))
    } else {
        Step::Abort(
            ParseError {
                kind: ErrorKind::MalformedInteger,
                ctx: chars_to_string(&sub_chars(s, start, end)),
            },
        )
    }
}

// ---------------------------------------------------------------------------
// Text literals
// ---------------------------------------------------------------------------

pub open spec fn sp_schar_end_raw(s: Seq<char>, i: int) -> int
    decreases s.len() - i,
{
    if 0 <= i < s.len() && in_cls(s[i], Cls::SChar) {
        sp_schar_end_raw(s, i + 1)
    } else if 0 <= i && i + 1 < s.len() && s[i] == '\\' && sp_sesc_char(s[i + 1]) {
        sp_schar_end_raw(s, i + 2)
    } else {
        i
    }
}

/// The end of a run of text characters: unescaped characters and
/// backslash escapes.
pub open spec fn sp_schar_end(s: Seq<char>, i: int) -> int {
    clamp_pos(sp_schar_end_raw(s, i), i, s.len() as int)
}

proof fn lemma_schar_end_raw_bounds(s: Seq<char>, i: int)
    requires
        0 <= i <= s.len(),
    ensures
        i <= sp_schar_end_raw(s, i) <= s.len(),
        sp_schar_end(s, i) == sp_schar_end_raw(s, i),
    decreases s.len() - i,
{
    if 0 <= i < s.len() && in_cls(s[i], Cls::SChar) {
        lemma_schar_end_raw_bounds(s, i + 1);
    } else if 0 <= i && i + 1 < s.len() && s[i] == '\\' && sp_sesc_char(s[i + 1]) {
        lemma_schar_end_raw_bounds(s, i + 2);
    }
}

fn schar_end(s: &Vec<char>, i: usize) -> (r: usize)
    requires
        i <= s.len(),
    ensures
        r == sp_schar_end(s@, i as int),
        i <= r <= s.len(),
    decreases s.len() - i,
{
    proof {
        lemma_schar_end_raw_bounds(s@, i as int);
    }
    if i < s.len() && cls_contains(s[i], Cls::SChar) {
        proof {
            lemma_schar_end_raw_bounds(s@, i + 1int);
        }
        schar_end(s, i + 1)
    } else if i < s.len() && s[i] == '\\' && i + 1 < s.len() && is_sesc_char(s[i + 1]) {
        proof {
            lemma_schar_end_raw_bounds(s@, i + 2int);
        }
        schar_end(s, i + 2)
    } else {
        assert(sp_schar_end_raw(s@, i as int) == i as int);
        i
    }
}

/// One or more unescaped text characters; yields the matched text.
pub fn unescaped_schar(s: &Vec<char>, i: usize) -> (r: Step<String>)
    requires
        i <= s.len(),
    ensures
        r.deep_view() == (if sp_run(s@, i as int, Cls::SChar) > i {
            SpecStep::Found(
                sp_run(s@, i as int, Cls::SChar),
                s@.subrange(i as int, sp_run(s@, i as int, Cls::SChar)),
            )
        } else {
            SpecStep::<Seq<char>>::Miss
        }),
{
    let e = run_cls(s, i, Cls::SChar);
    if e > i {
        Step::Found(e, chars_to_string(&sub_chars(s, i, e)))
    } else {
        Step::Miss
    }
}

/// One escaped character: a backslash followed by a printable or non-ASCII
/// character; yields the character after the backslash.
pub fn sesc(s: &Vec<char>, i: usize) -> (r: Step<String>)
    requires
        i <= s.len(),
    ensures
        r.deep_view() == (if i + 1 < s@.len() && s@[i as int] == '\\' && sp_sesc_char(
            s@[i + 1],
        ) {
            SpecStep::Found(i + 2, s@.subrange(i + 1, i + 2))
        } else {
            SpecStep::<Seq<char>>::Miss
        }),
{
    if i < s.len() && s[i] == '\\' && i + 1 < s.len() && is_sesc_char(s[i + 1]) {
        Step::Found(i + 2, chars_to_string(&sub_chars(s, i + 1, i + 2)))
    } else {
        Step::Miss
    }
}

/// Zero or more text characters (unescaped or escaped); yields the raw
/// matched text, escapes not yet expanded.
pub fn schar(s: &Vec<char>, i: usize) -> (r: Step<String>)
    requires
        i <= s.len(),
    ensures
        r.deep_view() == SpecStep::Found(
            sp_schar_end(s@, i as int),
            s@.subrange(i as int, sp_schar_end(s@, i as int)),
        ),
{
    let e = schar_end(s, i);
    Step::Found(e, chars_to_string(&sub_chars(s, i, e)))
}

/// What `escape8259::unescape` returns: the unescaped text, or nothing when
/// the escapes are malformed.  The result depends on the characters alone.
pub uninterp spec fn unescape_of(s: Seq<char>) -> Option<Seq<char>>;

/// Relies on `escape8259::unescape`: RFC 8259 string unescaping, covering
/// `\" \\ \/ \b \f \n \r \t` and `\uXXXX` with surrogate pairs.
#[verifier::external_body]
fn unescape_chars(cs: &Vec<char>) -> (r: Option<Vec<char>>)
    ensures
        r.deep_view() == unescape_of(cs@),
{
    let joined: String = cs.iter().collect();
    match escape8259::unescape(&joined) {
        Ok(t) => Some(t.chars().collect()),
        Err(_) => None,
    }
}

/// Ghost twin of [`text_literal`].
#[verifier::opaque]
pub open spec fn sp_text_literal(s: Seq<char>, i: int) -> SpecStep<Seq<char>> {
    if 0 <= i < s.len() && s[i] == '"' {
        let e = sp_schar_end(s, i + 1);
        if e < s.len() && s[e] == '"' {
            let raw = s.subrange(i + 1, e);
            match unescape_of(raw) {
                Option::Some(t) => SpecStep::Found(e + 1, t),
                Option::None => SpecStep::Abort(
                    SpecParseError { kind: ErrorKind::MalformedText, ctx: raw },
                ),
            }
        } else {
            SpecStep::Miss
        }
    } else {
        SpecStep::Miss
    }
}

/// Reads a double-quoted text literal and expands its escapes; malformed
/// escapes are a `MalformedText` error.
pub fn text_literal(s: &Vec<char>, i: usize) -> (r: Step<String>)
    requires
        i <= s.len(),
    ensures
        r.deep_view() == sp_text_literal(s@, i as int),
        sfound_in(r.deep_view(), i + 1, s@.len() as int),
{
    proof {
        reveal_with_fuel(sp_text_literal, 1);
    }
    if i < s.len() && s[i] == '"' {
        let e = schar_end(s, i + 1);
        if e < s.len() && s[e] == '"' {
            let raw = sub_chars(s, i + 1, e);
            match unescape_chars(&raw) {
                Option::Some(t) => {
                    proof {
                        assert(t.deep_view() =~= t@);
                    }
                    Step::Found(e + 1, chars_to_string(&t))
                },
                Option::None => Step::Abort(
                    ParseError { kind: ErrorKind::MalformedText, ctx: chars_to_string(&raw) },
                ),
            }
        } else {
            Step::Miss
        }
    } else {
        Step::Miss
    }
}

// ---------------------------------------------------------------------------
// Byte strings
// ---------------------------------------------------------------------------

/// The bytes of a run of ASCII characters.
pub open spec fn sp_ascii_bytes(s: Seq<char>) -> Seq<u8> {
    Seq::new(s.len(), |k: int| (s[k] as u32) as u8)
}

fn chars_to_bytes(s: &Vec<char>, a: usize, b: usize) -> (r: Vec<u8>)
    requires
        a <= b <= s.len(),
    ensures
        r@ == sp_ascii_bytes(s@.subrange(a as int, b as int)),
{
    let mut out: Vec<u8> = Vec::new();
    let mut k: usize = a;
    while k < b
        invariant
            a <= k <= b <= s.len(),
            out@ == sp_ascii_bytes(s@.subrange(a as int, k as int)),
        decreases b - k,
    {
        out.push((s[k] as u32) as u8);
        k = k + 1;
        assert(out@ =~= sp_ascii_bytes(s@.subrange(a as int, k as int)));
    }
    out
}


/// The UTF-8 encoding of one character.
pub open spec fn sp_utf8_char(c: char) -> Seq<u8> {
    let v = c as u32;
    if v < 0x80 {
        seq![v as u8]
    } else if v < 0x800 {
        seq![((v >> 6) | 0xC0) as u8, ((v & 0x3F) | 0x80) as u8]
    } else if v < 0x10000 {
        seq![
            ((v >> 12) | 0xE0) as u8,
            (((v >> 6) & 0x3F) | 0x80) as u8,
            ((v & 0x3F) | 0x80) as u8,
        ]
    } else {
        seq![
            ((v >> 18) | 0xF0) as u8,
            (((v >> 12) & 0x3F) | 0x80) as u8,
            (((v >> 6) & 0x3F) | 0x80) as u8,
            ((v & 0x3F) | 0x80) as u8,
        ]
    }
}

/// The UTF-8 encoding of a sequence of characters.
pub open spec fn sp_utf8_bytes(s: Seq<char>) -> Seq<u8>
    decreases s.len(),
{
    if s.len() == 0 {
        Seq::empty()
    } else {
        sp_utf8_char(s[0]) + sp_utf8_bytes(s.drop_first())
    }
}

proof fn lemma_utf8_bytes_push(p: Seq<char>, c: char)
    ensures
        sp_utf8_bytes(p.push(c)) == sp_utf8_bytes(p) + sp_utf8_char(c),
    decreases p.len(),
{
    if p.len() == 0 {
        assert(p.push(c).drop_first() =~= Seq::<char>::empty());
        assert(sp_utf8_bytes(Seq::<char>::empty()) =~= Seq::<u8>::empty());
        assert(p =~= Seq::<char>::empty());
        assert(sp_utf8_char(c) + Seq::<u8>::empty() =~= sp_utf8_char(c));
        assert(sp_utf8_bytes(p) + sp_utf8_char(c) =~= sp_utf8_char(c));
    } else {
        assert(p.push(c).drop_first() =~= p.drop_first().push(c));
        lemma_utf8_bytes_push(p.drop_first(), c);
        assert(sp_utf8_char(p[0]) + (sp_utf8_bytes(p.drop_first()) + sp_utf8_char(c)) =~= (
        sp_utf8_char(p[0]) + sp_utf8_bytes(p.drop_first())) + sp_utf8_char(c));
    }
}

fn utf8_bytes(s: &Vec<char>, a: usize, b: usize) -> (r: Vec<u8>)
    requires
        a <= b <= s.len(),
    ensures
        r@ == sp_utf8_bytes(s@.subrange(a as int, b as int)),
{
    let mut out: Vec<u8> = Vec::new();
    proof {
        assert(s@.subrange(a as int, a as int) =~= Seq::<char>::empty());
        assert(out@ =~= sp_utf8_bytes(s@.subrange(a as int, a as int)));
    }
    let mut k: usize = a;
    while k < b
        invariant
            a <= k <= b <= s.len(),
            out@ == sp_utf8_bytes(s@.subrange(a as int, k as int)),
        decreases b - k,
    {
        proof {
            lemma_utf8_bytes_push(s@.subrange(a as int, k as int), s@[k as int]);
            assert(s@.subrange(a as int, k + 1) =~= s@.subrange(a as int, k as int).push(
                s@[k as int],
            ));
        }
        let c = s[k];
        let v = c as u32;
        if v < 0x80 {
            out.push(v as u8);
        } else if v < 0x800 {
            out.push(((v >> 6) | 0xC0) as u8);
            out.push(((v & 0x3F) | 0x80) as u8);
        } else if v < 0x10000 {
            out.push(((v >> 12) | 0xE0) as u8);
            out.push((((v >> 6) & 0x3F) | 0x80) as u8);
            out.push(((v & 0x3F) | 0x80) as u8);
        } else {
            out.push(((v >> 18) | 0xF0) as u8);
            out.push((((v >> 12) & 0x3F) | 0x80) as u8);
            out.push((((v >> 6) & 0x3F) | 0x80) as u8);
            out.push(((v & 0x3F) | 0x80) as u8);
        }
        k = k + 1;
        proof {
            assert(out@ =~= sp_utf8_bytes(s@.subrange(a as int, k as int)));
        }
    }
    out
}

/// The characters of `s` with whitespace removed.
pub open spec fn sp_strip_ws(s: Seq<char>) -> Seq<char>
    decreases s.len(),
{
    if s.len() == 0 {
        Seq::empty()
    } else if in_cls(s[0], Cls::WsChar) {
        sp_strip_ws(s.drop_first())
    } else {
        seq![s[0]] + sp_strip_ws(s.drop_first())
    }
}

proof fn lemma_strip_ws_push(p: Seq<char>, c: char)
    ensures
        sp_strip_ws(p.push(c)) == if in_cls(c, Cls::WsChar) {
            sp_strip_ws(p)
        } else {
            sp_strip_ws(p).push(c)
        },
    decreases p.len(),
{
    if p.len() == 0 {
        assert(p.push(c).drop_first() =~= Seq::<char>::empty());
        assert(sp_strip_ws(Seq::<char>::empty()) =~= Seq::<char>::empty());
        assert(p =~= Seq::<char>::empty());
        if !in_cls(c, Cls::WsChar) {
            assert(sp_strip_ws(p.push(c)) =~= seq![c] + sp_strip_ws(Seq::<char>::empty()));
            assert(seq![c] + Seq::<char>::empty() =~= sp_strip_ws(p).push(c));
        }
    } else {
        assert(p.push(c).drop_first() =~= p.drop_first().push(c));
        lemma_strip_ws_push(p.drop_first(), c);
        if !in_cls(p[0], Cls::WsChar) && !in_cls(c, Cls::WsChar) {
            assert(seq![p[0]] + sp_strip_ws(p.drop_first()).push(c) =~= (seq![p[0]] + sp_strip_ws(
                p.drop_first(),
            )).push(c));
        }
    }
}

fn strip_ws_chars(s: &Vec<char>, a: usize, b: usize) -> (r: Vec<char>)
    requires
        a <= b <= s.len(),
    ensures
        r@ == sp_strip_ws(s@.subrange(a as int, b as int)),
{
    let mut out: Vec<char> = Vec::new();
    let mut k: usize = a;
    while k < b
        invariant
            a <= k <= b <= s.len(),
            out@ == sp_strip_ws(s@.subrange(a as int, k as int)),
        decreases b - k,
    {
        proof {
            lemma_strip_ws_push(s@.subrange(a as int, k as int), s@[k as int]);
            assert(s@.subrange(a as int, k + 1) =~= s@.subrange(a as int, k as int).push(
                s@[k as int],
            ));
        }
        if !cls_contains(s[k], Cls::WsChar) {
            out.push(s[k]);
        }
        k = k + 1;
    }
    out
}

/// What a string of hex digit pairs denotes: its bytes, or nothing when the
/// length is odd or a character is not a hex digit.
pub open spec fn sp_hex_decode(s: Seq<char>) -> Option<Seq<u8>> {
    if s.len() % 2 == 0 && (forall|j: int| 0 <= j < s.len() ==> in_cls(#[trigger] s[j], Cls::HexDig)) {
        Option::Some(
            Seq::new(s.len() / 2, |k: int| (sp_dval(s[2 * k]) * 16 + sp_dval(s[2 * k + 1])) as u8),
        )
    } else {
        Option::None
    }
}

/// Relies on `hex::decode`: upper- or lower-case hex digit pairs become
/// bytes; an odd length or a character outside the hex alphabet is an error.
#[verifier::external_body]
fn hex_decode_chars(cs: &Vec<char>) -> (r: Option<Vec<u8>>)
    ensures
        r.deep_view() == sp_hex_decode(cs@),
{
    let joined: String = cs.iter().collect();
    hex::decode(&joined).ok()
}

/// Ghost twin of [`bytestring`].
#[verifier::opaque]
pub open spec fn sp_bytestring(s: Seq<char>, i: int) -> SpecStep<Seq<u8>> {
    let len = s.len() as int;
    if 0 <= i < len && s[i] == '\'' {
        let e = sp_run(s, i + 1, Cls::BChar);
        if e < len && s[e] == '\'' {
            SpecStep::Found(e + 1, sp_utf8_bytes(s.subrange(i + 1, e)))
        } else {
            SpecStep::Miss
        }
    } else if i + 1 < len && s[i] == 'h' && s[i + 1] == '\'' {
        let e = sp_run(s, i + 2, Cls::NotQuote);
        if e < len && s[e] == '\'' {
            let cleaned = sp_strip_ws(s.subrange(i + 2, e));
            match sp_hex_decode(cleaned) {
                Option::Some(bs) => SpecStep::Found(e + 1, bs),
                Option::None => SpecStep::Abort(
                    SpecParseError { kind: ErrorKind::MalformedHex, ctx: cleaned },
                ),
            }
        } else {
            SpecStep::Miss
        }
    } else if i + 3 < len && s[i] == 'b' && s[i + 1] == '6' && s[i + 2] == '4' && s[i + 3]
        == '\'' {
        let e = sp_run(s, i + 4, Cls::B64);
        if e < len && s[e] == '\'' {
            SpecStep::Found(e + 1, sp_ascii_bytes(s.subrange(i + 4, e)))
        } else {
            SpecStep::Miss
        }
    } else {
        SpecStep::Miss
    }
}

/// Reads a byte-string literal: `'...'` whose payload's UTF-8 bytes are
/// taken as the bytes, `h'...'` with hex digits (whitespace ignored, bad digits or an odd
/// count a `MalformedHex` error), or `b64'...'` kept undecoded.
pub fn bytestring(s: &Vec<char>, i: usize) -> (r: Step<Vec<u8>>)
    requires
        i <= s.len(),
    ensures
        r.deep_view() == sp_bytestring(s@, i as int),
        sfound_in(r.deep_view(), i + 1, s@.len() as int),
{
    proof {
        reveal_with_fuel(sp_bytestring, 1);
    }
    if i < s.len() && s[i] == '\'' {
        let e = run_cls(s, i + 1, Cls::BChar);
        if e < s.len() && s[e] == '\'' {
            let b = utf8_bytes(s, i + 1, e);
            proof {
                assert(b.deep_view() =~= b@);
            }
            Step::Found(e + 1, b)
        } else {
            Step::Miss
        }
    } else if i < s.len() && s[i] == 'h' && i + 1 < s.len() && s[i + 1] == '\'' {
        let e = run_cls(s, i + 2, Cls::NotQuote);
        if e < s.len() && s[e] == '\'' {
            let cleaned = strip_ws_chars(s, i + 2, e);
            match hex_decode_chars(&cleaned) {
                Option::Some(bs) => {
                    proof {
                        assert(bs.deep_view() =~= bs@);
                    }
                    Step::Found(e + 1, bs)
                },
                Option::None => Step::Abort(
                    ParseError { kind: ErrorKind::MalformedHex, ctx: chars_to_string(&cleaned) },
                ),
            }
        } else {
            Step::Miss
        }
    } else if i < s.len() && s[i] == 'b' && i + 1 < s.len() && s[i + 1] == '6' && i + 2 < s.len()
        && s[i + 2] == '4' && i + 3 < s.len() && s[i + 3] == '\'' {
        let e = run_cls(s, i + 4, Cls::B64);
        if e < s.len() && s[e] == '\'' {
            let b = chars_to_bytes(s, i + 4, e);
            proof {
                assert(b.deep_view() =~= b@);
            }
            Step::Found(e + 1, b)
        } else {
            Step::Miss
        }
    } else {
        Step::Miss
    }
}

// ---------------------------------------------------------------------------
// Values
// ---------------------------------------------------------------------------

/// Ghost twin of [`value`]: a number, text, or byte-string literal.
#[verifier::opaque]
pub open spec fn sp_value(s: Seq<char>, i: int) -> SpecStep<SpecValue> {
    match sp_float_or_int(s, i) {
        SpecStep::Found(j, v) => SpecStep::Found(j, v),
        SpecStep::Abort(e) => SpecStep::Abort(e),
        SpecStep::Miss => match sp_text_literal(s, i) {
            SpecStep::Found(j, t) => SpecStep::Found(j, SpecValue::Text(t)),
            SpecStep::Abort(e) => SpecStep::Abort(e),
            SpecStep::Miss => match sp_bytestring(s, i) {
                SpecStep::Found(j, b) => SpecStep::Found(j, SpecValue::Bytes(b)),
                SpecStep::Abort(e) => SpecStep::Abort(e),
                SpecStep::Miss => SpecStep::Miss,
            },
        },
    }
}

/// Reads a literal value: a number, a text literal, or a byte string.
pub fn value(s: &Vec<char>, i: usize) -> (r: Step<super::ast::Value>)
    requires
        i <= s.len(),
    ensures
        r.deep_view() == sp_value(s@, i as int),
        sfound_in(r.deep_view(), i + 1, s@.len() as int),
{
    proof {
        reveal_with_fuel(sp_value, 1);
    }
    match float_or_int(s, i) {
        Step::Found(j, v) => Step::Found(j, v),
        Step::Abort(e) => Step::Abort(e),
        Step::Miss => match text_literal(s, i) {
            Step::Found(j, t) => Step::Found(j, super::ast::Value::Text(t)),
            Step::Abort(e) => Step::Abort(e),
            Step::Miss => match bytestring(s, i) {
                Step::Found(j, b) => {
                    proof {
                        assert(b.deep_view() =~= b@);
                    }
                    Step::Found(j, super::ast::Value::Bytes(b))
                },
                Step::Abort(e) => Step::Abort(e),
                Step::Miss => Step::Miss,
            },
        },
    }
}

/// Compares two string slices character by character.
pub fn str_eq(a: &str, b: &str) -> (r: bool)
    ensures
        r == (a@ == b@),
{
    let na = a.unicode_len();
    let nb = b.unicode_len();
    if na != nb {
        return false;
    }
    let mut i: usize = 0;
    while i < na
        invariant
            i <= na,
            na == a@.len(),
            na == b@.len(),
            forall|k: int| 0 <= k < i as int ==> a@[k] == b@[k],
        decreases na - i,
    {
        if a.get_char(i) != b.get_char(i) {
            return false;
        }
        i = i + 1;
    }
    proof {
        assert(a@ =~= b@);
    }
    true
}

} // verus!
