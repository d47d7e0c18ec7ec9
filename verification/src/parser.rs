//! The grammar engine: a lexer and a recursive-descent parser for
//! the accepted C subset, with flavor-gated extensions.
//!
//! Every executable function mirrors a specification function over
//! the same data, so the whole parse is a stated mathematical
//! function of the source bytes and the flavor.  Failures carry the
//! byte offset reached and a bit set of expected tokens; alternation
//! keeps the failure that reached furthest and unions expected sets
//! that tie.

use vstd::prelude::*;
use crate::ast::{
    BinaryOp, BlockItem, Declaration, Declarator, ExternalDecl, Expr, InitDeclarator, List,
    ParamDecl, ParamSuffix, Span, Stmt, TranslationUnit, TypeName, TypeSpecifier, UnaryOp,
};
use crate::driver::Flavor;
use crate::env::{Entry, Env, SymbolKind, sp_declare, sp_env_init, sp_lookup, sp_pop, sp_push};

verus! {

/// The kind of one token.
#[derive(Clone, Copy, PartialEq, Eq, Structural, Debug)]
pub enum TokKind {
    Ident,
    IntConst,
    StrLit,
    CharConst,
    KwTypedef,
    KwVoid,
    KwChar,
    KwShort,
    KwInt,
    KwLong,
    KwSigned,
    KwUnsigned,
    KwBool,
    KwConst,
    KwEnum,
    KwReturn,
    KwIf,
    KwElse,
    KwTypeof,
    KwExtension,
    KwNullable,
    KwNonnull,
    LParen,
    RParen,
    LBrace,
    RBrace,
    LBrack,
    RBrack,
    Semi,
    Comma,
    Star,
    Plus,
    Minus,
    Slash,
    Amp,
    Bang,
    Assign,
    EqEq,
    BangEq,
    Lt,
    Gt,
    Le,
    Ge,
    Question,
    Colon,
}

/// One token: its kind and its byte span in the source text.
#[derive(Clone, Copy, PartialEq, Eq, Structural, Debug)]
pub struct Tok {
    pub kind: TokKind,
    pub start: usize,
    pub end: usize,
}

/// A parse failure: the furthest byte offset reached and the set of
/// expected tokens there, as a bit set indexed by `sp_desc`.
#[derive(Clone, Copy, PartialEq, Eq, Structural, Debug)]
pub struct PErr {
    pub off: usize,
    pub mask: u64,
}

/// Bit index of a token kind in an expected set.  The indices follow
/// the lexicographic order of the token descriptions, so rendering a
/// set in index order lists it sorted.
pub open spec fn kind_idx(k: TokKind) -> u64 {
    match k {
        TokKind::Bang => 0,
        TokKind::BangEq => 1,
        TokKind::Amp => 2,
        TokKind::LParen => 3,
        TokKind::RParen => 4,
        TokKind::Star => 5,
        TokKind::Plus => 6,
        TokKind::Comma => 7,
        TokKind::Minus => 8,
        TokKind::Slash => 9,
        TokKind::Colon => 10,
        TokKind::Semi => 11,
        TokKind::Lt => 12,
        TokKind::Le => 13,
        TokKind::Assign => 14,
        TokKind::EqEq => 15,
        TokKind::Gt => 16,
        TokKind::Ge => 17,
        TokKind::Question => 18,
        TokKind::LBrack => 19,
        TokKind::RBrack => 20,
        TokKind::KwBool => 21,
        TokKind::KwNonnull => 22,
        TokKind::KwNullable => 23,
        TokKind::KwExtension => 24,
        TokKind::KwChar => 25,
        TokKind::CharConst => 26,
        TokKind::KwConst => 28,
        TokKind::IntConst => 29,
        TokKind::KwElse => 30,
        TokKind::KwEnum => 31,
        TokKind::Ident => 32,
        TokKind::KwIf => 33,
        TokKind::KwInt => 34,
        TokKind::KwLong => 35,
        TokKind::KwReturn => 36,
        TokKind::KwShort => 37,
        TokKind::KwSigned => 38,
        TokKind::StrLit => 39,
        TokKind::KwTypedef => 42,
        TokKind::KwTypeof => 43,
        TokKind::KwUnsigned => 44,
        TokKind::KwVoid => 45,
        TokKind::LBrace => 46,
        TokKind::RBrace => 47,
    }
}

/// Bit index for a missing character-constant terminator.
pub const IDX_CHAR_TERM: u64 = 27;

/// Bit index for a missing string-literal terminator.
pub const IDX_STR_TERM: u64 = 40;

/// Bit index for "any token": used when no token can be read.
pub const IDX_TOKEN: u64 = 41;

/// The expected-set bit of one token kind.
pub open spec fn kind_mask(k: TokKind) -> u64 {
    1u64 << kind_idx(k)
}

fn kind_idx_x(k: TokKind) -> (r: u64)
    ensures
        r == kind_idx(k),
{
    match k {
        TokKind::Bang => 0,
        TokKind::BangEq => 1,
        TokKind::Amp => 2,
        TokKind::LParen => 3,
        TokKind::RParen => 4,
        TokKind::Star => 5,
        TokKind::Plus => 6,
        TokKind::Comma => 7,
        TokKind::Minus => 8,
        TokKind::Slash => 9,
        TokKind::Colon => 10,
        TokKind::Semi => 11,
        TokKind::Lt => 12,
        TokKind::Le => 13,
        TokKind::Assign => 14,
        TokKind::EqEq => 15,
        TokKind::Gt => 16,
        TokKind::Ge => 17,
        TokKind::Question => 18,
        TokKind::LBrack => 19,
        TokKind::RBrack => 20,
        TokKind::KwBool => 21,
        TokKind::KwNonnull => 22,
        TokKind::KwNullable => 23,
        TokKind::KwExtension => 24,
        TokKind::KwChar => 25,
        TokKind::CharConst => 26,
        TokKind::KwConst => 28,
        TokKind::IntConst => 29,
        TokKind::KwElse => 30,
        TokKind::KwEnum => 31,
        TokKind::Ident => 32,
        TokKind::KwIf => 33,
        TokKind::KwInt => 34,
        TokKind::KwLong => 35,
        TokKind::KwReturn => 36,
        TokKind::KwShort => 37,
        TokKind::KwSigned => 38,
        TokKind::StrLit => 39,
        TokKind::KwTypedef => 42,
        TokKind::KwTypeof => 43,
        TokKind::KwUnsigned => 44,
        TokKind::KwVoid => 45,
        TokKind::LBrace => 46,
        TokKind::RBrace => 47,
    }
}

fn kind_mask_x(k: TokKind) -> (r: u64)
    ensures
        r == kind_mask(k),
{
    1u64 << kind_idx_x(k)
}

/// Whitespace bytes.
pub open spec fn sp_is_ws(b: u8) -> bool {
    b == 32 || b == 9 || b == 10 || b == 13 || b == 11 || b == 12
}

/// Letters and underscore.
pub open spec fn sp_is_alpha(b: u8) -> bool {
    ('a' as u8) <= b && b <= ('z' as u8) || ('A' as u8) <= b && b <= ('Z' as u8) || b == ('_' as u8)
}

/// Decimal digits.
pub open spec fn sp_is_digit(b: u8) -> bool {
    ('0' as u8) <= b && b <= ('9' as u8)
}

/// Bytes that may continue an identifier or number.
pub open spec fn sp_is_word(b: u8) -> bool {
    sp_is_alpha(b) || sp_is_digit(b)
}

/// Position after skipping whitespace and line-marker directives.
/// A `#` outside a token starts a directive that runs to the end of
/// its line; `in_dir` says whether the scan stands inside one.
pub open spec fn sp_skip(bytes: Seq<u8>, pos: int, in_dir: bool) -> int
    decreases bytes.len() - pos,
{
    if pos < 0 || pos >= bytes.len() {
        if pos < 0 { 0 } else { bytes.len() as int }
    } else if in_dir {
        sp_skip(bytes, pos + 1, bytes[pos] != 10)
    } else if sp_is_ws(bytes[pos]) {
        sp_skip(bytes, pos + 1, false)
    } else if bytes[pos] == ('#' as u8) {
        sp_skip(bytes, pos + 1, true)
    } else {
        pos
    }
}

/// First position at or after `pos` whose byte cannot continue a
/// word.
pub open spec fn sp_word_end(bytes: Seq<u8>, pos: int) -> int
    decreases bytes.len() - pos,
{
    if pos < 0 || pos >= bytes.len() {
        if pos < 0 { 0 } else { bytes.len() as int }
    } else if sp_is_word(bytes[pos]) {
        sp_word_end(bytes, pos + 1)
    } else {
        pos
    }
}

/// Position just after the terminator of a string or character
/// literal whose body starts at `pos`, or `None` when the literal is
/// unterminated before a newline or the end of the text.  A backslash
/// escapes the following byte.
pub open spec fn sp_lit_end(bytes: Seq<u8>, pos: int, quote: u8) -> Option<int>
    decreases bytes.len() - pos,
{
    if pos < 0 || pos >= bytes.len() {
        None
    } else if bytes[pos] == quote {
        Some(pos + 1)
    } else if bytes[pos] == 10 {
        None
    } else if bytes[pos] == ('\\' as u8) && pos + 1 < bytes.len() {
        sp_lit_end(bytes, pos + 2, quote)
    } else {
        sp_lit_end(bytes, pos + 1, quote)
    }
}

/// Does the word spanning `s..e` spell the word given by the bytes
/// of `w`?
pub open spec fn word_is(bytes: Seq<u8>, s: int, e: int, w: Seq<u8>) -> bool {
    e - s == w.len() && forall|j: int| 0 <= j < w.len() ==> bytes[s + j] == w[j]
}

/// The spelling of each keyword, by its token kind; other kinds
/// have no spelling here.
pub open spec fn kw_spelling(k: TokKind) -> Seq<u8> {
    match k {
        TokKind::KwTypedef => seq!['t' as u8, 'y' as u8, 'p' as u8, 'e' as u8, 'd' as u8, 'e' as u8, 'f' as u8],
        TokKind::KwVoid => seq!['v' as u8, 'o' as u8, 'i' as u8, 'd' as u8],
        TokKind::KwChar => seq!['c' as u8, 'h' as u8, 'a' as u8, 'r' as u8],
        TokKind::KwShort => seq!['s' as u8, 'h' as u8, 'o' as u8, 'r' as u8, 't' as u8],
        TokKind::KwInt => seq!['i' as u8, 'n' as u8, 't' as u8],
        TokKind::KwLong => seq!['l' as u8, 'o' as u8, 'n' as u8, 'g' as u8],
        TokKind::KwSigned => seq!['s' as u8, 'i' as u8, 'g' as u8, 'n' as u8, 'e' as u8, 'd' as u8],
        TokKind::KwUnsigned => seq!['u' as u8, 'n' as u8, 's' as u8, 'i' as u8, 'g' as u8, 'n' as u8, 'e' as u8, 'd' as u8],
        TokKind::KwBool => seq!['_' as u8, 'B' as u8, 'o' as u8, 'o' as u8, 'l' as u8],
        TokKind::KwConst => seq!['c' as u8, 'o' as u8, 'n' as u8, 's' as u8, 't' as u8],
        TokKind::KwEnum => seq!['e' as u8, 'n' as u8, 'u' as u8, 'm' as u8],
        TokKind::KwReturn => seq!['r' as u8, 'e' as u8, 't' as u8, 'u' as u8, 'r' as u8, 'n' as u8],
        TokKind::KwIf => seq!['i' as u8, 'f' as u8],
        TokKind::KwElse => seq!['e' as u8, 'l' as u8, 's' as u8, 'e' as u8],
        TokKind::KwTypeof => seq!['t' as u8, 'y' as u8, 'p' as u8, 'e' as u8, 'o' as u8, 'f' as u8],
        TokKind::KwExtension => seq![
            '_' as u8, '_' as u8, 'e' as u8, 'x' as u8, 't' as u8, 'e' as u8, 'n' as u8, 's' as u8,
            'i' as u8, 'o' as u8, 'n' as u8, '_' as u8, '_' as u8,
        ],
        TokKind::KwNullable => seq![
            '_' as u8, 'N' as u8, 'u' as u8, 'l' as u8, 'l' as u8, 'a' as u8, 'b' as u8, 'l' as u8,
            'e' as u8,
        ],
        TokKind::KwNonnull => seq![
            '_' as u8, 'N' as u8, 'o' as u8, 'n' as u8, 'n' as u8, 'u' as u8, 'l' as u8, 'l' as u8,
        ],
        _ => Seq::empty(),
    }
}

/// The alternative spelling `__typeof__` of the `typeof` keyword.
pub open spec fn typeof_alt_spelling() -> Seq<u8> {
    seq![
        '_' as u8, '_' as u8, 't' as u8, 'y' as u8, 'p' as u8, 'e' as u8, 'o' as u8, 'f' as u8,
        '_' as u8, '_' as u8,
    ]
}

/// Classify the word spanning `s..e`: a keyword kind, or `Ident`.
/// Extension keywords are reserved words under every flavor, so
/// classification does not depend on the flavor.
pub open spec fn sp_word_kind(bytes: Seq<u8>, s: int, e: int) -> TokKind {
    if word_is(bytes, s, e, kw_spelling(TokKind::KwTypedef)) { TokKind::KwTypedef }
    else if word_is(bytes, s, e, kw_spelling(TokKind::KwVoid)) { TokKind::KwVoid }
    else if word_is(bytes, s, e, kw_spelling(TokKind::KwChar)) { TokKind::KwChar }
    else if word_is(bytes, s, e, kw_spelling(TokKind::KwShort)) { TokKind::KwShort }
    else if word_is(bytes, s, e, kw_spelling(TokKind::KwInt)) { TokKind::KwInt }
    else if word_is(bytes, s, e, kw_spelling(TokKind::KwLong)) { TokKind::KwLong }
    else if word_is(bytes, s, e, kw_spelling(TokKind::KwSigned)) { TokKind::KwSigned }
    else if word_is(bytes, s, e, kw_spelling(TokKind::KwUnsigned)) { TokKind::KwUnsigned }
    else if word_is(bytes, s, e, kw_spelling(TokKind::KwBool)) { TokKind::KwBool }
    else if word_is(bytes, s, e, kw_spelling(TokKind::KwConst)) { TokKind::KwConst }
    else if word_is(bytes, s, e, kw_spelling(TokKind::KwEnum)) { TokKind::KwEnum }
    else if word_is(bytes, s, e, kw_spelling(TokKind::KwReturn)) { TokKind::KwReturn }
    else if word_is(bytes, s, e, kw_spelling(TokKind::KwIf)) { TokKind::KwIf }
    else if word_is(bytes, s, e, kw_spelling(TokKind::KwElse)) { TokKind::KwElse }
    else if word_is(bytes, s, e, kw_spelling(TokKind::KwTypeof)) { TokKind::KwTypeof }
    else if word_is(bytes, s, e, typeof_alt_spelling()) { TokKind::KwTypeof }
    else if word_is(bytes, s, e, kw_spelling(TokKind::KwExtension)) { TokKind::KwExtension }
    else if word_is(bytes, s, e, kw_spelling(TokKind::KwNullable)) { TokKind::KwNullable }
    else if word_is(bytes, s, e, kw_spelling(TokKind::KwNonnull)) { TokKind::KwNonnull }
    else { TokKind::Ident }
}

/// Compare the word spanning `s..e` with a keyword spelling given
/// as a second span `ws..we` of a keyword table.
fn word_is_x(src: &Vec<u8>, s: usize, e: usize, w: &Vec<u8>) -> (r: bool)
    requires
        s <= e <= src@.len(),
    ensures
        r == word_is(src@, s as int, e as int, w@),
{
    if e - s != w.len() {
        return false;
    }
    let n = w.len();
    let mut j: usize = 0;
    while j < n
        invariant
            s <= e <= src@.len(),
            n == w@.len(),
            e - s == n,
            j <= n,
            forall|i: int| 0 <= i < j ==> src@[s + i] == w@[i],
        decreases n - j,
    {
        if src[s + j] != w[j] {
            return false;
        }
        j += 1;
    }
    true
}

/// The executable keyword table: the spelling of a keyword kind.
fn kw_spelling_x(k: TokKind) -> (r: Vec<u8>)
    ensures
        r@ == kw_spelling(k),
{
    let mut v: Vec<u8> = Vec::new();
    match k {
        TokKind::KwTypedef => {
            v.push('t' as u8); v.push('y' as u8); v.push('p' as u8); v.push('e' as u8);
            v.push('d' as u8); v.push('e' as u8); v.push('f' as u8);
        },
        TokKind::KwVoid => {
            v.push('v' as u8); v.push('o' as u8); v.push('i' as u8); v.push('d' as u8);
        },
        TokKind::KwChar => {
            v.push('c' as u8); v.push('h' as u8); v.push('a' as u8); v.push('r' as u8);
        },
        TokKind::KwShort => {
            v.push('s' as u8); v.push('h' as u8); v.push('o' as u8); v.push('r' as u8);
            v.push('t' as u8);
        },
        TokKind::KwInt => {
            v.push('i' as u8); v.push('n' as u8); v.push('t' as u8);
        },
        TokKind::KwLong => {
            v.push('l' as u8); v.push('o' as u8); v.push('n' as u8); v.push('g' as u8);
        },
        TokKind::KwSigned => {
            v.push('s' as u8); v.push('i' as u8); v.push('g' as u8); v.push('n' as u8);
            v.push('e' as u8); v.push('d' as u8);
        },
        TokKind::KwUnsigned => {
            v.push('u' as u8); v.push('n' as u8); v.push('s' as u8); v.push('i' as u8);
            v.push('g' as u8); v.push('n' as u8); v.push('e' as u8); v.push('d' as u8);
        },
        TokKind::KwBool => {
            v.push('_' as u8); v.push('B' as u8); v.push('o' as u8); v.push('o' as u8);
            v.push('l' as u8);
        },
        TokKind::KwConst => {
            v.push('c' as u8); v.push('o' as u8); v.push('n' as u8); v.push('s' as u8);
            v.push('t' as u8);
        },
        TokKind::KwEnum => {
            v.push('e' as u8); v.push('n' as u8); v.push('u' as u8); v.push('m' as u8);
        },
        TokKind::KwReturn => {
            v.push('r' as u8); v.push('e' as u8); v.push('t' as u8); v.push('u' as u8);
            v.push('r' as u8); v.push('n' as u8);
        },
        TokKind::KwIf => {
            v.push('i' as u8); v.push('f' as u8);
        },
        TokKind::KwElse => {
            v.push('e' as u8); v.push('l' as u8); v.push('s' as u8); v.push('e' as u8);
        },
        TokKind::KwTypeof => {
            v.push('t' as u8); v.push('y' as u8); v.push('p' as u8); v.push('e' as u8);
            v.push('o' as u8); v.push('f' as u8);
        },
        TokKind::KwExtension => {
            v.push('_' as u8); v.push('_' as u8); v.push('e' as u8); v.push('x' as u8);
            v.push('t' as u8); v.push('e' as u8); v.push('n' as u8); v.push('s' as u8);
            v.push('i' as u8); v.push('o' as u8); v.push('n' as u8); v.push('_' as u8);
            v.push('_' as u8);
        },
        TokKind::KwNullable => {
            v.push('_' as u8); v.push('N' as u8); v.push('u' as u8); v.push('l' as u8);
            v.push('l' as u8); v.push('a' as u8); v.push('b' as u8); v.push('l' as u8);
            v.push('e' as u8);
        },
        TokKind::KwNonnull => {
            v.push('_' as u8); v.push('N' as u8); v.push('o' as u8); v.push('n' as u8);
            v.push('n' as u8); v.push('u' as u8); v.push('l' as u8); v.push('l' as u8);
        },
        _ => {},
    }
    proof {
        assert(v@ =~= kw_spelling(k));
    }
    v
}

fn typeof_alt_x() -> (r: Vec<u8>)
    ensures
        r@ == typeof_alt_spelling(),
{
    let mut v: Vec<u8> = Vec::new();
    v.push('_' as u8); v.push('_' as u8); v.push('t' as u8); v.push('y' as u8);
    v.push('p' as u8); v.push('e' as u8); v.push('o' as u8); v.push('f' as u8);
    v.push('_' as u8); v.push('_' as u8);
    proof {
        assert(v@ =~= typeof_alt_spelling());
    }
    v
}

fn check_kw(src: &Vec<u8>, s: usize, e: usize, k: TokKind) -> (r: bool)
    requires
        s <= e <= src@.len(),
    ensures
        r == word_is(src@, s as int, e as int, kw_spelling(k)),
{
    let w = kw_spelling_x(k);
    word_is_x(src, s, e, &w)
}

/// Classify the word spanning `s..e`.
fn word_kind_x(src: &Vec<u8>, s: usize, e: usize) -> (r: TokKind)
    requires
        s <= e <= src@.len(),
    ensures
        r == sp_word_kind(src@, s as int, e as int),
{
    if check_kw(src, s, e, TokKind::KwTypedef) { TokKind::KwTypedef }
    else if check_kw(src, s, e, TokKind::KwVoid) { TokKind::KwVoid }
    else if check_kw(src, s, e, TokKind::KwChar) { TokKind::KwChar }
    else if check_kw(src, s, e, TokKind::KwShort) { TokKind::KwShort }
    else if check_kw(src, s, e, TokKind::KwInt) { TokKind::KwInt }
    else if check_kw(src, s, e, TokKind::KwLong) { TokKind::KwLong }
    else if check_kw(src, s, e, TokKind::KwSigned) { TokKind::KwSigned }
    else if check_kw(src, s, e, TokKind::KwUnsigned) { TokKind::KwUnsigned }
    else if check_kw(src, s, e, TokKind::KwBool) { TokKind::KwBool }
    else if check_kw(src, s, e, TokKind::KwConst) { TokKind::KwConst }
    else if check_kw(src, s, e, TokKind::KwEnum) { TokKind::KwEnum }
    else if check_kw(src, s, e, TokKind::KwReturn) { TokKind::KwReturn }
    else if check_kw(src, s, e, TokKind::KwIf) { TokKind::KwIf }
    else if check_kw(src, s, e, TokKind::KwElse) { TokKind::KwElse }
    else if check_kw(src, s, e, TokKind::KwTypeof) { TokKind::KwTypeof }
    else {
        let alt = typeof_alt_x();
        if word_is_x(src, s, e, &alt) { TokKind::KwTypeof }
        else if check_kw(src, s, e, TokKind::KwExtension) { TokKind::KwExtension }
        else if check_kw(src, s, e, TokKind::KwNullable) { TokKind::KwNullable }
        else if check_kw(src, s, e, TokKind::KwNonnull) { TokKind::KwNonnull }
        else { TokKind::Ident }
    }
}

fn is_ws_x(b: u8) -> (r: bool)
    ensures
        r == sp_is_ws(b),
{
    b == 32 || b == 9 || b == 10 || b == 13 || b == 11 || b == 12
}

fn is_alpha_x(b: u8) -> (r: bool)
    ensures
        r == sp_is_alpha(b),
{
    ('a' as u8) <= b && b <= ('z' as u8) || ('A' as u8) <= b && b <= ('Z' as u8) || b == ('_' as u8)
}

fn is_digit_x(b: u8) -> (r: bool)
    ensures
        r == sp_is_digit(b),
{
    ('0' as u8) <= b && b <= ('9' as u8)
}

fn skip_ws(src: &Vec<u8>, pos: usize, in_dir: bool) -> (r: usize)
    requires
        pos <= src@.len(),
    ensures
        r as int == sp_skip(src@, pos as int, in_dir),
        pos <= r <= src@.len(),
    decreases src@.len() - pos,
{
    if pos >= src.len() {
        pos
    } else if in_dir {
        let b = src[pos];
        skip_ws(src, pos + 1, b != 10)
    } else {
        let b = src[pos];
        if is_ws_x(b) {
            skip_ws(src, pos + 1, false)
        } else if b == ('#' as u8) {
            skip_ws(src, pos + 1, true)
        } else {
            pos
        }
    }
}

fn word_end(src: &Vec<u8>, pos: usize) -> (r: usize)
    requires
        pos <= src@.len(),
    ensures
        r as int == sp_word_end(src@, pos as int),
        pos <= r <= src@.len(),
    decreases src@.len() - pos,
{
    if pos >= src.len() {
        pos
    } else {
        let b = src[pos];
        if is_alpha_x(b) || is_digit_x(b) {
            word_end(src, pos + 1)
        } else {
            pos
        }
    }
}

fn lit_end(src: &Vec<u8>, pos: usize, quote: u8) -> (r: Option<usize>)
    requires
        pos <= src@.len(),
    ensures
        match r {
            Some(e) => sp_lit_end(src@, pos as int, quote) == Some(e as int) && pos < e <= src@.len(),
            None => sp_lit_end(src@, pos as int, quote) is None,
        },
    decreases src@.len() - pos,
{
    if pos >= src.len() {
        None
    } else {
        let b = src[pos];
        if b == quote {
            Some(pos + 1)
        } else if b == 10 {
            None
        } else if b == ('\\' as u8) && pos + 1 < src.len() {
            lit_end(src, pos + 2, quote)
        } else {
            lit_end(src, pos + 1, quote)
        }
    }
}

/// One step of the lexer: a token and the position after it, or a
/// failure.
pub enum LexStep {
    Tok(Tok, int),
    Fail(int, u64),
}

/// Read the token starting at `pos`, which must stand on a byte that
/// is neither whitespace nor part of a line marker.
pub open spec fn sp_token(bytes: Seq<u8>, pos: int) -> LexStep {
    let b = bytes[pos];
    if sp_is_alpha(b) {
        let e = sp_word_end(bytes, pos);
        LexStep::Tok(
            Tok { kind: sp_word_kind(bytes, pos, e), start: pos as usize, end: e as usize },
            e,
        )
    } else if sp_is_digit(b) {
        let e = sp_word_end(bytes, pos);
        LexStep::Tok(Tok { kind: TokKind::IntConst, start: pos as usize, end: e as usize }, e)
    } else if b == ('"' as u8) {
        match sp_lit_end(bytes, pos + 1, '"' as u8) {
            Some(e) => LexStep::Tok(
                Tok { kind: TokKind::StrLit, start: pos as usize, end: e as usize },
                e,
            ),
            None => LexStep::Fail(pos, 1u64 << IDX_STR_TERM),
        }
    } else if b == ('\'' as u8) {
        match sp_lit_end(bytes, pos + 1, '\'' as u8) {
            Some(e) => LexStep::Tok(
                Tok { kind: TokKind::CharConst, start: pos as usize, end: e as usize },
                e,
            ),
            None => LexStep::Fail(pos, 1u64 << IDX_CHAR_TERM),
        }
    } else {
        let two = pos + 1 < bytes.len();
        let b2 = bytes[pos + 1];
        if two && b == ('=' as u8) && b2 == ('=' as u8) {
            LexStep::Tok(Tok { kind: TokKind::EqEq, start: pos as usize, end: (pos + 2) as usize }, pos + 2)
        } else if two && b == ('!' as u8) && b2 == ('=' as u8) {
            LexStep::Tok(Tok { kind: TokKind::BangEq, start: pos as usize, end: (pos + 2) as usize }, pos + 2)
        } else if two && b == ('<' as u8) && b2 == ('=' as u8) {
            LexStep::Tok(Tok { kind: TokKind::Le, start: pos as usize, end: (pos + 2) as usize }, pos + 2)
        } else if two && b == ('>' as u8) && b2 == ('=' as u8) {
            LexStep::Tok(Tok { kind: TokKind::Ge, start: pos as usize, end: (pos + 2) as usize }, pos + 2)
        } else {
            let k = sp_punct_kind(b);
            match k {
                Some(kk) => LexStep::Tok(
                    Tok { kind: kk, start: pos as usize, end: (pos + 1) as usize },
                    pos + 1,
                ),
                None => LexStep::Fail(pos, 1u64 << IDX_TOKEN),
            }
        }
    }
}

/// The kind of a one-byte punctuator, if the byte is one.
pub open spec fn sp_punct_kind(b: u8) -> Option<TokKind> {
    if b == ('(' as u8) { Some(TokKind::LParen) }
    else if b == (')' as u8) { Some(TokKind::RParen) }
    else if b == ('{' as u8) { Some(TokKind::LBrace) }
    else if b == ('}' as u8) { Some(TokKind::RBrace) }
    else if b == ('[' as u8) { Some(TokKind::LBrack) }
    else if b == (']' as u8) { Some(TokKind::RBrack) }
    else if b == (';' as u8) { Some(TokKind::Semi) }
    else if b == (',' as u8) { Some(TokKind::Comma) }
    else if b == ('*' as u8) { Some(TokKind::Star) }
    else if b == ('+' as u8) { Some(TokKind::Plus) }
    else if b == ('-' as u8) { Some(TokKind::Minus) }
    else if b == ('/' as u8) { Some(TokKind::Slash) }
    else if b == ('&' as u8) { Some(TokKind::Amp) }
    else if b == ('!' as u8) { Some(TokKind::Bang) }
    else if b == ('=' as u8) { Some(TokKind::Assign) }
    else if b == ('<' as u8) { Some(TokKind::Lt) }
    else if b == ('>' as u8) { Some(TokKind::Gt) }
    else if b == ('?' as u8) { Some(TokKind::Question) }
    else if b == (':' as u8) { Some(TokKind::Colon) }
    else { None }
}

fn punct_kind_x(b: u8) -> (r: Option<TokKind>)
    ensures
        r == sp_punct_kind(b),
{
    if b == ('(' as u8) { Some(TokKind::LParen) }
    else if b == (')' as u8) { Some(TokKind::RParen) }
    else if b == ('{' as u8) { Some(TokKind::LBrace) }
    else if b == ('}' as u8) { Some(TokKind::RBrace) }
    else if b == ('[' as u8) { Some(TokKind::LBrack) }
    else if b == (']' as u8) { Some(TokKind::RBrack) }
    else if b == (';' as u8) { Some(TokKind::Semi) }
    else if b == (',' as u8) { Some(TokKind::Comma) }
    else if b == ('*' as u8) { Some(TokKind::Star) }
    else if b == ('+' as u8) { Some(TokKind::Plus) }
    else if b == ('-' as u8) { Some(TokKind::Minus) }
    else if b == ('/' as u8) { Some(TokKind::Slash) }
    else if b == ('&' as u8) { Some(TokKind::Amp) }
    else if b == ('!' as u8) { Some(TokKind::Bang) }
    else if b == ('=' as u8) { Some(TokKind::Assign) }
    else if b == ('<' as u8) { Some(TokKind::Lt) }
    else if b == ('>' as u8) { Some(TokKind::Gt) }
    else if b == ('?' as u8) { Some(TokKind::Question) }
    else if b == (':' as u8) { Some(TokKind::Colon) }
    else { None }
}

fn token_x(src: &Vec<u8>, pos: usize) -> (r: Result<(Tok, usize), PErr>)
    requires
        pos < src@.len(),
    ensures
        match r {
            Ok((t, e)) => sp_token(src@, pos as int) == LexStep::Tok(t, e as int) && pos < e
                <= src@.len(),
            Err(er) => sp_token(src@, pos as int) == LexStep::Fail(er.off as int, er.mask),
        },
{
    let n = src.len();
    let b = src[pos];
    if is_alpha_x(b) {
        proof {
            assert(sp_is_word(src@[pos as int]));
        }
        let e = word_end(src, pos + 1);
        let k = word_kind_x(src, pos, e);
        proof {
            assert(sp_word_end(src@, pos as int) == sp_word_end(src@, pos + 1));
        }
        Ok((Tok { kind: k, start: pos, end: e }, e))
    } else if is_digit_x(b) {
        proof {
            assert(sp_is_word(src@[pos as int]));
        }
        let e = word_end(src, pos + 1);
        proof {
            assert(sp_word_end(src@, pos as int) == sp_word_end(src@, pos + 1));
        }
        Ok((Tok { kind: TokKind::IntConst, start: pos, end: e }, e))
    } else if b == ('"' as u8) {
        match lit_end(src, pos + 1, '"' as u8) {
            Some(e) => Ok((Tok { kind: TokKind::StrLit, start: pos, end: e }, e)),
            None => Err(PErr { off: pos, mask: 1u64 << IDX_STR_TERM }),
        }
    } else if b == ('\'' as u8) {
        match lit_end(src, pos + 1, '\'' as u8) {
            Some(e) => Ok((Tok { kind: TokKind::CharConst, start: pos, end: e }, e)),
            None => Err(PErr { off: pos, mask: 1u64 << IDX_CHAR_TERM }),
        }
    } else {
        let two = pos + 1 < src.len();
        let b2 = if two { src[pos + 1] } else { 0 };
        if two && b == ('=' as u8) && b2 == ('=' as u8) {
            Ok((Tok { kind: TokKind::EqEq, start: pos, end: pos + 2 }, pos + 2))
        } else if two && b == ('!' as u8) && b2 == ('=' as u8) {
            Ok((Tok { kind: TokKind::BangEq, start: pos, end: pos + 2 }, pos + 2))
        } else if two && b == ('<' as u8) && b2 == ('=' as u8) {
            Ok((Tok { kind: TokKind::Le, start: pos, end: pos + 2 }, pos + 2))
        } else if two && b == ('>' as u8) && b2 == ('=' as u8) {
            Ok((Tok { kind: TokKind::Ge, start: pos, end: pos + 2 }, pos + 2))
        } else {
            match punct_kind_x(b) {
                Some(kk) => Ok((Tok { kind: kk, start: pos, end: pos + 1 }, pos + 1)),
                None => Err(PErr { off: pos, mask: 1u64 << IDX_TOKEN }),
            }
        }
    }
}

/// The token stream of the text from `pos` on: skip whitespace and
/// line markers, read one token, continue.  The fuel only bounds the
/// recursion; one unit is spent per token, and a token is never
/// empty, so `text length + 1` units never run out.
pub open spec fn sp_lex_from(bytes: Seq<u8>, pos: int, fuel: nat) -> Result<Seq<Tok>, (int, u64)>
    decreases fuel,
{
    if fuel == 0 {
        Err((pos, 0))
    } else {
        let p = sp_skip(bytes, pos, false);
        if p >= bytes.len() {
            Ok(Seq::empty())
        } else {
            match sp_token(bytes, p) {
                LexStep::Fail(off, mask) => Err((off, mask)),
                LexStep::Tok(t, e) => match sp_lex_from(bytes, e, (fuel - 1) as nat) {
                    Ok(rest) => Ok(seq![t] + rest),
                    Err(er) => Err(er),
                },
            }
        }
    }
}

fn lex_from(src: &Vec<u8>, pos: usize, fuel: usize) -> (r: Result<Vec<Tok>, PErr>)
    requires
        pos <= src@.len(),
    ensures
        match r {
            Ok(v) => sp_lex_from(src@, pos as int, fuel as nat) == Ok::<Seq<Tok>, (int, u64)>(v@),
            Err(er) => sp_lex_from(src@, pos as int, fuel as nat) == Err::<Seq<Tok>, (int, u64)>(
                (er.off as int, er.mask),
            ),
        },
    decreases fuel,
{
    if fuel == 0 {
        Err(PErr { off: pos, mask: 0 })
    } else {
        let p = skip_ws(src, pos, false);
        if p >= src.len() {
            let v: Vec<Tok> = Vec::new();
            proof {
                assert(v@ =~= Seq::<Tok>::empty());
            }
            Ok(v)
        } else {
            match token_x(src, p) {
                Err(er) => Err(er),
                Ok((t, e)) => match lex_from(src, e, fuel - 1) {
                    Ok(mut rest) => {
                        let ghost old_rest = rest@;
                        rest.insert(0, t);
                        proof {
                            assert(rest@ =~= seq![t] + old_rest);
                        }
                        Ok(rest)
                    },
                    Err(er) => Err(er),
                },
            }
        }
    }
}

/// The lexer's fuel for a text of `n` bytes: one unit per token and
/// one to finish, capped at what a machine word holds.
pub open spec fn sp_lex_fuel(n: nat) -> nat {
    if n < usize::MAX as nat { n + 1 } else { n }
}

/// Tokenize a whole text.
pub open spec fn sp_lex(bytes: Seq<u8>) -> Result<Seq<Tok>, (int, u64)> {
    sp_lex_from(bytes, 0, sp_lex_fuel(bytes.len()))
}

/// Tokenize a whole text.
pub fn lex(src: &Vec<u8>) -> (r: Result<Vec<Tok>, PErr>)
    ensures
        match r {
            Ok(v) => sp_lex(src@) == Ok::<Seq<Tok>, (int, u64)>(v@),
            Err(er) => sp_lex(src@) == Err::<Seq<Tok>, (int, u64)>((er.off as int, er.mask)),
        },
{
    let n = src.len();
    if n < usize::MAX {
        lex_from(src, 0, n + 1)
    } else {
        lex_from(src, 0, n)
    }
}

// ---------------------------------------------------------------------------
// Grammar engine
// ---------------------------------------------------------------------------

/// The outcome of one grammar rule: a value, the next token index and
/// the environment after the rule; or the furthest failure with the
/// environment as the rule left it (declarations are never undone).
pub enum PRes<T> {
    Done(T, int, Env),
    Fail(int, u64, Env),
}

/// Which extension keywords a flavor activates.
pub open spec fn sp_ext_active(f: Flavor, k: TokKind) -> bool {
    match k {
        TokKind::KwTypeof | TokKind::KwExtension => f == Flavor::GnuC11 || f == Flavor::ClangC11,
        TokKind::KwNullable | TokKind::KwNonnull => f == Flavor::ClangC11,
        _ => false,
    }
}

impl Env {
    /// Is this token kind an extension keyword of the active flavor?
    pub fn extension_active(&self, k: TokKind) -> (r: bool)
        ensures
            r == sp_ext_active(self.flavor, k),
    {
        match k {
            TokKind::KwTypeof | TokKind::KwExtension => self.flavor == Flavor::GnuC11
                || self.flavor == Flavor::ClangC11,
            TokKind::KwNullable | TokKind::KwNonnull => self.flavor == Flavor::ClangC11,
            _ => false,
        }
    }

    /// Does the word spanning `start..end` spell an extension keyword
    /// active under this environment's flavor?
    pub fn is_extension_keyword(&self, src: &Vec<u8>, start: usize, end: usize) -> (r: bool)
        requires
            start <= end <= src@.len(),
        ensures
            r == sp_ext_active(self.flavor, sp_word_kind(src@, start as int, end as int)),
    {
        let k = word_kind_x(src, start, end);
        self.extension_active(k)
    }
}

/// The byte offset of the token at index `i`, or the text length when
/// the index stands past the last token.
pub open spec fn sp_tok_off(toks: Seq<Tok>, i: int, n: int) -> int {
    if 0 <= i < toks.len() {
        toks[i].start as int
    } else {
        n
    }
}

fn tok_off_x(src: &Vec<u8>, toks: &Vec<Tok>, i: usize) -> (r: usize)
    ensures
        r as int == sp_tok_off(toks@, i as int, src@.len() as int),
{
    if i < toks.len() {
        toks[i].start
    } else {
        src.len()
    }
}

/// The byte offset just after the token before index `j`; zero when
/// there is none.
pub open spec fn sp_prev_end(toks: Seq<Tok>, j: int) -> usize {
    if 0 < j <= toks.len() {
        toks[j - 1].end
    } else {
        0
    }
}

fn prev_end_x(toks: &Vec<Tok>, j: usize) -> (r: usize)
    ensures
        r == sp_prev_end(toks@, j as int),
{
    if 0 < j && j <= toks.len() {
        toks[j - 1].end
    } else {
        0
    }
}

/// Keep the failure that reached further; union expected sets that
/// tie.
pub open spec fn sp_merge(o1: int, m1: u64, o2: int, m2: u64) -> (int, u64) {
    if o1 > o2 {
        (o1, m1)
    } else if o2 > o1 {
        (o2, m2)
    } else {
        (o1, m1 | m2)
    }
}

fn merge_x(e1: PErr, e2: PErr) -> (r: PErr)
    ensures
        (r.off as int, r.mask) == sp_merge(e1.off as int, e1.mask, e2.off as int, e2.mask),
{
    if e1.off > e2.off {
        e1
    } else if e2.off > e1.off {
        e2
    } else {
        PErr { off: e1.off, mask: e1.mask | e2.mask }
    }
}

/// Consume one token of the given kind, or fail expecting it.
pub open spec fn sp_expect(toks: Seq<Tok>, i: int, k: TokKind, n: int) -> Result<int, (int, u64)> {
    if i < toks.len() && toks[i].kind == k {
        Ok(i + 1)
    } else {
        Err((sp_tok_off(toks, i, n), kind_mask(k)))
    }
}

fn expect_x(src: &Vec<u8>, toks: &Vec<Tok>, i: usize, k: TokKind) -> (r: Result<usize, PErr>)
    requires
        i <= toks@.len(),
    ensures
        match r {
            Ok(j) => sp_expect(toks@, i as int, k, src@.len() as int) == Ok::<int, (int, u64)>(
                j as int,
            ) && j == i + 1 && j <= toks@.len(),
            Err(e) => sp_expect(toks@, i as int, k, src@.len() as int) == Err::<int, (int, u64)>(
                (e.off as int, e.mask),
            ),
        },
{
    if i < toks.len() && toks[i].kind == k {
        Ok(i + 1)
    } else {
        Err(PErr { off: tok_off_x(src, toks, i), mask: kind_mask_x(k) })
    }
}

/// The kind of the token at `i`, if any.
pub open spec fn sp_peek(toks: Seq<Tok>, i: int) -> Option<TokKind> {
    if 0 <= i < toks.len() {
        Some(toks[i].kind)
    } else {
        None
    }
}

fn peek_x(toks: &Vec<Tok>, i: usize) -> (r: Option<TokKind>)
    ensures
        r == sp_peek(toks@, i as int),
{
    if i < toks.len() {
        Some(toks[i].kind)
    } else {
        None
    }
}

/// Is this token kind a type-specifier keyword accepted under every
/// flavor?
pub open spec fn sp_is_type_kw(k: TokKind) -> bool {
    match k {
        TokKind::KwVoid | TokKind::KwChar | TokKind::KwShort | TokKind::KwInt | TokKind::KwLong
            | TokKind::KwSigned | TokKind::KwUnsigned | TokKind::KwBool | TokKind::KwConst
            | TokKind::KwEnum => true,
        _ => false,
    }
}

fn is_type_kw_x(k: TokKind) -> (r: bool)
    ensures
        r == sp_is_type_kw(k),
{
    match k {
        TokKind::KwVoid | TokKind::KwChar | TokKind::KwShort | TokKind::KwInt | TokKind::KwLong
            | TokKind::KwSigned | TokKind::KwUnsigned | TokKind::KwBool | TokKind::KwConst
            | TokKind::KwEnum => true,
        _ => false,
    }
}

/// Can the token at `i` start a type?  This is the point where the
/// grammar consults the environment to tell a typedef name from an
/// ordinary identifier.
pub open spec fn sp_starts_type(src: Seq<u8>, toks: Seq<Tok>, i: int, env: Env) -> bool {
    match sp_peek(toks, i) {
        None => false,
        Some(k) => sp_is_type_kw(k) || (k == TokKind::KwTypeof && sp_ext_active(env.flavor, k)) || (
        k == TokKind::Ident && sp_lookup(env.scopes, src, toks[i].start, toks[i].end) == Some(
            SymbolKind::TypeName,
        )),
    }
}

fn starts_type_x(src: &Vec<u8>, toks: &Vec<Tok>, i: usize, env: &Env) -> (r: bool)
    ensures
        r == sp_starts_type(src@, toks@, i as int, *env),
{
    match peek_x(toks, i) {
        None => false,
        Some(k) => {
            if is_type_kw_x(k) {
                true
            } else if k == TokKind::KwTypeof && env.extension_active(k) {
                true
            } else if k == TokKind::Ident {
                env.is_typedef_name(src, toks[i].start, toks[i].end)
            } else {
                false
            }
        },
    }
}

/// The expected set reported where a primary expression should
/// start.
pub open spec fn sp_primary_mask() -> u64 {
    kind_mask(TokKind::Ident) | kind_mask(TokKind::IntConst) | kind_mask(TokKind::StrLit)
        | kind_mask(TokKind::CharConst) | kind_mask(TokKind::LParen)
}

fn primary_mask_x() -> (r: u64)
    ensures
        r == sp_primary_mask(),
{
    kind_mask_x(TokKind::Ident) | kind_mask_x(TokKind::IntConst) | kind_mask_x(TokKind::StrLit)
        | kind_mask_x(TokKind::CharConst) | kind_mask_x(TokKind::LParen)
}

/// The expected set reported where a type specifier should start.
pub open spec fn sp_type_mask(f: Flavor) -> u64 {
    let base = kind_mask(TokKind::KwVoid) | kind_mask(TokKind::KwChar) | kind_mask(
        TokKind::KwShort,
    ) | kind_mask(TokKind::KwInt) | kind_mask(TokKind::KwLong) | kind_mask(TokKind::KwSigned)
        | kind_mask(TokKind::KwUnsigned) | kind_mask(TokKind::KwBool) | kind_mask(TokKind::KwConst)
        | kind_mask(TokKind::KwEnum) | kind_mask(TokKind::Ident);
    if sp_ext_active(f, TokKind::KwTypeof) {
        base | kind_mask(TokKind::KwTypeof)
    } else {
        base
    }
}

fn type_mask_x(env: &Env) -> (r: u64)
    ensures
        r == sp_type_mask(env.flavor),
{
    let base = kind_mask_x(TokKind::KwVoid) | kind_mask_x(TokKind::KwChar) | kind_mask_x(
        TokKind::KwShort,
    ) | kind_mask_x(TokKind::KwInt) | kind_mask_x(TokKind::KwLong) | kind_mask_x(TokKind::KwSigned)
        | kind_mask_x(TokKind::KwUnsigned) | kind_mask_x(TokKind::KwBool) | kind_mask_x(
        TokKind::KwConst,
    ) | kind_mask_x(TokKind::KwEnum) | kind_mask_x(TokKind::Ident);
    if env.extension_active(TokKind::KwTypeof) {
        base | kind_mask_x(TokKind::KwTypeof)
    } else {
        base
    }
}

/// The specifier produced by a single-token type specifier or
/// qualifier, with a flag saying whether it is a type specifier
/// proper (a qualifier leaves the typedef-name ambiguity open).
pub open spec fn sp_simple_spec(k: TokKind) -> Option<(TypeSpecifier, bool)> {
    match k {
        TokKind::KwVoid => Some((TypeSpecifier::Void, true)),
        TokKind::KwChar => Some((TypeSpecifier::Char, true)),
        TokKind::KwShort => Some((TypeSpecifier::Short, true)),
        TokKind::KwInt => Some((TypeSpecifier::Int, true)),
        TokKind::KwLong => Some((TypeSpecifier::Long, true)),
        TokKind::KwSigned => Some((TypeSpecifier::Signed, true)),
        TokKind::KwUnsigned => Some((TypeSpecifier::Unsigned, true)),
        TokKind::KwBool => Some((TypeSpecifier::Bool, true)),
        TokKind::KwConst => Some((TypeSpecifier::Const, false)),
        _ => None,
    }
}

fn simple_spec_x(k: TokKind) -> (r: Option<(TypeSpecifier, bool)>)
    ensures
        r == sp_simple_spec(k),
{
    match k {
        TokKind::KwVoid => Some((TypeSpecifier::Void, true)),
        TokKind::KwChar => Some((TypeSpecifier::Char, true)),
        TokKind::KwShort => Some((TypeSpecifier::Short, true)),
        TokKind::KwInt => Some((TypeSpecifier::Int, true)),
        TokKind::KwLong => Some((TypeSpecifier::Long, true)),
        TokKind::KwSigned => Some((TypeSpecifier::Signed, true)),
        TokKind::KwUnsigned => Some((TypeSpecifier::Unsigned, true)),
        TokKind::KwBool => Some((TypeSpecifier::Bool, true)),
        TokKind::KwConst => Some((TypeSpecifier::Const, false)),
        _ => None,
    }
}

/// The binary operator of a precedence level, from loosest (equality,
/// level 0) to tightest (multiplicative, level 3).
pub open spec fn sp_op_of(level: int, k: TokKind) -> Option<BinaryOp> {
    if level == 0 {
        match k {
            TokKind::EqEq => Some(BinaryOp::Eq),
            TokKind::BangEq => Some(BinaryOp::NotEq),
            _ => None,
        }
    } else if level == 1 {
        match k {
            TokKind::Lt => Some(BinaryOp::Less),
            TokKind::Gt => Some(BinaryOp::Greater),
            TokKind::Le => Some(BinaryOp::LessEq),
            TokKind::Ge => Some(BinaryOp::GreaterEq),
            _ => None,
        }
    } else if level == 2 {
        match k {
            TokKind::Plus => Some(BinaryOp::Add),
            TokKind::Minus => Some(BinaryOp::Sub),
            _ => None,
        }
    } else if level == 3 {
        match k {
            TokKind::Star => Some(BinaryOp::Mul),
            TokKind::Slash => Some(BinaryOp::Div),
            _ => None,
        }
    } else {
        None
    }
}

fn op_of_x(level: u32, k: TokKind) -> (r: Option<BinaryOp>)
    ensures
        r == sp_op_of(level as int, k),
{
    if level == 0 {
        match k {
            TokKind::EqEq => Some(BinaryOp::Eq),
            TokKind::BangEq => Some(BinaryOp::NotEq),
            _ => None,
        }
    } else if level == 1 {
        match k {
            TokKind::Lt => Some(BinaryOp::Less),
            TokKind::Gt => Some(BinaryOp::Greater),
            TokKind::Le => Some(BinaryOp::LessEq),
            TokKind::Ge => Some(BinaryOp::GreaterEq),
            _ => None,
        }
    } else if level == 2 {
        match k {
            TokKind::Plus => Some(BinaryOp::Add),
            TokKind::Minus => Some(BinaryOp::Sub),
            _ => None,
        }
    } else if level == 3 {
        match k {
            TokKind::Star => Some(BinaryOp::Mul),
            TokKind::Slash => Some(BinaryOp::Div),
            _ => None,
        }
    } else {
        None
    }
}

/// The prefix operator of a unary-expression, if the token is one.
pub open spec fn sp_unary_op(k: TokKind) -> Option<UnaryOp> {
    match k {
        TokKind::Minus => Some(UnaryOp::Minus),
        TokKind::Bang => Some(UnaryOp::Not),
        TokKind::Star => Some(UnaryOp::Deref),
        TokKind::Amp => Some(UnaryOp::AddressOf),
        _ => None,
    }
}

fn unary_op_x(k: TokKind) -> (r: Option<UnaryOp>)
    ensures
        r == sp_unary_op(k),
{
    match k {
        TokKind::Minus => Some(UnaryOp::Minus),
        TokKind::Bang => Some(UnaryOp::Not),
        TokKind::Star => Some(UnaryOp::Deref),
        TokKind::Amp => Some(UnaryOp::AddressOf),
        _ => None,
    }
}

/// An assignment-expression: a conditional, optionally assigned to.
pub open spec fn sp_assign_expr(src: Seq<u8>, toks: Seq<Tok>, i: int, env: Env, fuel: nat) -> PRes<
    Expr,
>
    decreases fuel,
{
    let n = src.len() as int;
    if fuel == 0 {
        PRes::Fail(sp_tok_off(toks, i, n), 0, env)
    } else {
        match sp_cond_expr(src, toks, i, env, (fuel - 1) as nat) {
            PRes::Fail(o, m, e) => PRes::Fail(o, m, e),
            PRes::Done(l, j, e2) => if sp_peek(toks, j) == Some(TokKind::Assign) {
                match sp_assign_expr(src, toks, j + 1, e2, (fuel - 1) as nat) {
                    PRes::Fail(o, m, e) => PRes::Fail(o, m, e),
                    PRes::Done(r, j2, e3) => PRes::Done(
                        Expr::Assign(Box::new(l), Box::new(r)),
                        j2,
                        e3,
                    ),
                }
            } else {
                PRes::Done(l, j, e2)
            },
        }
    }
}

/// A conditional-expression `a ? b : c`.
pub open spec fn sp_cond_expr(src: Seq<u8>, toks: Seq<Tok>, i: int, env: Env, fuel: nat) -> PRes<
    Expr,
>
    decreases fuel,
{
    let n = src.len() as int;
    if fuel == 0 {
        PRes::Fail(sp_tok_off(toks, i, n), 0, env)
    } else {
        match sp_binary_expr(src, toks, i, env, 0, (fuel - 1) as nat) {
            PRes::Fail(o, m, e) => PRes::Fail(o, m, e),
            PRes::Done(c, j, e2) => if sp_peek(toks, j) == Some(TokKind::Question) {
                match sp_assign_expr(src, toks, j + 1, e2, (fuel - 1) as nat) {
                    PRes::Fail(o, m, e) => PRes::Fail(o, m, e),
                    PRes::Done(t, j2, e3) => match sp_expect(toks, j2, TokKind::Colon, n) {
                        Err(er) => PRes::Fail(er.0, er.1, e3),
                        Ok(j3) => match sp_cond_expr(src, toks, j3, e3, (fuel - 1) as nat) {
                            PRes::Fail(o, m, e) => PRes::Fail(o, m, e),
                            PRes::Done(el, j4, e4) => PRes::Done(
                                Expr::Conditional(Box::new(c), Box::new(t), Box::new(el)),
                                j4,
                                e4,
                            ),
                        },
                    },
                }
            } else {
                PRes::Done(c, j, e2)
            },
        }
    }
}

/// A binary-expression at one precedence level.
pub open spec fn sp_binary_expr(
    src: Seq<u8>, toks: Seq<Tok>, i: int, env: Env, level: int, fuel: nat,
) -> PRes<Expr>
    decreases fuel,
{
    let n = src.len() as int;
    if fuel == 0 {
        PRes::Fail(sp_tok_off(toks, i, n), 0, env)
    } else if level >= 4 {
        sp_unary_expr(src, toks, i, env, (fuel - 1) as nat)
    } else {
        match sp_binary_expr(src, toks, i, env, level + 1, (fuel - 1) as nat) {
            PRes::Fail(o, m, e) => PRes::Fail(o, m, e),
            PRes::Done(l, j, e2) => sp_binary_rest(src, toks, l, j, e2, level, (fuel - 1) as nat),
        }
    }
}

/// Further operands of a binary-expression at one level.
pub open spec fn sp_binary_rest(
    src: Seq<u8>, toks: Seq<Tok>, l: Expr, i: int, env: Env, level: int, fuel: nat,
) -> PRes<Expr>
    decreases fuel,
{
    let n = src.len() as int;
    if fuel == 0 {
        PRes::Fail(sp_tok_off(toks, i, n), 0, env)
    } else {
        let op = match sp_peek(toks, i) {
            Some(k) => sp_op_of(level, k),
            None => None,
        };
        match op {
            None => PRes::Done(l, i, env),
            Some(op) => match sp_binary_expr(src, toks, i + 1, env, level + 1, (fuel - 1) as nat) {
                PRes::Fail(o, m, e) => PRes::Fail(o, m, e),
                PRes::Done(r, j, e2) => sp_binary_rest(
                    src,
                    toks,
                    Expr::Binary(op, Box::new(l), Box::new(r)),
                    j,
                    e2,
                    level,
                    (fuel - 1) as nat,
                ),
            },
        }
    }
}

/// A unary-expression: prefix operators, then a primary or a cast.
pub open spec fn sp_unary_expr(src: Seq<u8>, toks: Seq<Tok>, i: int, env: Env, fuel: nat) -> PRes<
    Expr,
>
    decreases fuel,
{
    let n = src.len() as int;
    if fuel == 0 {
        PRes::Fail(sp_tok_off(toks, i, n), 0, env)
    } else {
        let op = match sp_peek(toks, i) {
            Some(k) => sp_unary_op(k),
            None => None,
        };
        match op {
            Some(op) => match sp_unary_expr(src, toks, i + 1, env, (fuel - 1) as nat) {
                PRes::Fail(o, m, e) => PRes::Fail(o, m, e),
                PRes::Done(sub, j, e2) => PRes::Done(Expr::Unary(op, Box::new(sub)), j, e2),
            },
            None => sp_primary_expr(src, toks, i, env, (fuel - 1) as nat),
        }
    }
}

/// A primary expression, a parenthesized expression, or a cast.  The
/// parenthesis is the classic ambiguity: it is resolved by asking the
/// environment whether the next token can start a type.
pub open spec fn sp_primary_expr(src: Seq<u8>, toks: Seq<Tok>, i: int, env: Env, fuel: nat) -> PRes<
    Expr,
>
    decreases fuel,
{
    let n = src.len() as int;
    if fuel == 0 {
        PRes::Fail(sp_tok_off(toks, i, n), 0, env)
    } else {
        match sp_peek(toks, i) {
            Some(TokKind::Ident) => PRes::Done(
                Expr::Ident(Span { start: toks[i].start, end: toks[i].end }),
                i + 1,
                env,
            ),
            Some(TokKind::IntConst) => PRes::Done(
                Expr::IntConst(Span { start: toks[i].start, end: toks[i].end }),
                i + 1,
                env,
            ),
            Some(TokKind::StrLit) => PRes::Done(
                Expr::StrLit(Span { start: toks[i].start, end: toks[i].end }),
                i + 1,
                env,
            ),
            Some(TokKind::CharConst) => PRes::Done(
                Expr::CharConst(Span { start: toks[i].start, end: toks[i].end }),
                i + 1,
                env,
            ),
            Some(TokKind::LParen) => if sp_starts_type(src, toks, i + 1, env) {
                match sp_type_name(src, toks, i + 1, env, (fuel - 1) as nat) {
                    PRes::Fail(o, m, e) => PRes::Fail(o, m, e),
                    PRes::Done(tn, j, e2) => match sp_expect(toks, j, TokKind::RParen, n) {
                        Err(er) => PRes::Fail(er.0, er.1, e2),
                        Ok(j2) => match sp_unary_expr(src, toks, j2, e2, (fuel - 1) as nat) {
                            PRes::Fail(o, m, e) => PRes::Fail(o, m, e),
                            PRes::Done(sub, j3, e3) => PRes::Done(
                                Expr::Cast(Box::new(tn), Box::new(sub)),
                                j3,
                                e3,
                            ),
                        },
                    },
                }
            } else {
                match sp_assign_expr(src, toks, i + 1, env, (fuel - 1) as nat) {
                    PRes::Fail(o, m, e) => PRes::Fail(o, m, e),
                    PRes::Done(sub, j, e2) => match sp_expect(toks, j, TokKind::RParen, n) {
                        Err(er) => PRes::Fail(er.0, er.1, e2),
                        Ok(j2) => PRes::Done(Expr::Paren(Box::new(sub)), j2, e2),
                    },
                }
            },
            _ => PRes::Fail(sp_tok_off(toks, i, n), sp_primary_mask(), env),
        }
    }
}

/// Pointer qualifiers after a `*`: `const`, and under the Clang
/// flavor `_Nullable` and `_Nonnull`.
pub open spec fn sp_quals(toks: Seq<Tok>, i: int, f: Flavor, fuel: nat) -> int
    decreases fuel,
{
    if fuel == 0 {
        i
    } else {
        match sp_peek(toks, i) {
            Some(TokKind::KwConst) => sp_quals(toks, i + 1, f, (fuel - 1) as nat),
            Some(TokKind::KwNullable) | Some(TokKind::KwNonnull) => if sp_ext_active(
                f,
                TokKind::KwNullable,
            ) {
                sp_quals(toks, i + 1, f, (fuel - 1) as nat)
            } else {
                i
            },
            _ => i,
        }
    }
}

/// The pointer part of a declarator: stars with their qualifiers.
/// Returns the star count and the position after them.
pub open spec fn sp_ptr(toks: Seq<Tok>, i: int, f: Flavor, fuel: nat) -> (int, int)
    decreases fuel,
{
    if fuel == 0 {
        (0, i)
    } else if sp_peek(toks, i) == Some(TokKind::Star) {
        let q = sp_quals(toks, i + 1, f, (fuel - 1) as nat);
        let (c, j) = sp_ptr(toks, q, f, (fuel - 1) as nat);
        (c + 1, j)
    } else {
        (0, i)
    }
}

/// Bounds of `sp_quals`: it only moves forward within the tokens.
pub proof fn lemma_quals_bounds(toks: Seq<Tok>, i: int, f: Flavor, fuel: nat)
    requires
        0 <= i <= toks.len(),
    ensures
        i <= sp_quals(toks, i, f, fuel) <= toks.len(),
    decreases fuel,
{
    if fuel > 0 {
        match sp_peek(toks, i) {
            Some(TokKind::KwConst) => lemma_quals_bounds(toks, i + 1, f, (fuel - 1) as nat),
            Some(TokKind::KwNullable) | Some(TokKind::KwNonnull) => if sp_ext_active(
                f,
                TokKind::KwNullable,
            ) {
                lemma_quals_bounds(toks, i + 1, f, (fuel - 1) as nat)
            },
            _ => {},
        }
    }
}

/// Bounds of `sp_ptr`: the count is at most the tokens consumed.
pub proof fn lemma_ptr_bounds(toks: Seq<Tok>, i: int, f: Flavor, fuel: nat)
    requires
        0 <= i <= toks.len(),
    ensures
        ({
            let (c, j) = sp_ptr(toks, i, f, fuel);
            i <= j <= toks.len() && 0 <= c <= j - i
        }),
    decreases fuel,
{
    if fuel > 0 && sp_peek(toks, i) == Some(TokKind::Star) {
        lemma_quals_bounds(toks, i + 1, f, (fuel - 1) as nat);
        let q = sp_quals(toks, i + 1, f, (fuel - 1) as nat);
        lemma_ptr_bounds(toks, q, f, (fuel - 1) as nat);
    }
}

/// A type name as in a cast: specifiers, then pointer stars.
pub open spec fn sp_type_name(src: Seq<u8>, toks: Seq<Tok>, i: int, env: Env, fuel: nat) -> PRes<
    TypeName,
>
    decreases fuel,
{
    let n = src.len() as int;
    if fuel == 0 {
        PRes::Fail(sp_tok_off(toks, i, n), 0, env)
    } else {
        match sp_specifiers(src, toks, i, env, false, false, (fuel - 1) as nat) {
            PRes::Fail(o, m, e) => PRes::Fail(o, m, e),
            PRes::Done((ht, specs), j, e2) => if specs == List::<TypeSpecifier>::Nil {
                PRes::Fail(sp_tok_off(toks, j, n), sp_type_mask(e2.flavor), e2)
            } else {
                let (c, j2) = sp_ptr(toks, j, e2.flavor, (fuel - 1) as nat);
                PRes::Done(TypeName { specifiers: specs, pointers: c as usize }, j2, e2)
            },
        }
    }
}

/// The declaration-specifier list.  `allow_storage` admits the
/// `typedef` storage class; `seen_type` records whether a type
/// specifier proper has been read, which is what stops an identifier
/// from being read as a typedef name a second time.  The flag in the
/// result says whether `typedef` appeared.
pub open spec fn sp_specifiers(
    src: Seq<u8>, toks: Seq<Tok>, i: int, env: Env, allow_storage: bool, seen_type: bool, fuel: nat,
) -> PRes<(bool, List<TypeSpecifier>)>
    decreases fuel,
{
    let n = src.len() as int;
    if fuel == 0 {
        PRes::Fail(sp_tok_off(toks, i, n), 0, env)
    } else {
        match sp_peek(toks, i) {
            None => PRes::Done((false, List::Nil), i, env),
            Some(k) => if k == TokKind::KwTypedef && allow_storage {
                match sp_specifiers(src, toks, i + 1, env, allow_storage, seen_type, (fuel - 1) as nat) {
                    PRes::Fail(o, m, e) => PRes::Fail(o, m, e),
                    PRes::Done((ht, l), j, e2) => PRes::Done((true, l), j, e2),
                }
            } else {
                match sp_simple_spec(k) {
                    Some((ts, is_type)) => match sp_specifiers(
                        src,
                        toks,
                        i + 1,
                        env,
                        allow_storage,
                        seen_type || is_type,
                        (fuel - 1) as nat,
                    ) {
                        PRes::Fail(o, m, e) => PRes::Fail(o, m, e),
                        PRes::Done((ht, l), j, e2) => PRes::Done(
                            (ht, List::Cons(ts, Box::new(l))),
                            j,
                            e2,
                        ),
                    },
                    None => if k == TokKind::KwEnum {
                        match sp_enum_spec(src, toks, i, env, (fuel - 1) as nat) {
                            PRes::Fail(o, m, e) => PRes::Fail(o, m, e),
                            PRes::Done(ts, j, e2) => match sp_specifiers(
                                src,
                                toks,
                                j,
                                e2,
                                allow_storage,
                                true,
                                (fuel - 1) as nat,
                            ) {
                                PRes::Fail(o, m, e) => PRes::Fail(o, m, e),
                                PRes::Done((ht, l), j2, e3) => PRes::Done(
                                    (ht, List::Cons(ts, Box::new(l))),
                                    j2,
                                    e3,
                                ),
                            },
                        }
                    } else if k == TokKind::KwTypeof && sp_ext_active(env.flavor, k) {
                        match sp_expect(toks, i + 1, TokKind::LParen, n) {
                            Err(er) => PRes::Fail(er.0, er.1, env),
                            Ok(j) => match sp_assign_expr(src, toks, j, env, (fuel - 1) as nat) {
                                PRes::Fail(o, m, e) => PRes::Fail(o, m, e),
                                PRes::Done(ex, j2, e2) => match sp_expect(
                                    toks,
                                    j2,
                                    TokKind::RParen,
                                    n,
                                ) {
                                    Err(er) => PRes::Fail(er.0, er.1, e2),
                                    Ok(j3) => match sp_specifiers(
                                        src,
                                        toks,
                                        j3,
                                        e2,
                                        allow_storage,
                                        true,
                                        (fuel - 1) as nat,
                                    ) {
                                        PRes::Fail(o, m, e) => PRes::Fail(o, m, e),
                                        PRes::Done((ht, l), j4, e3) => PRes::Done(
                                            (
                                                ht,
                                                List::Cons(
                                                    TypeSpecifier::Typeof(Box::new(ex)),
                                                    Box::new(l),
                                                ),
                                            ),
                                            j4,
                                            e3,
                                        ),
                                    },
                                },
                            },
                        }
                    } else if k == TokKind::Ident && !seen_type && sp_lookup(
                        env.scopes,
                        src,
                        toks[i].start,
                        toks[i].end,
                    ) == Some(SymbolKind::TypeName) {
                        match sp_specifiers(src, toks, i + 1, env, allow_storage, true, (fuel - 1) as nat) {
                            PRes::Fail(o, m, e) => PRes::Fail(o, m, e),
                            PRes::Done((ht, l), j, e2) => PRes::Done(
                                (
                                    ht,
                                    List::Cons(
                                        TypeSpecifier::Named(
                                            Span { start: toks[i].start, end: toks[i].end },
                                        ),
                                        Box::new(l),
                                    ),
                                ),
                                j,
                                e2,
                            ),
                        }
                    } else {
                        PRes::Done((false, List::Nil), i, env)
                    },
                }
            },
        }
    }
}

/// An `enum` specifier.  Each enumerator is declared as an
/// enumeration constant as soon as it is read.
pub open spec fn sp_enum_spec(src: Seq<u8>, toks: Seq<Tok>, i: int, env: Env, fuel: nat) -> PRes<
    TypeSpecifier,
>
    decreases fuel,
{
    let n = src.len() as int;
    if fuel == 0 {
        PRes::Fail(sp_tok_off(toks, i, n), 0, env)
    } else {
        match sp_expect(toks, i, TokKind::KwEnum, n) {
            Err(er) => PRes::Fail(er.0, er.1, env),
            Ok(j) => {
                let tag: Option<Span> = if sp_peek(toks, j) == Some(TokKind::Ident) {
                    Some(Span { start: toks[j].start, end: toks[j].end })
                } else {
                    None
                };
                let j2 = if tag is Some {
                    j + 1
                } else {
                    j
                };
                if sp_peek(toks, j2) == Some(TokKind::LBrace) {
                    match sp_enumerators(src, toks, j2 + 1, env, (fuel - 1) as nat) {
                        PRes::Fail(o, m, e) => PRes::Fail(o, m, e),
                        PRes::Done(names, j3, e2) => PRes::Done(
                            TypeSpecifier::Enum(tag, names),
                            j3,
                            e2,
                        ),
                    }
                } else if tag is Some {
                    PRes::Done(TypeSpecifier::Enum(tag, List::Nil), j2, env)
                } else {
                    PRes::Fail(
                        sp_tok_off(toks, j2, n),
                        kind_mask(TokKind::Ident) | kind_mask(TokKind::LBrace),
                        env,
                    )
                }
            },
        }
    }
}

/// The enumerator names of an `enum` body, ending after the closing
/// brace.  A trailing comma is allowed.
pub open spec fn sp_enumerators(src: Seq<u8>, toks: Seq<Tok>, i: int, env: Env, fuel: nat) -> PRes<
    List<Span>,
>
    decreases fuel,
{
    let n = src.len() as int;
    if fuel == 0 {
        PRes::Fail(sp_tok_off(toks, i, n), 0, env)
    } else if sp_peek(toks, i) == Some(TokKind::Ident) {
        let nm = Span { start: toks[i].start, end: toks[i].end };
        let e2 = sp_declare(
            env,
            Entry { start: nm.start, end: nm.end, kind: SymbolKind::EnumerationConstant },
        );
        if sp_peek(toks, i + 1) == Some(TokKind::Comma) {
            if sp_peek(toks, i + 2) == Some(TokKind::RBrace) {
                PRes::Done(List::Cons(nm, Box::new(List::Nil)), i + 3, e2)
            } else {
                match sp_enumerators(src, toks, i + 2, e2, (fuel - 1) as nat) {
                    PRes::Fail(o, m, e) => PRes::Fail(o, m, e),
                    PRes::Done(rest, j, e3) => PRes::Done(List::Cons(nm, Box::new(rest)), j, e3),
                }
            }
        } else if sp_peek(toks, i + 1) == Some(TokKind::RBrace) {
            PRes::Done(List::Cons(nm, Box::new(List::Nil)), i + 2, e2)
        } else {
            PRes::Fail(
                sp_tok_off(toks, i + 1, n),
                kind_mask(TokKind::Comma) | kind_mask(TokKind::RBrace),
                e2,
            )
        }
    } else {
        PRes::Fail(sp_tok_off(toks, i, n), kind_mask(TokKind::Ident), env)
    }
}

/// Declare a declarator's name, as a typedef name under a `typedef`
/// storage class and as an ordinary identifier otherwise.
pub open spec fn sp_declare_decl(env: Env, d: Declarator, ht: bool) -> Env {
    match d.name {
        Some(nm) => sp_declare(
            env,
            Entry {
                start: nm.start,
                end: nm.end,
                kind: if ht {
                    SymbolKind::TypeName
                } else {
                    SymbolKind::OrdinaryIdentifier
                },
            },
        ),
        None => env,
    }
}

/// Declare the named parameters of a parameter list as ordinary
/// identifiers (in the scope of a function body being entered).
pub open spec fn sp_declare_param_list(env: Env, l: List<ParamDecl>) -> Env
    decreases l,
{
    match l {
        List::Nil => env,
        List::Cons(pd, tail) => {
            let e2 = match pd.declarator.name {
                Some(nm) => sp_declare(
                    env,
                    Entry { start: nm.start, end: nm.end, kind: SymbolKind::OrdinaryIdentifier },
                ),
                None => env,
            };
            sp_declare_param_list(e2, *tail)
        },
    }
}

/// Declare a declarator's parameters, if it has any.
pub open spec fn sp_declare_params(env: Env, ps: ParamSuffix) -> Env {
    match ps {
        ParamSuffix::Params(l) => sp_declare_param_list(env, l),
        _ => env,
    }
}

/// A declarator: pointer part, name, parameter suffix.  With
/// `require_name`, an abstract declarator is a failure.
pub open spec fn sp_declarator(
    src: Seq<u8>, toks: Seq<Tok>, i: int, env: Env, require_name: bool, fuel: nat,
) -> PRes<Declarator>
    decreases fuel,
{
    let n = src.len() as int;
    if fuel == 0 {
        PRes::Fail(sp_tok_off(toks, i, n), 0, env)
    } else {
        let (c, j) = sp_ptr(toks, i, env.flavor, (fuel - 1) as nat);
        let name: Option<Span> = if sp_peek(toks, j) == Some(TokKind::Ident) {
            Some(Span { start: toks[j].start, end: toks[j].end })
        } else {
            None
        };
        let j2 = if name is Some {
            j + 1
        } else {
            j
        };
        if require_name && name is None {
            PRes::Fail(sp_tok_off(toks, j, n), kind_mask(TokKind::Ident), env)
        } else if sp_peek(toks, j2) == Some(TokKind::LParen) {
            if sp_peek(toks, j2 + 1) == Some(TokKind::RParen) {
                PRes::Done(
                    Declarator { pointers: c as usize, name, params: ParamSuffix::Empty },
                    j2 + 2,
                    env,
                )
            } else if sp_peek(toks, j2 + 1) == Some(TokKind::KwVoid) && sp_peek(toks, j2 + 2)
                == Some(TokKind::RParen) {
                PRes::Done(
                    Declarator { pointers: c as usize, name, params: ParamSuffix::Empty },
                    j2 + 3,
                    env,
                )
            } else {
                match sp_params(src, toks, j2 + 1, env, (fuel - 1) as nat) {
                    PRes::Fail(o, m, e) => PRes::Fail(o, m, e),
                    PRes::Done(ps, j3, e2) => PRes::Done(
                        Declarator {
                            pointers: c as usize,
                            name,
                            params: ParamSuffix::Params(ps),
                        },
                        j3,
                        e2,
                    ),
                }
            }
        } else {
            PRes::Done(
                Declarator { pointers: c as usize, name, params: ParamSuffix::Absent },
                j2,
                env,
            )
        }
    }
}

/// A comma-separated parameter list, ending after the closing
/// parenthesis.
pub open spec fn sp_params(src: Seq<u8>, toks: Seq<Tok>, i: int, env: Env, fuel: nat) -> PRes<
    List<ParamDecl>,
>
    decreases fuel,
{
    let n = src.len() as int;
    if fuel == 0 {
        PRes::Fail(sp_tok_off(toks, i, n), 0, env)
    } else {
        match sp_param_decl(src, toks, i, env, (fuel - 1) as nat) {
            PRes::Fail(o, m, e) => PRes::Fail(o, m, e),
            PRes::Done(pd, j, e2) => if sp_peek(toks, j) == Some(TokKind::Comma) {
                match sp_params(src, toks, j + 1, e2, (fuel - 1) as nat) {
                    PRes::Fail(o, m, e) => PRes::Fail(o, m, e),
                    PRes::Done(rest, j2, e3) => PRes::Done(List::Cons(pd, Box::new(rest)), j2, e3),
                }
            } else {
                match sp_expect(toks, j, TokKind::RParen, n) {
                    Err(er) => PRes::Fail(er.0, er.1 | kind_mask(TokKind::Comma), e2),
                    Ok(j2) => PRes::Done(List::Cons(pd, Box::new(List::Nil)), j2, e2),
                }
            },
        }
    }
}

/// One parameter declaration: specifiers and a declarator that may
/// be abstract.
pub open spec fn sp_param_decl(src: Seq<u8>, toks: Seq<Tok>, i: int, env: Env, fuel: nat) -> PRes<
    ParamDecl,
>
    decreases fuel,
{
    let n = src.len() as int;
    if fuel == 0 {
        PRes::Fail(sp_tok_off(toks, i, n), 0, env)
    } else {
        match sp_specifiers(src, toks, i, env, false, false, (fuel - 1) as nat) {
            PRes::Fail(o, m, e) => PRes::Fail(o, m, e),
            PRes::Done((ht, specs), j, e2) => if specs == List::<TypeSpecifier>::Nil {
                PRes::Fail(sp_tok_off(toks, j, n), sp_type_mask(e2.flavor), e2)
            } else {
                match sp_declarator(src, toks, j, e2, false, (fuel - 1) as nat) {
                    PRes::Fail(o, m, e) => PRes::Fail(o, m, e),
                    PRes::Done(d, j2, e3) => PRes::Done(
                        ParamDecl { specifiers: specs, declarator: Box::new(d) },
                        j2,
                        e3,
                    ),
                }
            },
        }
    }
}

/// The init-declarator list from its first, already parsed
/// declarator through the closing semicolon.  Each declarator's name
/// is declared as soon as the declarator has been recognized, before
/// any initializer or further declarator is parsed: a typedef name
/// is visible to the rest of its own declaration.
pub open spec fn sp_idl_from(
    src: Seq<u8>, toks: Seq<Tok>, d: Declarator, i: int, env: Env, ht: bool, fuel: nat,
) -> PRes<List<InitDeclarator>>
    decreases fuel,
{
    let n = src.len() as int;
    if fuel == 0 {
        PRes::Fail(sp_tok_off(toks, i, n), 0, env)
    } else {
        let e2 = sp_declare_decl(env, d, ht);
        if sp_peek(toks, i) == Some(TokKind::Assign) {
            match sp_assign_expr(src, toks, i + 1, e2, (fuel - 1) as nat) {
                PRes::Fail(o, m, e) => PRes::Fail(o, m, e),
                PRes::Done(ex, j, e3) => sp_idl_tail(
                    src,
                    toks,
                    InitDeclarator { declarator: d, init: Some(ex) },
                    j,
                    e3,
                    ht,
                    (fuel - 1) as nat,
                ),
            }
        } else {
            sp_idl_tail(
                src,
                toks,
                InitDeclarator { declarator: d, init: None },
                i,
                e2,
                ht,
                (fuel - 1) as nat,
            )
        }
    }
}

/// After one init-declarator: a comma and another declarator, or the
/// closing semicolon.
pub open spec fn sp_idl_tail(
    src: Seq<u8>, toks: Seq<Tok>, id: InitDeclarator, i: int, env: Env, ht: bool, fuel: nat,
) -> PRes<List<InitDeclarator>>
    decreases fuel,
{
    let n = src.len() as int;
    if fuel == 0 {
        PRes::Fail(sp_tok_off(toks, i, n), 0, env)
    } else if sp_peek(toks, i) == Some(TokKind::Comma) {
        match sp_declarator(src, toks, i + 1, env, true, (fuel - 1) as nat) {
            PRes::Fail(o, m, e) => PRes::Fail(o, m, e),
            PRes::Done(d2, j, e2) => match sp_idl_from(src, toks, d2, j, e2, ht, (fuel - 1) as nat) {
                PRes::Fail(o, m, e) => PRes::Fail(o, m, e),
                PRes::Done(rest, j2, e3) => PRes::Done(List::Cons(id, Box::new(rest)), j2, e3),
            },
        }
    } else {
        match sp_expect(toks, i, TokKind::Semi, n) {
            Err(er) => PRes::Fail(er.0, er.1 | kind_mask(TokKind::Comma), env),
            Ok(j) => PRes::Done(List::Cons(id, Box::new(List::Nil)), j, env),
        }
    }
}

/// A declaration at block scope.
pub open spec fn sp_declaration(src: Seq<u8>, toks: Seq<Tok>, i: int, env: Env, fuel: nat) -> PRes<
    Declaration,
>
    decreases fuel,
{
    let n = src.len() as int;
    if fuel == 0 {
        PRes::Fail(sp_tok_off(toks, i, n), 0, env)
    } else {
        let start = sp_tok_off(toks, i, n) as usize;
        match sp_specifiers(src, toks, i, env, true, false, (fuel - 1) as nat) {
            PRes::Fail(o, m, e) => PRes::Fail(o, m, e),
            PRes::Done((ht, specs), j, e2) => if specs == List::<TypeSpecifier>::Nil && !ht {
                PRes::Fail(sp_tok_off(toks, j, n), sp_type_mask(e2.flavor), e2)
            } else if sp_peek(toks, j) == Some(TokKind::Semi) {
                PRes::Done(
                    Declaration {
                        is_typedef: ht,
                        specifiers: specs,
                        declarators: List::Nil,
                        span: Span { start, end: sp_prev_end(toks, j + 1) },
                    },
                    j + 1,
                    e2,
                )
            } else {
                match sp_declarator(src, toks, j, e2, true, (fuel - 1) as nat) {
                    PRes::Fail(o, m, e) => PRes::Fail(o, m, e),
                    PRes::Done(d, j2, e3) => match sp_idl_from(
                        src,
                        toks,
                        d,
                        j2,
                        e3,
                        ht,
                        (fuel - 1) as nat,
                    ) {
                        PRes::Fail(o, m, e) => PRes::Fail(o, m, e),
                        PRes::Done(l, j3, e4) => PRes::Done(
                            Declaration {
                                is_typedef: ht,
                                specifiers: specs,
                                declarators: l,
                                span: Span { start, end: sp_prev_end(toks, j3) },
                            },
                            j3,
                            e4,
                        ),
                    },
                }
            },
        }
    }
}

/// A statement.
pub open spec fn sp_statement(src: Seq<u8>, toks: Seq<Tok>, i: int, env: Env, fuel: nat) -> PRes<
    Stmt,
>
    decreases fuel,
{
    let n = src.len() as int;
    if fuel == 0 {
        PRes::Fail(sp_tok_off(toks, i, n), 0, env)
    } else {
        let start = sp_tok_off(toks, i, n) as usize;
        match sp_peek(toks, i) {
            Some(TokKind::LBrace) => sp_compound(src, toks, i, env, (fuel - 1) as nat),
            Some(TokKind::Semi) => PRes::Done(
                Stmt::Empty(Span { start, end: sp_prev_end(toks, i + 1) }),
                i + 1,
                env,
            ),
            Some(TokKind::KwReturn) => if sp_peek(toks, i + 1) == Some(TokKind::Semi) {
                PRes::Done(
                    Stmt::Return(None, Span { start, end: sp_prev_end(toks, i + 2) }),
                    i + 2,
                    env,
                )
            } else {
                match sp_assign_expr(src, toks, i + 1, env, (fuel - 1) as nat) {
                    PRes::Fail(o, m, e) => PRes::Fail(o, m, e),
                    PRes::Done(ex, j, e2) => match sp_expect(toks, j, TokKind::Semi, n) {
                        Err(er) => PRes::Fail(er.0, er.1, e2),
                        Ok(j2) => PRes::Done(
                            Stmt::Return(Some(ex), Span { start, end: sp_prev_end(toks, j2) }),
                            j2,
                            e2,
                        ),
                    },
                }
            },
            Some(TokKind::KwIf) => match sp_expect(toks, i + 1, TokKind::LParen, n) {
                Err(er) => PRes::Fail(er.0, er.1, env),
                Ok(j) => match sp_assign_expr(src, toks, j, env, (fuel - 1) as nat) {
                    PRes::Fail(o, m, e) => PRes::Fail(o, m, e),
                    PRes::Done(c, j2, e2) => match sp_expect(toks, j2, TokKind::RParen, n) {
                        Err(er) => PRes::Fail(er.0, er.1, e2),
                        Ok(j3) => match sp_statement(src, toks, j3, e2, (fuel - 1) as nat) {
                            PRes::Fail(o, m, e) => PRes::Fail(o, m, e),
                            PRes::Done(th, j4, e3) => if sp_peek(toks, j4) == Some(
                                TokKind::KwElse,
                            ) {
                                match sp_statement(src, toks, j4 + 1, e3, (fuel - 1) as nat) {
                                    PRes::Fail(o, m, e) => PRes::Fail(o, m, e),
                                    PRes::Done(el, j5, e4) => PRes::Done(
                                        Stmt::If(
                                            c,
                                            Box::new(th),
                                            Some(Box::new(el)),
                                            Span { start, end: sp_prev_end(toks, j5) },
                                        ),
                                        j5,
                                        e4,
                                    ),
                                }
                            } else {
                                PRes::Done(
                                    Stmt::If(
                                        c,
                                        Box::new(th),
                                        None,
                                        Span { start, end: sp_prev_end(toks, j4) },
                                    ),
                                    j4,
                                    e3,
                                )
                            },
                        },
                    },
                },
            },
            _ => match sp_assign_expr(src, toks, i, env, (fuel - 1) as nat) {
                PRes::Fail(o, m, e) => PRes::Fail(o, m, e),
                PRes::Done(ex, j, e2) => match sp_expect(toks, j, TokKind::Semi, n) {
                    Err(er) => PRes::Fail(er.0, er.1, e2),
                    Ok(j2) => PRes::Done(
                        Stmt::Expression(ex, Span { start, end: sp_prev_end(toks, j2) }),
                        j2,
                        e2,
                    ),
                },
            },
        }
    }
}

/// A compound statement.  It pushes a scope on entry and pops it on
/// every exit path, success or failure.
pub open spec fn sp_compound(src: Seq<u8>, toks: Seq<Tok>, i: int, env: Env, fuel: nat) -> PRes<
    Stmt,
>
    decreases fuel,
{
    let n = src.len() as int;
    if fuel == 0 {
        PRes::Fail(sp_tok_off(toks, i, n), 0, env)
    } else {
        let start = sp_tok_off(toks, i, n) as usize;
        match sp_expect(toks, i, TokKind::LBrace, n) {
            Err(er) => PRes::Fail(er.0, er.1, env),
            Ok(j) => {
                let e2 = sp_push(env);
                match sp_block_items(src, toks, j, e2, (fuel - 1) as nat) {
                    PRes::Fail(o, m, e3) => PRes::Fail(o, m, sp_pop(e3)),
                    PRes::Done(items, j2, e3) => PRes::Done(
                        Stmt::Compound(items, Span { start, end: sp_prev_end(toks, j2) }),
                        j2,
                        sp_pop(e3),
                    ),
                }
            },
        }
    }
}

/// The items of a compound statement, through the closing brace.
/// Each item is first read as a declaration and, where that fails,
/// as a statement; failures at the same offset are unioned, together
/// with the closing brace alternative.
pub open spec fn sp_block_items(src: Seq<u8>, toks: Seq<Tok>, i: int, env: Env, fuel: nat) -> PRes<
    List<BlockItem>,
>
    decreases fuel,
{
    let n = src.len() as int;
    if fuel == 0 {
        PRes::Fail(sp_tok_off(toks, i, n), 0, env)
    } else if sp_peek(toks, i) == Some(TokKind::RBrace) {
        PRes::Done(List::Nil, i + 1, env)
    } else {
        match sp_declaration(src, toks, i, env, (fuel - 1) as nat) {
            PRes::Done(d, j, e2) => match sp_block_items(src, toks, j, e2, (fuel - 1) as nat) {
                PRes::Fail(o, m, e) => PRes::Fail(o, m, e),
                PRes::Done(rest, j2, e3) => PRes::Done(
                    List::Cons(BlockItem::Declaration(d), Box::new(rest)),
                    j2,
                    e3,
                ),
            },
            PRes::Fail(o1, m1, e2) => match sp_statement(src, toks, i, e2, (fuel - 1) as nat) {
                PRes::Done(s, j, e3) => match sp_block_items(src, toks, j, e3, (fuel - 1) as nat) {
                    PRes::Fail(o, m, e) => PRes::Fail(o, m, e),
                    PRes::Done(rest, j2, e4) => PRes::Done(
                        List::Cons(BlockItem::Statement(Box::new(s)), Box::new(rest)),
                        j2,
                        e4,
                    ),
                },
                PRes::Fail(o2, m2, e3) => {
                    let (o3, m3) = sp_merge(o1, m1, o2, m2);
                    let (o4, m4) = sp_merge(o3, m3, sp_tok_off(toks, i, n), kind_mask(TokKind::RBrace));
                    PRes::Fail(o4, m4, e3)
                },
            },
        }
    }
}

/// One external declaration: a function definition or a declaration.
/// Under the GNU flavors it may be prefixed by `__extension__`.
pub open spec fn sp_external(src: Seq<u8>, toks: Seq<Tok>, i: int, env: Env, fuel: nat) -> PRes<
    ExternalDecl,
>
    decreases fuel,
{
    let n = src.len() as int;
    if fuel == 0 {
        PRes::Fail(sp_tok_off(toks, i, n), 0, env)
    } else if sp_peek(toks, i) == Some(TokKind::KwExtension) && sp_ext_active(
        env.flavor,
        TokKind::KwExtension,
    ) {
        sp_external(src, toks, i + 1, env, (fuel - 1) as nat)
    } else {
        let start = sp_tok_off(toks, i, n) as usize;
        match sp_specifiers(src, toks, i, env, true, false, (fuel - 1) as nat) {
            PRes::Fail(o, m, e) => PRes::Fail(o, m, e),
            PRes::Done((ht, specs), j, e2) => if specs == List::<TypeSpecifier>::Nil && !ht {
                PRes::Fail(sp_tok_off(toks, j, n), sp_type_mask(e2.flavor), e2)
            } else if sp_peek(toks, j) == Some(TokKind::Semi) {
                PRes::Done(
                    ExternalDecl::Declaration(
                        Declaration {
                            is_typedef: ht,
                            specifiers: specs,
                            declarators: List::Nil,
                            span: Span { start, end: sp_prev_end(toks, j + 1) },
                        },
                    ),
                    j + 1,
                    e2,
                )
            } else {
                match sp_declarator(src, toks, j, e2, true, (fuel - 1) as nat) {
                    PRes::Fail(o, m, e) => PRes::Fail(o, m, e),
                    PRes::Done(d, j2, e3) => if sp_peek(toks, j2) == Some(TokKind::LBrace) {
                        let e4 = sp_declare_decl(e3, d, false);
                        let e5 = sp_push(e4);
                        let e6 = sp_declare_params(e5, d.params);
                        match sp_compound(src, toks, j2, e6, (fuel - 1) as nat) {
                            PRes::Fail(o, m, e7) => PRes::Fail(o, m, sp_pop(e7)),
                            PRes::Done(body, j3, e7) => PRes::Done(
                                ExternalDecl::FunctionDef(
                                    specs,
                                    d,
                                    body,
                                    Span { start, end: sp_prev_end(toks, j3) },
                                ),
                                j3,
                                sp_pop(e7),
                            ),
                        }
                    } else {
                        match sp_idl_from(src, toks, d, j2, e3, ht, (fuel - 1) as nat) {
                            PRes::Fail(o, m, e) => PRes::Fail(o, m, e),
                            PRes::Done(l, j3, e4) => PRes::Done(
                                ExternalDecl::Declaration(
                                    Declaration {
                                        is_typedef: ht,
                                        specifiers: specs,
                                        declarators: l,
                                        span: Span { start, end: sp_prev_end(toks, j3) },
                                    },
                                ),
                                j3,
                                e4,
                            ),
                        }
                    },
                }
            },
        }
    }
}

/// The whole token stream as a translation unit; trailing tokens
/// that no external declaration consumes are a failure.
pub open spec fn sp_tu(src: Seq<u8>, toks: Seq<Tok>, i: int, env: Env, fuel: nat) -> PRes<
    List<ExternalDecl>,
>
    decreases fuel,
{
    let n = src.len() as int;
    if fuel == 0 {
        PRes::Fail(sp_tok_off(toks, i, n), 0, env)
    } else if i >= toks.len() {
        PRes::Done(List::Nil, i, env)
    } else {
        match sp_external(src, toks, i, env, (fuel - 1) as nat) {
            PRes::Fail(o, m, e) => PRes::Fail(o, m, e),
            PRes::Done(d, j, e2) => match sp_tu(src, toks, j, e2, (fuel - 1) as nat) {
                PRes::Fail(o, m, e) => PRes::Fail(o, m, e),
                PRes::Done(rest, j2, e3) => PRes::Done(List::Cons(d, Box::new(rest)), j2, e3),
            },
        }
    }
}

/// The parser's fuel for a stream of `n` tokens.  Each grammar rule
/// spends one unit per step, and every cycle of rules consumes a
/// token, so this bound never runs out on real input.
pub open spec fn sp_parse_fuel(n: nat) -> nat {
    if n < 0x0200_0000_0000_0000 {
        32 * (n + 1)
    } else {
        32 * 0x0200_0000_0000_0000
    }
}

/// Parse a token stream against a starting environment.
pub open spec fn sp_parse_toks(src: Seq<u8>, toks: Seq<Tok>, env: Env) -> Result<
    TranslationUnit,
    (int, u64),
> {
    match sp_tu(src, toks, 0, env, sp_parse_fuel(toks.len())) {
        PRes::Done(items, j, e) => Ok(TranslationUnit { items }),
        PRes::Fail(o, m, e) => Err((o, m)),
    }
}

/// The whole pipeline on bytes: tokenize, then parse.  This is the
/// mathematical function of text and starting environment that the
/// executable parser computes.
pub open spec fn sp_parse_env(bytes: Seq<u8>, env: Env) -> Result<TranslationUnit, (int, u64)> {
    match sp_lex(bytes) {
        Err(e) => Err(e),
        Ok(toks) => sp_parse_toks(bytes, toks, env),
    }
}

/// The parse as a function of text and flavor alone, with the fresh
/// environment of that flavor.
pub open spec fn sp_parse(bytes: Seq<u8>, flavor: Flavor) -> Result<TranslationUnit, (int, u64)> {
    sp_parse_env(bytes, sp_env_init(flavor))
}

/// The parse is a pure function of the text and the flavor: parsing
/// equal texts under equal flavors, each with a fresh environment,
/// yields equal results — in particular structurally identical
/// syntax trees — independent of any earlier parse or of anything
/// else a configuration holds.
pub proof fn lemma_parse_pure(bytes1: Seq<u8>, flavor1: Flavor, bytes2: Seq<u8>, flavor2: Flavor)
    requires
        bytes1 == bytes2,
        flavor1 == flavor2,
    ensures
        sp_parse(bytes1, flavor1) == sp_parse(bytes2, flavor2),
{
}

/// The description of the expected token at one bit index, in the
/// fixed (lexicographic) rendering order of the expected set.
pub open spec fn sp_desc(i: u64) -> Seq<char> {
    if i == 0 { "!"@ } else if i == 1 { "!="@ } else if i == 2 { "&"@ } else if i == 3 { "("@ }
    else if i == 4 { ")"@ } else if i == 5 { "*"@ } else if i == 6 { "+"@ } else if i == 7 { ","@ }
    else if i == 8 { "-"@ } else if i == 9 { "/"@ } else if i == 10 { ":"@ } else if i == 11 { ";"@ }
    else if i == 12 { "<"@ } else if i == 13 { "<="@ } else if i == 14 { "="@ } else if i == 15 { "=="@ }
    else if i == 16 { ">"@ } else if i == 17 { ">="@ } else if i == 18 { "?"@ } else if i == 19 { "["@ }
    else if i == 20 { "]"@ } else if i == 21 { "_Bool"@ } else if i == 22 { "_Nonnull"@ }
    else if i == 23 { "_Nullable"@ } else if i == 24 { "__extension__"@ } else if i == 25 { "char"@ }
    else if i == 26 { "character constant"@ } else if i == 27 { "character terminator"@ }
    else if i == 28 { "const"@ } else if i == 29 { "constant"@ } else if i == 30 { "else"@ }
    else if i == 31 { "enum"@ } else if i == 32 { "identifier"@ } else if i == 33 { "if"@ }
    else if i == 34 { "int"@ } else if i == 35 { "long"@ } else if i == 36 { "return"@ }
    else if i == 37 { "short"@ } else if i == 38 { "signed"@ } else if i == 39 { "string literal"@ }
    else if i == 40 { "string terminator"@ } else if i == 41 { "token"@ } else if i == 42 { "typedef"@ }
    else if i == 43 { "typeof"@ } else if i == 44 { "unsigned"@ } else if i == 45 { "void"@ }
    else if i == 46 { "{"@ } else if i == 47 { "}"@ } else { ""@ }
}

/// The executable description table.
pub fn desc_of(i: u64) -> (r: &'static str)
    ensures
        r@ == sp_desc(i),
{
    if i == 0 { "!" } else if i == 1 { "!=" } else if i == 2 { "&" } else if i == 3 { "(" }
    else if i == 4 { ")" } else if i == 5 { "*" } else if i == 6 { "+" } else if i == 7 { "," }
    else if i == 8 { "-" } else if i == 9 { "/" } else if i == 10 { ":" } else if i == 11 { ";" }
    else if i == 12 { "<" } else if i == 13 { "<=" } else if i == 14 { "=" } else if i == 15 { "==" }
    else if i == 16 { ">" } else if i == 17 { ">=" } else if i == 18 { "?" } else if i == 19 { "[" }
    else if i == 20 { "]" } else if i == 21 { "_Bool" } else if i == 22 { "_Nonnull" }
    else if i == 23 { "_Nullable" } else if i == 24 { "__extension__" } else if i == 25 { "char" }
    else if i == 26 { "character constant" } else if i == 27 { "character terminator" }
    else if i == 28 { "const" } else if i == 29 { "constant" } else if i == 30 { "else" }
    else if i == 31 { "enum" } else if i == 32 { "identifier" } else if i == 33 { "if" }
    else if i == 34 { "int" } else if i == 35 { "long" } else if i == 36 { "return" }
    else if i == 37 { "short" } else if i == 38 { "signed" } else if i == 39 { "string literal" }
    else if i == 40 { "string terminator" } else if i == 41 { "token" } else if i == 42 { "typedef" }
    else if i == 43 { "typeof" } else if i == 44 { "unsigned" } else if i == 45 { "void" }
    else if i == 46 { "{" } else if i == 47 { "}" } else { "" }
}

/// The descriptions of the expected set's bits below `k`, in bit
/// order.
pub open spec fn sp_expected_list(mask: u64, k: int) -> Seq<Seq<char>>
    decreases k,
{
    if k <= 0 {
        Seq::empty()
    } else if mask & (1u64 << ((k - 1) as u64)) != 0 {
        sp_expected_list(mask, k - 1) + seq![sp_desc((k - 1) as u64)]
    } else {
        sp_expected_list(mask, k - 1)
    }
}

/// The expected-token descriptions of a failure mask, deduplicated
/// and in the fixed sorted order.
pub fn expected_list(mask: u64) -> (r: Vec<String>)
    ensures
        r@.map_values(|s: String| s@) == sp_expected_list(mask, 48),
{
    let mut v: Vec<String> = Vec::new();
    proof {
        assert(v@.map_values(|s: String| s@) =~= sp_expected_list(mask, 0));
    }
    let mut i: u64 = 0;
    while i < 48
        invariant
            i <= 48,
            v@.map_values(|s: String| s@) == sp_expected_list(mask, i as int),
        decreases 48 - i,
    {
        if mask & (1u64 << i) != 0 {
            let d = desc_of(i);
            v.push(String::from_str(d));
        }
        proof {
            assert(v@.map_values(|s: String| s@) =~= sp_expected_list(mask, i + 1));
        }
        i += 1;
    }
    v
}

// ---------------------------------------------------------------------------
// Executable grammar rules, each proved equal to its specification.
// ---------------------------------------------------------------------------

fn declare_decl(env: &mut Env, d: &Declarator, ht: bool)
    ensures
        *final(env) == sp_declare_decl(*old(env), *d, ht),
{
    match &d.name {
        Some(nm) => {
            let kind = if ht {
                SymbolKind::TypeName
            } else {
                SymbolKind::OrdinaryIdentifier
            };
            env.declare(nm.start, nm.end, kind);
        },
        None => {},
    }
}

fn declare_param_list(env: &mut Env, l: &List<ParamDecl>)
    ensures
        *final(env) == sp_declare_param_list(*old(env), *l),
    decreases *l,
{
    match l {
        List::Nil => {},
        List::Cons(pd, tail) => {
            match &pd.declarator.name {
                Some(nm) => {
                    env.declare(nm.start, nm.end, SymbolKind::OrdinaryIdentifier);
                },
                None => {},
            }
            declare_param_list(env, &**tail);
        },
    }
}

fn declare_params(env: &mut Env, ps: &ParamSuffix)
    ensures
        *final(env) == sp_declare_params(*old(env), *ps),
{
    match ps {
        ParamSuffix::Params(l) => declare_param_list(env, l),
        _ => {},
    }
}

fn p_assign(src: &Vec<u8>, toks: &Vec<Tok>, i: usize, env: &mut Env, fuel: u64) -> (r: Result<
    (Expr, usize),
    PErr,
>)
    requires
        i <= toks@.len(),
    ensures
        match r {
            Ok(p) => sp_assign_expr(src@, toks@, i as int, *old(env), fuel as nat) == PRes::Done(
                p.0,
                p.1 as int,
                *final(env),
            ) && i <= p.1 <= toks@.len(),
            Err(e) => sp_assign_expr(src@, toks@, i as int, *old(env), fuel as nat) == PRes::<Expr>::Fail(
                e.off as int,
                e.mask,
                *final(env),
            ),
        },
    decreases fuel,
{
    if fuel == 0 {
        return Err(PErr { off: tok_off_x(src, toks, i), mask: 0 });
    }
    let _tl: usize = toks.len();
    match p_cond(src, toks, i, env, fuel - 1) {
        Err(e) => Err(e),
        Ok((l, j)) => {
            match peek_x(toks, j) {
                Some(TokKind::Assign) => match p_assign(src, toks, j + 1, env, fuel - 1) {
                    Err(e) => Err(e),
                    Ok((rhs, j2)) => Ok((Expr::Assign(Box::new(l), Box::new(rhs)), j2)),
                },
                _ => Ok((l, j)),
            }
        },
    }
}

fn p_cond(src: &Vec<u8>, toks: &Vec<Tok>, i: usize, env: &mut Env, fuel: u64) -> (r: Result<
    (Expr, usize),
    PErr,
>)
    requires
        i <= toks@.len(),
    ensures
        match r {
            Ok(p) => sp_cond_expr(src@, toks@, i as int, *old(env), fuel as nat) == PRes::Done(
                p.0,
                p.1 as int,
                *final(env),
            ) && i <= p.1 <= toks@.len(),
            Err(e) => sp_cond_expr(src@, toks@, i as int, *old(env), fuel as nat) == PRes::<Expr>::Fail(
                e.off as int,
                e.mask,
                *final(env),
            ),
        },
    decreases fuel,
{
    if fuel == 0 {
        return Err(PErr { off: tok_off_x(src, toks, i), mask: 0 });
    }
    let _tl: usize = toks.len();
    match p_binary(src, toks, i, env, 0, fuel - 1) {
        Err(e) => Err(e),
        Ok((c, j)) => {
            match peek_x(toks, j) {
                Some(TokKind::Question) => match p_assign(src, toks, j + 1, env, fuel - 1) {
                    Err(e) => Err(e),
                    Ok((t, j2)) => match expect_x(src, toks, j2, TokKind::Colon) {
                        Err(e) => Err(e),
                        Ok(j3) => match p_cond(src, toks, j3, env, fuel - 1) {
                            Err(e) => Err(e),
                            Ok((el, j4)) => Ok(
                                (
                                    Expr::Conditional(Box::new(c), Box::new(t), Box::new(el)),
                                    j4,
                                ),
                            ),
                        },
                    },
                },
                _ => Ok((c, j)),
            }
        },
    }
}

fn p_binary(src: &Vec<u8>, toks: &Vec<Tok>, i: usize, env: &mut Env, level: u32, fuel: u64) -> (r:
    Result<(Expr, usize), PErr>)
    requires
        i <= toks@.len(),
    ensures
        match r {
            Ok(p) => sp_binary_expr(src@, toks@, i as int, *old(env), level as int, fuel as nat)
                == PRes::Done(p.0, p.1 as int, *final(env)) && i <= p.1 <= toks@.len(),
            Err(e) => sp_binary_expr(src@, toks@, i as int, *old(env), level as int, fuel as nat)
                == PRes::<Expr>::Fail(e.off as int, e.mask, *final(env)),
        },
    decreases fuel,
{
    if fuel == 0 {
        return Err(PErr { off: tok_off_x(src, toks, i), mask: 0 });
    }
    let _tl: usize = toks.len();
    if level >= 4 {
        p_unary(src, toks, i, env, fuel - 1)
    } else {
        match p_binary(src, toks, i, env, level + 1, fuel - 1) {
            Err(e) => Err(e),
            Ok((l, j)) => p_binary_rest(src, toks, l, j, env, level, fuel - 1),
        }
    }
}

fn p_binary_rest(
    src: &Vec<u8>, toks: &Vec<Tok>, l: Expr, i: usize, env: &mut Env, level: u32, fuel: u64,
) -> (r: Result<(Expr, usize), PErr>)
    requires
        i <= toks@.len(),
    ensures
        match r {
            Ok(p) => sp_binary_rest(src@, toks@, l, i as int, *old(env), level as int, fuel as nat)
                == PRes::Done(p.0, p.1 as int, *final(env)) && i <= p.1 <= toks@.len(),
            Err(e) => sp_binary_rest(src@, toks@, l, i as int, *old(env), level as int, fuel as nat)
                == PRes::<Expr>::Fail(e.off as int, e.mask, *final(env)),
        },
    decreases fuel,
{
    if fuel == 0 {
        return Err(PErr { off: tok_off_x(src, toks, i), mask: 0 });
    }
    let _tl: usize = toks.len();
    let op = match peek_x(toks, i) {
        Some(k) => op_of_x(level, k),
        None => None,
    };
    match op {
        None => Ok((l, i)),
        Some(op) => match p_binary(src, toks, i + 1, env, level + 1, fuel - 1) {
            Err(e) => Err(e),
            Ok((rhs, j)) => p_binary_rest(
                src,
                toks,
                Expr::Binary(op, Box::new(l), Box::new(rhs)),
                j,
                env,
                level,
                fuel - 1,
            ),
        },
    }
}

fn p_unary(src: &Vec<u8>, toks: &Vec<Tok>, i: usize, env: &mut Env, fuel: u64) -> (r: Result<
    (Expr, usize),
    PErr,
>)
    requires
        i <= toks@.len(),
    ensures
        match r {
            Ok(p) => sp_unary_expr(src@, toks@, i as int, *old(env), fuel as nat) == PRes::Done(
                p.0,
                p.1 as int,
                *final(env),
            ) && i <= p.1 <= toks@.len(),
            Err(e) => sp_unary_expr(src@, toks@, i as int, *old(env), fuel as nat) == PRes::<Expr>::Fail(
                e.off as int,
                e.mask,
                *final(env),
            ),
        },
    decreases fuel,
{
    if fuel == 0 {
        return Err(PErr { off: tok_off_x(src, toks, i), mask: 0 });
    }
    let _tl: usize = toks.len();
    let op = match peek_x(toks, i) {
        Some(k) => unary_op_x(k),
        None => None,
    };
    match op {
        Some(op) => match p_unary(src, toks, i + 1, env, fuel - 1) {
            Err(e) => Err(e),
            Ok((sub, j)) => Ok((Expr::Unary(op, Box::new(sub)), j)),
        },
        None => p_primary(src, toks, i, env, fuel - 1),
    }
}

#[verifier::rlimit(60)]
fn p_primary(src: &Vec<u8>, toks: &Vec<Tok>, i: usize, env: &mut Env, fuel: u64) -> (r: Result<
    (Expr, usize),
    PErr,
>)
    requires
        i <= toks@.len(),
    ensures
        match r {
            Ok(p) => sp_primary_expr(src@, toks@, i as int, *old(env), fuel as nat) == PRes::Done(
                p.0,
                p.1 as int,
                *final(env),
            ) && i <= p.1 <= toks@.len(),
            Err(e) => sp_primary_expr(src@, toks@, i as int, *old(env), fuel as nat) == PRes::<Expr>::Fail(
                e.off as int,
                e.mask,
                *final(env),
            ),
        },
    decreases fuel,
{
    if fuel == 0 {
        return Err(PErr { off: tok_off_x(src, toks, i), mask: 0 });
    }
    let _tl: usize = toks.len();
    match peek_x(toks, i) {
        Some(TokKind::Ident) => Ok(
            (Expr::Ident(Span { start: toks[i].start, end: toks[i].end }), i + 1),
        ),
        Some(TokKind::IntConst) => Ok(
            (Expr::IntConst(Span { start: toks[i].start, end: toks[i].end }), i + 1),
        ),
        Some(TokKind::StrLit) => Ok(
            (Expr::StrLit(Span { start: toks[i].start, end: toks[i].end }), i + 1),
        ),
        Some(TokKind::CharConst) => Ok(
            (Expr::CharConst(Span { start: toks[i].start, end: toks[i].end }), i + 1),
        ),
        Some(TokKind::LParen) => {
            if starts_type_x(src, toks, i + 1, env) {
                match p_type_name(src, toks, i + 1, env, fuel - 1) {
                    Err(e) => Err(e),
                    Ok((tn, j)) => match expect_x(src, toks, j, TokKind::RParen) {
                        Err(e) => Err(e),
                        Ok(j2) => match p_unary(src, toks, j2, env, fuel - 1) {
                            Err(e) => Err(e),
                            Ok((sub, j3)) => Ok((Expr::Cast(Box::new(tn), Box::new(sub)), j3)),
                        },
                    },
                }
            } else {
                match p_assign(src, toks, i + 1, env, fuel - 1) {
                    Err(e) => Err(e),
                    Ok((sub, j)) => match expect_x(src, toks, j, TokKind::RParen) {
                        Err(e) => Err(e),
                        Ok(j2) => Ok((Expr::Paren(Box::new(sub)), j2)),
                    },
                }
            }
        },
        _ => Err(PErr { off: tok_off_x(src, toks, i), mask: primary_mask_x() }),
    }
}

fn p_quals(toks: &Vec<Tok>, i: usize, env: &Env, fuel: u64) -> (r: usize)
    requires
        i <= toks@.len(),
    ensures
        r as int == sp_quals(toks@, i as int, env.flavor, fuel as nat),
        i <= r <= toks@.len(),
    decreases fuel,
{
    if fuel == 0 {
        return i;
    }
    let _tl: usize = toks.len();
    match peek_x(toks, i) {
        Some(TokKind::KwConst) => p_quals(toks, i + 1, env, fuel - 1),
        Some(TokKind::KwNullable) | Some(TokKind::KwNonnull) => {
            if env.extension_active(TokKind::KwNullable) {
                p_quals(toks, i + 1, env, fuel - 1)
            } else {
                i
            }
        },
        _ => i,
    }
}

fn p_ptr(toks: &Vec<Tok>, i: usize, env: &Env, fuel: u64) -> (r: (usize, usize))
    requires
        i <= toks@.len(),
    ensures
        (r.0 as int, r.1 as int) == sp_ptr(toks@, i as int, env.flavor, fuel as nat),
        i <= r.1 <= toks@.len(),
    decreases fuel,
{
    if fuel == 0 {
        return (0, i);
    }
    let _tl: usize = toks.len();
    match peek_x(toks, i) {
        Some(TokKind::Star) => {
            let q = p_quals(toks, i + 1, env, fuel - 1);
            let (c, j) = p_ptr(toks, q, env, fuel - 1);
            proof {
                lemma_ptr_bounds(toks@, q as int, env.flavor, (fuel - 1) as nat);
            }
            (c + 1, j)
        },
        _ => (0, i),
    }
}

#[verifier::rlimit(100)]
fn p_type_name(src: &Vec<u8>, toks: &Vec<Tok>, i: usize, env: &mut Env, fuel: u64) -> (r: Result<
    (TypeName, usize),
    PErr,
>)
    requires
        i <= toks@.len(),
    ensures
        match r {
            Ok(p) => sp_type_name(src@, toks@, i as int, *old(env), fuel as nat) == PRes::Done(
                p.0,
                p.1 as int,
                *final(env),
            ) && i <= p.1 <= toks@.len(),
            Err(e) => sp_type_name(src@, toks@, i as int, *old(env), fuel as nat) == PRes::<TypeName>::Fail(
                e.off as int,
                e.mask,
                *final(env),
            ),
        },
    decreases fuel,
{
    if fuel == 0 {
        return Err(PErr { off: tok_off_x(src, toks, i), mask: 0 });
    }
    let _tl: usize = toks.len();
    match p_specifiers(src, toks, i, env, false, false, fuel - 1) {
        Err(e) => Err(e),
        Ok(((ht, specs), j)) => {
            match &specs {
                List::Nil => Err(PErr { off: tok_off_x(src, toks, j), mask: type_mask_x(env) }),
                _ => {
                    let (c, j2) = p_ptr(toks, j, env, fuel - 1);
                    Ok((TypeName { specifiers: specs, pointers: c }, j2))
                },
            }
        },
    }
}

#[verifier::rlimit(60)]
fn p_specifiers(
    src: &Vec<u8>, toks: &Vec<Tok>, i: usize, env: &mut Env, allow_storage: bool, seen_type: bool,
    fuel: u64,
) -> (r: Result<((bool, List<TypeSpecifier>), usize), PErr>)
    requires
        i <= toks@.len(),
    ensures
        match r {
            Ok(p) => sp_specifiers(
                src@,
                toks@,
                i as int,
                *old(env),
                allow_storage,
                seen_type,
                fuel as nat,
            ) == PRes::Done(p.0, p.1 as int, *final(env)) && i <= p.1 <= toks@.len(),
            Err(e) => sp_specifiers(
                src@,
                toks@,
                i as int,
                *old(env),
                allow_storage,
                seen_type,
                fuel as nat,
            ) == PRes::<(bool, List<TypeSpecifier>)>::Fail(e.off as int, e.mask, *final(env)),
        },
    decreases fuel,
{
    if fuel == 0 {
        return Err(PErr { off: tok_off_x(src, toks, i), mask: 0 });
    }
    let _tl: usize = toks.len();
    match peek_x(toks, i) {
        None => Ok(((false, List::Nil), i)),
        Some(k) => {
            if k == TokKind::KwTypedef && allow_storage {
                match p_specifiers(src, toks, i + 1, env, allow_storage, seen_type, fuel - 1) {
                    Err(e) => Err(e),
                    Ok(((_ht, l), j)) => Ok(((true, l), j)),
                }
            } else {
                match simple_spec_x(k) {
                    Some((ts, is_type)) => {
                        match p_specifiers(
                            src,
                            toks,
                            i + 1,
                            env,
                            allow_storage,
                            seen_type || is_type,
                            fuel - 1,
                        ) {
                            Err(e) => Err(e),
                            Ok(((ht, l), j)) => Ok(((ht, List::Cons(ts, Box::new(l))), j)),
                        }
                    },
                    None => {
                        if k == TokKind::KwEnum {
                            match p_enum_spec(src, toks, i, env, fuel - 1) {
                                Err(e) => Err(e),
                                Ok((ts, j)) => match p_specifiers(
                                    src,
                                    toks,
                                    j,
                                    env,
                                    allow_storage,
                                    true,
                                    fuel - 1,
                                ) {
                                    Err(e) => Err(e),
                                    Ok(((ht, l), j2)) => Ok(
                                        ((ht, List::Cons(ts, Box::new(l))), j2),
                                    ),
                                },
                            }
                        } else if k == TokKind::KwTypeof && env.extension_active(k) {
                            match expect_x(src, toks, i + 1, TokKind::LParen) {
                                Err(e) => Err(e),
                                Ok(j) => match p_assign(src, toks, j, env, fuel - 1) {
                                    Err(e) => Err(e),
                                    Ok((ex, j2)) => match expect_x(src, toks, j2, TokKind::RParen) {
                                        Err(e) => Err(e),
                                        Ok(j3) => match p_specifiers(
                                            src,
                                            toks,
                                            j3,
                                            env,
                                            allow_storage,
                                            true,
                                            fuel - 1,
                                        ) {
                                            Err(e) => Err(e),
                                            Ok(((ht, l), j4)) => Ok(
                                                (
                                                    (
                                                        ht,
                                                        List::Cons(
                                                            TypeSpecifier::Typeof(Box::new(ex)),
                                                            Box::new(l),
                                                        ),
                                                    ),
                                                    j4,
                                                ),
                                            ),
                                        },
                                    },
                                },
                            }
                        } else if k == TokKind::Ident && !seen_type && env.is_typedef_name(
                            src,
                            toks[i].start,
                            toks[i].end,
                        ) {
                            let sp = Span { start: toks[i].start, end: toks[i].end };
                            match p_specifiers(src, toks, i + 1, env, allow_storage, true, fuel - 1) {
                                Err(e) => Err(e),
                                Ok(((ht, l), j)) => Ok(
                                    ((ht, List::Cons(TypeSpecifier::Named(sp), Box::new(l))), j),
                                ),
                            }
                        } else {
                            Ok(((false, List::Nil), i))
                        }
                    },
                }
            }
        },
    }
}

fn p_enum_spec(src: &Vec<u8>, toks: &Vec<Tok>, i: usize, env: &mut Env, fuel: u64) -> (r: Result<
    (TypeSpecifier, usize),
    PErr,
>)
    requires
        i <= toks@.len(),
    ensures
        match r {
            Ok(p) => sp_enum_spec(src@, toks@, i as int, *old(env), fuel as nat) == PRes::Done(
                p.0,
                p.1 as int,
                *final(env),
            ) && i <= p.1 <= toks@.len(),
            Err(e) => sp_enum_spec(src@, toks@, i as int, *old(env), fuel as nat) == PRes::<TypeSpecifier>::Fail(
                e.off as int,
                e.mask,
                *final(env),
            ),
        },
    decreases fuel,
{
    if fuel == 0 {
        return Err(PErr { off: tok_off_x(src, toks, i), mask: 0 });
    }
    let _tl: usize = toks.len();
    match expect_x(src, toks, i, TokKind::KwEnum) {
        Err(e) => Err(e),
        Ok(j) => {
            let tag: Option<Span> = match peek_x(toks, j) {
                Some(TokKind::Ident) => Some(Span { start: toks[j].start, end: toks[j].end }),
                _ => None,
            };
            let j2 = if tag.is_some() {
                j + 1
            } else {
                j
            };
            let is_brace = match peek_x(toks, j2) {
                Some(TokKind::LBrace) => true,
                _ => false,
            };
            if is_brace {
                match p_enumerators(src, toks, j2 + 1, env, fuel - 1) {
                    Err(e) => Err(e),
                    Ok((names, j3)) => Ok((TypeSpecifier::Enum(tag, names), j3)),
                }
            } else if tag.is_some() {
                Ok((TypeSpecifier::Enum(tag, List::Nil), j2))
            } else {
                Err(
                    PErr {
                        off: tok_off_x(src, toks, j2),
                        mask: kind_mask_x(TokKind::Ident) | kind_mask_x(TokKind::LBrace),
                    },
                )
            }
        },
    }
}

fn p_enumerators(src: &Vec<u8>, toks: &Vec<Tok>, i: usize, env: &mut Env, fuel: u64) -> (r: Result<
    (List<Span>, usize),
    PErr,
>)
    requires
        i <= toks@.len(),
    ensures
        match r {
            Ok(p) => sp_enumerators(src@, toks@, i as int, *old(env), fuel as nat) == PRes::Done(
                p.0,
                p.1 as int,
                *final(env),
            ) && i <= p.1 <= toks@.len(),
            Err(e) => sp_enumerators(src@, toks@, i as int, *old(env), fuel as nat) == PRes::<List<Span>>::Fail(
                e.off as int,
                e.mask,
                *final(env),
            ),
        },
    decreases fuel,
{
    if fuel == 0 {
        return Err(PErr { off: tok_off_x(src, toks, i), mask: 0 });
    }
    let _tl: usize = toks.len();
    let is_ident = match peek_x(toks, i) {
        Some(TokKind::Ident) => true,
        _ => false,
    };
    if is_ident {
        let nm = Span { start: toks[i].start, end: toks[i].end };
        env.declare(nm.start, nm.end, SymbolKind::EnumerationConstant);
        match peek_x(toks, i + 1) {
            Some(TokKind::Comma) => {
                let brace_next = match peek_x(toks, i + 2) {
                    Some(TokKind::RBrace) => true,
                    _ => false,
                };
                if brace_next {
                    Ok((List::Cons(nm, Box::new(List::Nil)), i + 3))
                } else {
                    match p_enumerators(src, toks, i + 2, env, fuel - 1) {
                        Err(e) => Err(e),
                        Ok((rest, j)) => Ok((List::Cons(nm, Box::new(rest)), j)),
                    }
                }
            },
            Some(TokKind::RBrace) => Ok((List::Cons(nm, Box::new(List::Nil)), i + 2)),
            _ => Err(
                PErr {
                    off: tok_off_x(src, toks, i + 1),
                    mask: kind_mask_x(TokKind::Comma) | kind_mask_x(TokKind::RBrace),
                },
            ),
        }
    } else {
        Err(PErr { off: tok_off_x(src, toks, i), mask: kind_mask_x(TokKind::Ident) })
    }
}

#[verifier::rlimit(100)]
fn p_declarator(
    src: &Vec<u8>, toks: &Vec<Tok>, i: usize, env: &mut Env, require_name: bool, fuel: u64,
) -> (r: Result<(Declarator, usize), PErr>)
    requires
        i <= toks@.len(),
    ensures
        match r {
            Ok(p) => sp_declarator(src@, toks@, i as int, *old(env), require_name, fuel as nat)
                == PRes::Done(p.0, p.1 as int, *final(env)) && i <= p.1 <= toks@.len(),
            Err(e) => sp_declarator(src@, toks@, i as int, *old(env), require_name, fuel as nat)
                == PRes::<Declarator>::Fail(e.off as int, e.mask, *final(env)),
        },
    decreases fuel,
{
    if fuel == 0 {
        return Err(PErr { off: tok_off_x(src, toks, i), mask: 0 });
    }
    let _tl: usize = toks.len();
    let (c, j) = p_ptr(toks, i, env, fuel - 1);
    let name: Option<Span> = match peek_x(toks, j) {
        Some(TokKind::Ident) => Some(Span { start: toks[j].start, end: toks[j].end }),
        _ => None,
    };
    let j2 = if name.is_some() {
        j + 1
    } else {
        j
    };
    if require_name && name.is_none() {
        return Err(PErr { off: tok_off_x(src, toks, j), mask: kind_mask_x(TokKind::Ident) });
    }
    let is_lparen = match peek_x(toks, j2) {
        Some(TokKind::LParen) => true,
        _ => false,
    };
    if is_lparen {
        let empty1 = match peek_x(toks, j2 + 1) {
            Some(TokKind::RParen) => true,
            _ => false,
        };
        if empty1 {
            return Ok((Declarator { pointers: c, name, params: ParamSuffix::Empty }, j2 + 2));
        }
        let void_first = match peek_x(toks, j2 + 1) {
            Some(TokKind::KwVoid) => true,
            _ => false,
        };
        let void_params = if void_first {
            match peek_x(toks, j2 + 2) {
                Some(TokKind::RParen) => true,
                _ => false,
            }
        } else {
            false
        };
        if void_params {
            return Ok((Declarator { pointers: c, name, params: ParamSuffix::Empty }, j2 + 3));
        }
        match p_params(src, toks, j2 + 1, env, fuel - 1) {
            Err(e) => Err(e),
            Ok((ps, j3)) => Ok(
                (Declarator { pointers: c, name, params: ParamSuffix::Params(ps) }, j3),
            ),
        }
    } else {
        Ok((Declarator { pointers: c, name, params: ParamSuffix::Absent }, j2))
    }
}

fn p_params(src: &Vec<u8>, toks: &Vec<Tok>, i: usize, env: &mut Env, fuel: u64) -> (r: Result<
    (List<ParamDecl>, usize),
    PErr,
>)
    requires
        i <= toks@.len(),
    ensures
        match r {
            Ok(p) => sp_params(src@, toks@, i as int, *old(env), fuel as nat) == PRes::Done(
                p.0,
                p.1 as int,
                *final(env),
            ) && i <= p.1 <= toks@.len(),
            Err(e) => sp_params(src@, toks@, i as int, *old(env), fuel as nat) == PRes::<
                List<ParamDecl>,
            >::Fail(e.off as int, e.mask, *final(env)),
        },
    decreases fuel,
{
    if fuel == 0 {
        return Err(PErr { off: tok_off_x(src, toks, i), mask: 0 });
    }
    let _tl: usize = toks.len();
    match p_param_decl(src, toks, i, env, fuel - 1) {
        Err(e) => Err(e),
        Ok((pd, j)) => {
            let is_comma = match peek_x(toks, j) {
                Some(TokKind::Comma) => true,
                _ => false,
            };
            if is_comma {
                match p_params(src, toks, j + 1, env, fuel - 1) {
                    Err(e) => Err(e),
                    Ok((rest, j2)) => Ok((List::Cons(pd, Box::new(rest)), j2)),
                }
            } else {
                match expect_x(src, toks, j, TokKind::RParen) {
                    Err(e) => Err(
                        PErr { off: e.off, mask: e.mask | kind_mask_x(TokKind::Comma) },
                    ),
                    Ok(j2) => Ok((List::Cons(pd, Box::new(List::Nil)), j2)),
                }
            }
        },
    }
}

fn p_param_decl(src: &Vec<u8>, toks: &Vec<Tok>, i: usize, env: &mut Env, fuel: u64) -> (r: Result<
    (ParamDecl, usize),
    PErr,
>)
    requires
        i <= toks@.len(),
    ensures
        match r {
            Ok(p) => sp_param_decl(src@, toks@, i as int, *old(env), fuel as nat) == PRes::Done(
                p.0,
                p.1 as int,
                *final(env),
            ) && i <= p.1 <= toks@.len(),
            Err(e) => sp_param_decl(src@, toks@, i as int, *old(env), fuel as nat) == PRes::<
                ParamDecl,
            >::Fail(e.off as int, e.mask, *final(env)),
        },
    decreases fuel,
{
    if fuel == 0 {
        return Err(PErr { off: tok_off_x(src, toks, i), mask: 0 });
    }
    match p_specifiers(src, toks, i, env, false, false, fuel - 1) {
        Err(e) => Err(e),
        Ok(((_ht, specs), j)) => {
            match &specs {
                List::Nil => Err(PErr { off: tok_off_x(src, toks, j), mask: type_mask_x(env) }),
                _ => match p_declarator(src, toks, j, env, false, fuel - 1) {
                    Err(e) => Err(e),
                    Ok((d, j2)) => Ok(
                        (ParamDecl { specifiers: specs, declarator: Box::new(d) }, j2),
                    ),
                },
            }
        },
    }
}

fn p_idl_from(
    src: &Vec<u8>, toks: &Vec<Tok>, d: Declarator, i: usize, env: &mut Env, ht: bool, fuel: u64,
) -> (r: Result<(List<InitDeclarator>, usize), PErr>)
    requires
        i <= toks@.len(),
    ensures
        match r {
            Ok(p) => sp_idl_from(src@, toks@, d, i as int, *old(env), ht, fuel as nat)
                == PRes::Done(p.0, p.1 as int, *final(env)) && i <= p.1 <= toks@.len(),
            Err(e) => sp_idl_from(src@, toks@, d, i as int, *old(env), ht, fuel as nat) == PRes::<
                List<InitDeclarator>,
            >::Fail(e.off as int, e.mask, *final(env)),
        },
    decreases fuel,
{
    if fuel == 0 {
        return Err(PErr { off: tok_off_x(src, toks, i), mask: 0 });
    }
    let _tl: usize = toks.len();
    declare_decl(env, &d, ht);
    let is_assign = match peek_x(toks, i) {
        Some(TokKind::Assign) => true,
        _ => false,
    };
    if is_assign {
        match p_assign(src, toks, i + 1, env, fuel - 1) {
            Err(e) => Err(e),
            Ok((ex, j)) => p_idl_tail(
                src,
                toks,
                InitDeclarator { declarator: d, init: Some(ex) },
                j,
                env,
                ht,
                fuel - 1,
            ),
        }
    } else {
        p_idl_tail(src, toks, InitDeclarator { declarator: d, init: None }, i, env, ht, fuel - 1)
    }
}

fn p_idl_tail(
    src: &Vec<u8>, toks: &Vec<Tok>, id: InitDeclarator, i: usize, env: &mut Env, ht: bool,
    fuel: u64,
) -> (r: Result<(List<InitDeclarator>, usize), PErr>)
    requires
        i <= toks@.len(),
    ensures
        match r {
            Ok(p) => sp_idl_tail(src@, toks@, id, i as int, *old(env), ht, fuel as nat)
                == PRes::Done(p.0, p.1 as int, *final(env)) && i <= p.1 <= toks@.len(),
            Err(e) => sp_idl_tail(src@, toks@, id, i as int, *old(env), ht, fuel as nat) == PRes::<
                List<InitDeclarator>,
            >::Fail(e.off as int, e.mask, *final(env)),
        },
    decreases fuel,
{
    if fuel == 0 {
        return Err(PErr { off: tok_off_x(src, toks, i), mask: 0 });
    }
    let _tl: usize = toks.len();
    let is_comma = match peek_x(toks, i) {
        Some(TokKind::Comma) => true,
        _ => false,
    };
    if is_comma {
        match p_declarator(src, toks, i + 1, env, true, fuel - 1) {
            Err(e) => Err(e),
            Ok((d2, j)) => match p_idl_from(src, toks, d2, j, env, ht, fuel - 1) {
                Err(e) => Err(e),
                Ok((rest, j2)) => Ok((List::Cons(id, Box::new(rest)), j2)),
            },
        }
    } else {
        match expect_x(src, toks, i, TokKind::Semi) {
            Err(e) => Err(PErr { off: e.off, mask: e.mask | kind_mask_x(TokKind::Comma) }),
            Ok(j) => Ok((List::Cons(id, Box::new(List::Nil)), j)),
        }
    }
}

#[verifier::rlimit(100)]
fn p_declaration(src: &Vec<u8>, toks: &Vec<Tok>, i: usize, env: &mut Env, fuel: u64) -> (r: Result<
    (Declaration, usize),
    PErr,
>)
    requires
        i <= toks@.len(),
    ensures
        match r {
            Ok(p) => sp_declaration(src@, toks@, i as int, *old(env), fuel as nat) == PRes::Done(
                p.0,
                p.1 as int,
                *final(env),
            ) && i <= p.1 <= toks@.len(),
            Err(e) => sp_declaration(src@, toks@, i as int, *old(env), fuel as nat) == PRes::<
                Declaration,
            >::Fail(e.off as int, e.mask, *final(env)),
        },
    decreases fuel,
{
    if fuel == 0 {
        return Err(PErr { off: tok_off_x(src, toks, i), mask: 0 });
    }
    let _tl: usize = toks.len();
    let start = tok_off_x(src, toks, i);
    match p_specifiers(src, toks, i, env, true, false, fuel - 1) {
        Err(e) => Err(e),
        Ok(((ht, specs), j)) => {
            let is_nil = match &specs {
                List::Nil => true,
                _ => false,
            };
            if is_nil && !ht {
                return Err(PErr { off: tok_off_x(src, toks, j), mask: type_mask_x(env) });
            }
            let is_semi = match peek_x(toks, j) {
                Some(TokKind::Semi) => true,
                _ => false,
            };
            if is_semi {
                Ok(
                    (
                        Declaration {
                            is_typedef: ht,
                            specifiers: specs,
                            declarators: List::Nil,
                            span: Span { start, end: prev_end_x(toks, j + 1) },
                        },
                        j + 1,
                    ),
                )
            } else {
                match p_declarator(src, toks, j, env, true, fuel - 1) {
                    Err(e) => Err(e),
                    Ok((d, j2)) => match p_idl_from(src, toks, d, j2, env, ht, fuel - 1) {
                        Err(e) => Err(e),
                        Ok((l, j3)) => Ok(
                            (
                                Declaration {
                                    is_typedef: ht,
                                    specifiers: specs,
                                    declarators: l,
                                    span: Span { start, end: prev_end_x(toks, j3) },
                                },
                                j3,
                            ),
                        ),
                    },
                }
            }
        },
    }
}

#[verifier::rlimit(100)]
fn p_statement(src: &Vec<u8>, toks: &Vec<Tok>, i: usize, env: &mut Env, fuel: u64) -> (r: Result<
    (Stmt, usize),
    PErr,
>)
    requires
        i <= toks@.len(),
    ensures
        match r {
            Ok(p) => sp_statement(src@, toks@, i as int, *old(env), fuel as nat) == PRes::Done(
                p.0,
                p.1 as int,
                *final(env),
            ) && i <= p.1 <= toks@.len(),
            Err(e) => sp_statement(src@, toks@, i as int, *old(env), fuel as nat) == PRes::<
                Stmt,
            >::Fail(e.off as int, e.mask, *final(env)),
        },
    decreases fuel,
{
    if fuel == 0 {
        return Err(PErr { off: tok_off_x(src, toks, i), mask: 0 });
    }
    let _tl: usize = toks.len();
    let start = tok_off_x(src, toks, i);
    match peek_x(toks, i) {
        Some(TokKind::LBrace) => p_compound(src, toks, i, env, fuel - 1),
        Some(TokKind::Semi) => Ok(
            (Stmt::Empty(Span { start, end: prev_end_x(toks, i + 1) }), i + 1),
        ),
        Some(TokKind::KwReturn) => {
            let semi_next = match peek_x(toks, i + 1) {
                Some(TokKind::Semi) => true,
                _ => false,
            };
            if semi_next {
                Ok((Stmt::Return(None, Span { start, end: prev_end_x(toks, i + 2) }), i + 2))
            } else {
                match p_assign(src, toks, i + 1, env, fuel - 1) {
                    Err(e) => Err(e),
                    Ok((ex, j)) => match expect_x(src, toks, j, TokKind::Semi) {
                        Err(e) => Err(e),
                        Ok(j2) => Ok(
                            (
                                Stmt::Return(
                                    Some(ex),
                                    Span { start, end: prev_end_x(toks, j2) },
                                ),
                                j2,
                            ),
                        ),
                    },
                }
            }
        },
        Some(TokKind::KwIf) => match expect_x(src, toks, i + 1, TokKind::LParen) {
            Err(e) => Err(e),
            Ok(j) => match p_assign(src, toks, j, env, fuel - 1) {
                Err(e) => Err(e),
                Ok((c, j2)) => match expect_x(src, toks, j2, TokKind::RParen) {
                    Err(e) => Err(e),
                    Ok(j3) => match p_statement(src, toks, j3, env, fuel - 1) {
                        Err(e) => Err(e),
                        Ok((th, j4)) => {
                            let has_else = match peek_x(toks, j4) {
                                Some(TokKind::KwElse) => true,
                                _ => false,
                            };
                            if has_else {
                                match p_statement(src, toks, j4 + 1, env, fuel - 1) {
                                    Err(e) => Err(e),
                                    Ok((el, j5)) => Ok(
                                        (
                                            Stmt::If(
                                                c,
                                                Box::new(th),
                                                Some(Box::new(el)),
                                                Span { start, end: prev_end_x(toks, j5) },
                                            ),
                                            j5,
                                        ),
                                    ),
                                }
                            } else {
                                Ok(
                                    (
                                        Stmt::If(
                                            c,
                                            Box::new(th),
                                            None,
                                            Span { start, end: prev_end_x(toks, j4) },
                                        ),
                                        j4,
                                    ),
                                )
                            }
                        },
                    },
                },
            },
        },
        _ => match p_assign(src, toks, i, env, fuel - 1) {
            Err(e) => Err(e),
            Ok((ex, j)) => match expect_x(src, toks, j, TokKind::Semi) {
                Err(e) => Err(e),
                Ok(j2) => Ok(
                    (Stmt::Expression(ex, Span { start, end: prev_end_x(toks, j2) }), j2),
                ),
            },
        },
    }
}

fn p_compound(src: &Vec<u8>, toks: &Vec<Tok>, i: usize, env: &mut Env, fuel: u64) -> (r: Result<
    (Stmt, usize),
    PErr,
>)
    requires
        i <= toks@.len(),
    ensures
        match r {
            Ok(p) => sp_compound(src@, toks@, i as int, *old(env), fuel as nat) == PRes::Done(
                p.0,
                p.1 as int,
                *final(env),
            ) && i <= p.1 <= toks@.len(),
            Err(e) => sp_compound(src@, toks@, i as int, *old(env), fuel as nat) == PRes::<
                Stmt,
            >::Fail(e.off as int, e.mask, *final(env)),
        },
    decreases fuel,
{
    if fuel == 0 {
        return Err(PErr { off: tok_off_x(src, toks, i), mask: 0 });
    }
    let start = tok_off_x(src, toks, i);
    match expect_x(src, toks, i, TokKind::LBrace) {
        Err(e) => Err(e),
        Ok(j) => {
            env.push_scope();
            match p_block_items(src, toks, j, env, fuel - 1) {
                Err(e) => {
                    env.pop_scope();
                    Err(e)
                },
                Ok((items, j2)) => {
                    env.pop_scope();
                    Ok((Stmt::Compound(items, Span { start, end: prev_end_x(toks, j2) }), j2))
                },
            }
        },
    }
}

#[verifier::rlimit(100)]
fn p_block_items(src: &Vec<u8>, toks: &Vec<Tok>, i: usize, env: &mut Env, fuel: u64) -> (r: Result<
    (List<BlockItem>, usize),
    PErr,
>)
    requires
        i <= toks@.len(),
    ensures
        match r {
            Ok(p) => sp_block_items(src@, toks@, i as int, *old(env), fuel as nat) == PRes::Done(
                p.0,
                p.1 as int,
                *final(env),
            ) && i <= p.1 <= toks@.len(),
            Err(e) => sp_block_items(src@, toks@, i as int, *old(env), fuel as nat) == PRes::<
                List<BlockItem>,
            >::Fail(e.off as int, e.mask, *final(env)),
        },
    decreases fuel,
{
    if fuel == 0 {
        return Err(PErr { off: tok_off_x(src, toks, i), mask: 0 });
    }
    let _tl: usize = toks.len();
    let is_rbrace = match peek_x(toks, i) {
        Some(TokKind::RBrace) => true,
        _ => false,
    };
    if is_rbrace {
        return Ok((List::Nil, i + 1));
    }
    match p_declaration(src, toks, i, env, fuel - 1) {
        Ok((d, j)) => match p_block_items(src, toks, j, env, fuel - 1) {
            Err(e) => Err(e),
            Ok((rest, j2)) => Ok((List::Cons(BlockItem::Declaration(d), Box::new(rest)), j2)),
        },
        Err(e1) => match p_statement(src, toks, i, env, fuel - 1) {
            Ok((s, j)) => match p_block_items(src, toks, j, env, fuel - 1) {
                Err(e) => Err(e),
                Ok((rest, j2)) => Ok(
                    (List::Cons(BlockItem::Statement(Box::new(s)), Box::new(rest)), j2),
                ),
            },
            Err(e2) => {
                let e3 = merge_x(e1, e2);
                let e4 = merge_x(
                    e3,
                    PErr { off: tok_off_x(src, toks, i), mask: kind_mask_x(TokKind::RBrace) },
                );
                Err(e4)
            },
        },
    }
}

#[verifier::rlimit(100)]
fn p_external(src: &Vec<u8>, toks: &Vec<Tok>, i: usize, env: &mut Env, fuel: u64) -> (r: Result<
    (ExternalDecl, usize),
    PErr,
>)
    requires
        i <= toks@.len(),
    ensures
        match r {
            Ok(p) => sp_external(src@, toks@, i as int, *old(env), fuel as nat) == PRes::Done(
                p.0,
                p.1 as int,
                *final(env),
            ) && i <= p.1 <= toks@.len(),
            Err(e) => sp_external(src@, toks@, i as int, *old(env), fuel as nat) == PRes::<
                ExternalDecl,
            >::Fail(e.off as int, e.mask, *final(env)),
        },
    decreases fuel,
{
    if fuel == 0 {
        return Err(PErr { off: tok_off_x(src, toks, i), mask: 0 });
    }
    let _tl: usize = toks.len();
    let ext_prefix = match peek_x(toks, i) {
        Some(TokKind::KwExtension) => env.extension_active(TokKind::KwExtension),
        _ => false,
    };
    if ext_prefix {
        return p_external(src, toks, i + 1, env, fuel - 1);
    }
    let start = tok_off_x(src, toks, i);
    match p_specifiers(src, toks, i, env, true, false, fuel - 1) {
        Err(e) => Err(e),
        Ok(((ht, specs), j)) => {
            let is_nil = match &specs {
                List::Nil => true,
                _ => false,
            };
            if is_nil && !ht {
                return Err(PErr { off: tok_off_x(src, toks, j), mask: type_mask_x(env) });
            }
            let is_semi = match peek_x(toks, j) {
                Some(TokKind::Semi) => true,
                _ => false,
            };
            if is_semi {
                return Ok(
                    (
                        ExternalDecl::Declaration(
                            Declaration {
                                is_typedef: ht,
                                specifiers: specs,
                                declarators: List::Nil,
                                span: Span { start, end: prev_end_x(toks, j + 1) },
                            },
                        ),
                        j + 1,
                    ),
                );
            }
            match p_declarator(src, toks, j, env, true, fuel - 1) {
                Err(e) => Err(e),
                Ok((d, j2)) => {
                    let is_lbrace = match peek_x(toks, j2) {
                        Some(TokKind::LBrace) => true,
                        _ => false,
                    };
                    if is_lbrace {
                        declare_decl(env, &d, false);
                        env.push_scope();
                        declare_params(env, &d.params);
                        match p_compound(src, toks, j2, env, fuel - 1) {
                            Err(e) => {
                                env.pop_scope();
                                Err(e)
                            },
                            Ok((body, j3)) => {
                                env.pop_scope();
                                Ok(
                                    (
                                        ExternalDecl::FunctionDef(
                                            specs,
                                            d,
                                            body,
                                            Span { start, end: prev_end_x(toks, j3) },
                                        ),
                                        j3,
                                    ),
                                )
                            },
                        }
                    } else {
                        match p_idl_from(src, toks, d, j2, env, ht, fuel - 1) {
                            Err(e) => Err(e),
                            Ok((l, j3)) => Ok(
                                (
                                    ExternalDecl::Declaration(
                                        Declaration {
                                            is_typedef: ht,
                                            specifiers: specs,
                                            declarators: l,
                                            span: Span { start, end: prev_end_x(toks, j3) },
                                        },
                                    ),
                                    j3,
                                ),
                            ),
                        }
                    }
                },
            }
        },
    }
}

fn p_tu(src: &Vec<u8>, toks: &Vec<Tok>, i: usize, env: &mut Env, fuel: u64) -> (r: Result<
    (List<ExternalDecl>, usize),
    PErr,
>)
    requires
        i <= toks@.len(),
    ensures
        match r {
            Ok(p) => sp_tu(src@, toks@, i as int, *old(env), fuel as nat) == PRes::Done(
                p.0,
                p.1 as int,
                *final(env),
            ) && i <= p.1 <= toks@.len(),
            Err(e) => sp_tu(src@, toks@, i as int, *old(env), fuel as nat) == PRes::<
                List<ExternalDecl>,
            >::Fail(e.off as int, e.mask, *final(env)),
        },
    decreases fuel,
{
    if fuel == 0 {
        return Err(PErr { off: tok_off_x(src, toks, i), mask: 0 });
    }
    if i >= toks.len() {
        return Ok((List::Nil, i));
    }
    match p_external(src, toks, i, env, fuel - 1) {
        Err(e) => Err(e),
        Ok((d, j)) => match p_tu(src, toks, j, env, fuel - 1) {
            Err(e) => Err(e),
            Ok((rest, j2)) => Ok((List::Cons(d, Box::new(rest)), j2)),
        },
    }
}

fn parse_fuel(n: usize) -> (r: u64)
    ensures
        r as nat == sp_parse_fuel(n as nat),
{
    if (n as u64) < 0x0200_0000_0000_0000u64 {
        32 * ((n as u64) + 1)
    } else {
        32u64 * 0x0200_0000_0000_0000u64
    }
}

/// Parse a whole preprocessed text against a starting environment:
/// tokenize, then read a translation unit that must consume every
/// token.  The result is exactly the mathematical parse
/// `sp_parse_env` of the text bytes and the starting environment.
pub fn translation_unit(src: &Vec<u8>, env: &mut Env) -> (r: Result<TranslationUnit, PErr>)
    ensures
        match r {
            Ok(tu) => sp_parse_env(src@, *old(env)) == Ok::<TranslationUnit, (int, u64)>(tu),
            Err(e) => sp_parse_env(src@, *old(env)) == Err::<TranslationUnit, (int, u64)>(
                (e.off as int, e.mask),
            ),
        },
{
    match lex(src) {
        Err(e) => Err(e),
        Ok(toks) => {
            let fuel = parse_fuel(toks.len());
            match p_tu(src, &toks, 0, env, fuel) {
                Ok((items, _j)) => Ok(TranslationUnit { items }),
                Err(e) => Err(e),
            }
        },
    }
}

} // verus!
