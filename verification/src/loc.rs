//! The location resolver: map a byte offset in preprocessed text
//! back to an original-file line, chasing preprocessor line markers
//! of the form `# <line> "<file>" <flags>`.
//!
//! The resolver is total: a malformed marker is treated as ordinary
//! text and only degrades the answer, it never fails.

use vstd::prelude::*;
use crate::ast::List;
use crate::env::span_text;
use vstd::utf8::{decode_utf8, valid_utf8};
use vstd::string::StringSliceAdditionalSpecFns;

verus! {

/// A resolved location: the file name and line number reported by
/// the preprocessor's bookkeeping.
#[derive(PartialEq, Eq, Debug)]
pub struct Location {
    pub file: String,
    pub line: usize,
}

/// A location in raw form: the file name as a byte span of the text,
/// and the line number.
#[derive(Clone, Copy, PartialEq, Eq, Structural, Debug)]
pub struct RawLoc {
    pub fstart: usize,
    pub fend: usize,
    pub line: usize,
}

/// First position at or after `pos` holding a newline, or the length.
pub open spec fn sp_find_nl(bytes: Seq<u8>, pos: int) -> int
    decreases bytes.len() - pos,
{
    if pos < 0 || pos >= bytes.len() {
        if pos < 0 { 0 } else { bytes.len() as int }
    } else if bytes[pos] == 10 {
        pos
    } else {
        sp_find_nl(bytes, pos + 1)
    }
}

/// Position after any spaces and tabs, up to `e`.
pub open spec fn sp_skip_sp(bytes: Seq<u8>, pos: int, e: int) -> int
    decreases e - pos,
{
    if pos < 0 || pos >= e || pos >= bytes.len() {
        pos
    } else if bytes[pos] == 32 || bytes[pos] == 9 {
        sp_skip_sp(bytes, pos + 1, e)
    } else {
        pos
    }
}

/// End of a run of decimal digits starting at `pos`, up to `e`.
pub open spec fn sp_digits_end(bytes: Seq<u8>, pos: int, e: int) -> int
    decreases e - pos,
{
    if pos < 0 || pos >= e || pos >= bytes.len() {
        pos
    } else if ('0' as u8) <= bytes[pos] && bytes[pos] <= ('9' as u8) {
        sp_digits_end(bytes, pos + 1, e)
    } else {
        pos
    }
}

/// Value of the decimal digits spanning `s..e`.
pub open spec fn sp_digits_val(bytes: Seq<u8>, s: int, e: int) -> int
    decreases e - s,
{
    if s >= e {
        0
    } else {
        sp_digits_val(bytes, s, e - 1) * 10 + (bytes[e - 1] - ('0' as u8))
    }
}

/// Ten to the `n`.
pub open spec fn sp_pow10(n: nat) -> int
    decreases n,
{
    if n == 0 {
        1
    } else {
        10 * sp_pow10((n - 1) as nat)
    }
}

/// The digit value is below ten to the digit count.
pub proof fn lemma_digits_val_bound(bytes: Seq<u8>, s: int, e: int)
    requires
        s <= e,
        forall|j: int| s <= j < e ==> ('0' as u8) <= #[trigger] bytes[j] <= ('9' as u8),
    ensures
        0 <= sp_digits_val(bytes, s, e) < sp_pow10((e - s) as nat),
    decreases e - s,
{
    if s < e {
        lemma_digits_val_bound(bytes, s, e - 1);
    }
}

/// First position at or after `pos`, below `e`, holding `"`;
/// `e` when there is none.
pub open spec fn sp_quote_end(bytes: Seq<u8>, pos: int, e: int) -> int
    decreases e - pos,
{
    if pos < 0 || pos >= e || pos >= bytes.len() {
        if pos < 0 { 0 } else { e }
    } else if bytes[pos] == ('"' as u8) {
        pos
    } else {
        sp_quote_end(bytes, pos + 1, e)
    }
}

/// Does the flag list spanning `p..e` contain the single-digit flag
/// `d` as its own token (a space before it, a space or the end after
/// it)?
pub open spec fn sp_has_flag(bytes: Seq<u8>, p: int, e: int, d: u8) -> bool
    decreases e - p,
{
    if p < 0 || p + 1 >= e || p + 1 >= bytes.len() {
        false
    } else if bytes[p] == 32 && bytes[p + 1] == d && (p + 2 >= e || bytes[p + 2] == 32) {
        true
    } else {
        sp_has_flag(bytes, p + 1, e, d)
    }
}

/// Read a line marker from the line spanning `s..e`: its stated line
/// number, the byte span of its file name, and whether its flags say
/// "entering an include" (1) or "returning to the includer" (2).
/// `None` when the line is not a well-formed marker.
pub open spec fn sp_marker(bytes: Seq<u8>, s: int, e: int) -> Option<(int, int, int, bool, bool)> {
    if s < 0 || s >= bytes.len() || s >= e || bytes[s] != ('#' as u8) {
        None
    } else {
        let p1 = sp_skip_sp(bytes, s + 1, e);
        let p2 = sp_digits_end(bytes, p1, e);
        if p2 == p1 || p2 - p1 > 9 {
            None
        } else {
            let ln = sp_digits_val(bytes, p1, p2);
            let p3 = sp_skip_sp(bytes, p2, e);
            if p3 < e && p3 < bytes.len() && bytes[p3] == ('"' as u8) {
                let fs = p3 + 1;
                let fe = sp_quote_end(bytes, fs, e);
                if fe >= e {
                    None
                } else {
                    Some(
                        (
                            ln,
                            fs,
                            fe,
                            sp_has_flag(bytes, fe + 1, e, '1' as u8),
                            sp_has_flag(bytes, fe + 1, e, '2' as u8),
                        ),
                    )
                }
            } else {
                None
            }
        }
    }
}

/// One more line, capped at what the counter holds.
pub open spec fn sp_bump(line: usize) -> usize {
    if line < usize::MAX {
        (line + 1) as usize
    } else {
        line
    }
}

/// Walk the text line by line up to the line containing `offset`,
/// keeping the current reported location and the stack of include
/// return points.  The fuel only bounds the walk; one unit per line
/// never runs out.
pub open spec fn sp_scan(
    bytes: Seq<u8>, pos: int, cur: RawLoc, stack: List<RawLoc>, offset: int, fuel: nat,
) -> (RawLoc, List<RawLoc>)
    decreases fuel,
{
    if fuel == 0 {
        (cur, stack)
    } else {
        let e = sp_find_nl(bytes, pos);
        if offset <= e {
            (cur, stack)
        } else {
            match sp_marker(bytes, pos, e) {
                Some((ln, fs, fe, entering, returning)) => {
                    let lnu = if ln < usize::MAX {
                        ln as usize
                    } else {
                        usize::MAX
                    };
                    let cur2 = RawLoc { fstart: fs as usize, fend: fe as usize, line: lnu };
                    if entering {
                        sp_scan(
                            bytes,
                            e + 1,
                            cur2,
                            List::Cons(cur, Box::new(stack)),
                            offset,
                            (fuel - 1) as nat,
                        )
                    } else if returning {
                        let stack2 = match stack {
                            List::Nil => List::Nil,
                            List::Cons(_, tail) => *tail,
                        };
                        sp_scan(bytes, e + 1, cur2, stack2, offset, (fuel - 1) as nat)
                    } else {
                        sp_scan(bytes, e + 1, cur2, stack, offset, (fuel - 1) as nat)
                    }
                },
                None => sp_scan(
                    bytes,
                    e + 1,
                    RawLoc { fstart: cur.fstart, fend: cur.fend, line: sp_bump(cur.line) },
                    stack,
                    offset,
                    (fuel - 1) as nat,
                ),
            }
        }
    }
}

/// The raw resolved location and include chain for an offset: scan
/// from the start of the text, beginning at line 1 of an unnamed
/// file.
pub open spec fn sp_resolve(bytes: Seq<u8>, offset: int) -> (RawLoc, List<RawLoc>) {
    let fuel: nat = if bytes.len() < usize::MAX as nat {
        bytes.len() + 1
    } else {
        bytes.len()
    };
    sp_scan(bytes, 0, RawLoc { fstart: 0, fend: 0, line: 1 }, List::Nil, offset, fuel)
}

/// Does a rendered location agree with a raw one?  The line numbers
/// are equal, and where the file-name bytes are valid UTF-8 the name
/// is their decoding.
pub open spec fn loc_matches(l: Location, m: RawLoc, bytes: Seq<u8>) -> bool {
    l.line == m.line && (valid_utf8(span_text(bytes, m.fstart, m.fend)) ==> l.file@ == decode_utf8(
        span_text(bytes, m.fstart, m.fend),
    ))
}

/// Relies on String::from_utf8_lossy: valid UTF-8 input is decoded
/// unchanged (invalid sequences are replaced, and nothing is claimed
/// of them here).
#[verifier::external_body]
fn bytes_to_string(b: &Vec<u8>) -> (r: String)
    ensures
        valid_utf8(b@) ==> r@ == decode_utf8(b@),
{
    String::from_utf8_lossy(b.as_slice()).into_owned()
}

/// Copy the clamped byte span `s..e` out of the text.
fn copy_span(src: &Vec<u8>, s: usize, e: usize) -> (r: Vec<u8>)
    ensures
        r@ == span_text(src@, s, e),
{
    let n = src.len();
    let a = if s <= n {
        s
    } else {
        n
    };
    let b = if e <= n {
        e
    } else {
        n
    };
    let mut v: Vec<u8> = Vec::new();
    if a >= b {
        proof {
            assert(v@ =~= span_text(src@, s, e));
        }
        return v;
    }
    let mut i: usize = a;
    while i < b
        invariant
            a <= i <= b <= n,
            n == src@.len(),
            v@ =~= src@.subrange(a as int, i as int),
        decreases b - i,
    {
        let x = src[i];
        v.push(x);
        proof {
            assert(v@ =~= src@.subrange(a as int, i + 1));
        }
        i += 1;
    }
    proof {
        assert(v@ =~= span_text(src@, s, e));
    }
    v
}

fn render_loc(src: &Vec<u8>, m: &RawLoc) -> (r: Location)
    ensures
        loc_matches(r, *m, src@),
{
    let nm = copy_span(src, m.fstart, m.fend);
    Location { file: bytes_to_string(&nm), line: m.line }
}

fn chain_vec(src: &Vec<u8>, l: &List<RawLoc>) -> (r: Vec<Location>)
    ensures
        r@.len() == l.len(),
        forall|k: int|
            0 <= k < r@.len() ==> loc_matches(r@[k], l.view_seq()[k], src@),
    decreases *l,
{
    match l {
        List::Nil => {
            let v: Vec<Location> = Vec::new();
            proof {
                assert(l.len() == 0);
                assert(v@.len() == 0);
            }
            v
        },
        List::Cons(m, tail) => {
            let mut v = chain_vec(src, &**tail);
            let first = render_loc(src, m);
            let ghost oldv = v@;
            let ghost firstg = first;
            v.insert(0, first);
            proof {
                l.lemma_view_seq_len();
                tail.lemma_view_seq_len();
                assert(l.view_seq() =~= seq![*m] + tail.view_seq());
                assert(v@ =~= seq![firstg] + oldv);
                assert forall|k: int| 0 <= k < v@.len() implies loc_matches(
                    v@[k],
                    l.view_seq()[k],
                    src@,
                ) by {
                    if k == 0 {
                        assert(v@[0] == firstg);
                        assert(l.view_seq()[0] == *m);
                    } else {
                        assert(v@[k] == oldv[k - 1]);
                        assert(l.view_seq()[k] == tail.view_seq()[k - 1]);
                    }
                }
            }
            v
        },
    }
}

fn find_nl(src: &Vec<u8>, pos: usize) -> (r: usize)
    requires
        pos <= src@.len(),
    ensures
        r as int == sp_find_nl(src@, pos as int),
        pos <= r <= src@.len(),
    decreases src@.len() - pos,
{
    if pos >= src.len() {
        pos
    } else if src[pos] == 10 {
        pos
    } else {
        find_nl(src, pos + 1)
    }
}

fn skip_sp(src: &Vec<u8>, pos: usize, e: usize) -> (r: usize)
    requires
        pos <= e <= src@.len(),
    ensures
        r as int == sp_skip_sp(src@, pos as int, e as int),
        pos <= r <= e,
    decreases e - pos,
{
    if pos >= e {
        pos
    } else if src[pos] == 32 || src[pos] == 9 {
        skip_sp(src, pos + 1, e)
    } else {
        pos
    }
}

fn digits_end(src: &Vec<u8>, pos: usize, e: usize) -> (r: usize)
    requires
        pos <= e <= src@.len(),
    ensures
        r as int == sp_digits_end(src@, pos as int, e as int),
        pos <= r <= e,
        forall|j: int| pos <= j < r ==> ('0' as u8) <= #[trigger] src@[j] <= ('9' as u8),
    decreases e - pos,
{
    if pos >= e {
        pos
    } else if ('0' as u8) <= src[pos] && src[pos] <= ('9' as u8) {
        digits_end(src, pos + 1, e)
    } else {
        pos
    }
}

fn digits_val(src: &Vec<u8>, s: usize, e: usize) -> (r: usize)
    requires
        s <= e <= src@.len(),
        e - s <= 9,
        forall|j: int| s <= j < e ==> ('0' as u8) <= #[trigger] src@[j] <= ('9' as u8),
    ensures
        r as int == sp_digits_val(src@, s as int, e as int),
        r < 1000000000,
    decreases e - s,
{
    proof {
        lemma_digits_val_bound(src@, s as int, e as int);
        assert(sp_pow10((e - s) as nat) <= sp_pow10(9)) by {
            lemma_pow10_mono((e - s) as nat, 9);
        };
        assert(sp_pow10(9) == 1000000000) by {
            reveal_with_fuel(sp_pow10, 11);
        };
    }
    if s >= e {
        0
    } else {
        let hi = digits_val(src, s, e - 1);
        let d = src[e - 1];
        hi * 10 + ((d - ('0' as u8)) as usize)
    }
}

/// Ten to the `n` grows with `n`.
pub proof fn lemma_pow10_mono(a: nat, b: nat)
    requires
        a <= b,
    ensures
        sp_pow10(a) <= sp_pow10(b),
    decreases b,
{
    if a < b {
        lemma_pow10_mono(a, (b - 1) as nat);
        assert(sp_pow10(b) == 10 * sp_pow10((b - 1) as nat));
        assert(sp_pow10(a) >= 1) by {
            lemma_pow10_pos(a);
        };
    }
}

/// Ten to the `n` is positive.
pub proof fn lemma_pow10_pos(n: nat)
    ensures
        sp_pow10(n) >= 1,
    decreases n,
{
    if n > 0 {
        lemma_pow10_pos((n - 1) as nat);
    }
}

fn quote_end(src: &Vec<u8>, pos: usize, e: usize) -> (r: usize)
    requires
        pos <= e <= src@.len(),
    ensures
        r as int == sp_quote_end(src@, pos as int, e as int),
        pos <= r <= e,
    decreases e - pos,
{
    if pos >= e {
        e
    } else if src[pos] == ('"' as u8) {
        pos
    } else {
        quote_end(src, pos + 1, e)
    }
}

fn has_flag(src: &Vec<u8>, p: usize, e: usize, d: u8) -> (r: bool)
    requires
        p <= e <= src@.len(),
    ensures
        r == sp_has_flag(src@, p as int, e as int, d),
    decreases e - p,
{
    if e - p < 2 {
        false
    } else if src[p] == 32 && src[p + 1] == d && (p + 2 >= e || src[p + 2] == 32) {
        true
    } else {
        has_flag(src, p + 1, e, d)
    }
}

#[verifier::rlimit(100)]
fn marker(src: &Vec<u8>, s: usize, e: usize) -> (r: Option<(usize, usize, usize, bool, bool)>)
    requires
        s <= e <= src@.len(),
    ensures
        match r {
            Some(p) => sp_marker(src@, s as int, e as int) == Some(
                (p.0 as int, p.1 as int, p.2 as int, p.3, p.4),
            ) && p.1 <= p.2 <= e && p.0 < 1000000000,
            None => sp_marker(src@, s as int, e as int) is None,
        },
{
    if s >= e || src[s] != ('#' as u8) {
        return None;
    }
    let p1 = skip_sp(src, s + 1, e);
    let p2 = digits_end(src, p1, e);
    if p2 == p1 || p2 - p1 > 9 {
        return None;
    }
    let ln = digits_val(src, p1, p2);
    let p3 = skip_sp(src, p2, e);
    if p3 < e && src[p3] == ('"' as u8) {
        let fs = p3 + 1;
        let fe = quote_end(src, fs, e);
        if fe >= e {
            None
        } else {
            let f1 = has_flag(src, fe + 1, e, '1' as u8);
            let f2 = has_flag(src, fe + 1, e, '2' as u8);
            Some((ln, fs, fe, f1, f2))
        }
    } else {
        None
    }
}

#[verifier::rlimit(100)]
fn scan(
    src: &Vec<u8>, pos: usize, cur: RawLoc, stack: List<RawLoc>, offset: usize, fuel: usize,
) -> (r: (RawLoc, List<RawLoc>))
    ensures
        r == sp_scan(src@, pos as int, cur, stack, offset as int, fuel as nat),
    decreases fuel,
{
    if fuel == 0 {
        return (cur, stack);
    }
    let n = src.len();
    let e = if pos <= n {
        find_nl(src, pos)
    } else {
        n
    };
    proof {
        if pos > n {
            assert(sp_find_nl(src@, pos as int) == n as int);
        }
    }
    if offset <= e {
        return (cur, stack);
    }
    let mk = if pos <= e {
        marker(src, pos, e)
    } else {
        None
    };
    proof {
        if pos > e {
            assert(sp_marker(src@, pos as int, e as int) is None);
        }
    }
    match mk {
        Some((ln, fs, fe, entering, returning)) => {
            let cur2 = RawLoc { fstart: fs, fend: fe, line: ln };
            proof {
                assert(ln < usize::MAX);
            }
            if entering {
                scan(src, e + 1, cur2, List::Cons(cur, Box::new(stack)), offset, fuel - 1)
            } else if returning {
                let stack2 = match stack {
                    List::Nil => List::Nil,
                    List::Cons(_, tail) => *tail,
                };
                scan(src, e + 1, cur2, stack2, offset, fuel - 1)
            } else {
                scan(src, e + 1, cur2, stack, offset, fuel - 1)
            }
        },
        None => {
            let line2 = if cur.line < usize::MAX {
                cur.line + 1
            } else {
                cur.line
            };
            scan(
                src,
                e + 1,
                RawLoc { fstart: cur.fstart, fend: cur.fend, line: line2 },
                stack,
                offset,
                fuel - 1,
            )
        },
    }
}

/// Resolve a byte offset of the preprocessed text to its reported
/// original-file location, together with the include chain: the
/// points, innermost first, at which the enclosing files were
/// included.  Total for every text and offset.
pub fn get_location_for_offset(source: &str, offset: usize) -> (r: (Location, Vec<Location>))
    ensures
        ({
            let (m, chain) = sp_resolve(source.spec_bytes(), offset as int);
            loc_matches(r.0, m, source.spec_bytes()) && r.1@.len() == chain.len() && forall|k: int|
                0 <= k < r.1@.len() ==> loc_matches(r.1@[k], chain.view_seq()[k], source.spec_bytes())
        }),
{
    let bytes = vstd::slice::slice_to_vec(source.as_bytes());
    let n = bytes.len();
    let fuel = if n < usize::MAX {
        n + 1
    } else {
        n
    };
    let start = RawLoc { fstart: 0, fend: 0, line: 1 };
    let (m, chain) = scan(&bytes, 0, start, List::Nil, offset, fuel);
    let locv = render_loc(&bytes, &m);
    let chainv = chain_vec(&bytes, &chain);
    (locv, chainv)
}

} // verus!
