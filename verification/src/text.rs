//! Byte-level model of the textual counter sources: lines, whitespace-separated
//! tokens, and unsigned decimal numbers, with verified scanners for each.

use vstd::prelude::*;
use vstd::string::StringSliceAdditionalSpecFns;

verus! {

// --- Byte classes -----------------------------------------------------------

/// ASCII whitespace: space, tab, line feed, vertical tab, form feed, carriage return.
pub open spec fn is_ws(b: u8) -> bool {
    b == 32 || 9 <= b <= 13
}

/// ASCII decimal digit.
pub open spec fn is_digit(b: u8) -> bool {
    48 <= b <= 57
}

/// The bytes of an ASCII string, as a sequence of `u8`.
pub open spec fn ascii_bytes(s: &str) -> Seq<u8> {
    Seq::new(s@.len(), |i: int| s@[i] as u8)
}

// --- Lines ------------------------------------------------------------------

/// Number of bytes before the first line feed (the whole text if there is none).
pub open spec fn line_len(s: Seq<u8>) -> nat
    decreases s.len(),
{
    if s.len() == 0 || s[0] == 10 {
        0
    } else {
        1 + line_len(s.drop_first())
    }
}

pub proof fn lemma_line_len_le(s: Seq<u8>)
    ensures
        line_len(s) <= s.len(),
    decreases s.len(),
{
    if s.len() != 0 && s[0] != 10 {
        lemma_line_len_le(s.drop_first());
    }
}

/// The lines of a text: the segments between line feed bytes, a trailing
/// line feed closing the last line rather than opening an empty one.
pub open spec fn lines_of(s: Seq<u8>) -> Seq<Seq<u8>>
    decreases s.len(),
    via lines_of_decreases
{
    if s.len() == 0 {
        Seq::empty()
    } else {
        let n = line_len(s) as int;
        if n < s.len() {
            seq![s.take(n)] + lines_of(s.skip(n + 1))
        } else {
            seq![s]
        }
    }
}

#[via_fn]
proof fn lines_of_decreases(s: Seq<u8>) {
    lemma_line_len_le(s);
}

// --- Tokens -----------------------------------------------------------------

/// Length of the leading run of non-whitespace bytes.
pub open spec fn tok_len(s: Seq<u8>) -> nat
    decreases s.len(),
{
    if s.len() == 0 || is_ws(s[0]) {
        0
    } else {
        1 + tok_len(s.drop_first())
    }
}

pub proof fn lemma_tok_len_le(s: Seq<u8>)
    ensures
        tok_len(s) <= s.len(),
    decreases s.len(),
{
    if s.len() != 0 && !is_ws(s[0]) {
        lemma_tok_len_le(s.drop_first());
    }
}

/// The whitespace-separated tokens of a line: its maximal runs of
/// non-whitespace bytes, in order.
pub open spec fn tokens_of(s: Seq<u8>) -> Seq<Seq<u8>>
    decreases s.len(),
    via tokens_of_decreases
{
    if s.len() == 0 {
        Seq::empty()
    } else if is_ws(s[0]) {
        tokens_of(s.drop_first())
    } else {
        let n = tok_len(s) as int;
        seq![s.take(n)] + tokens_of(s.skip(n))
    }
}

#[via_fn]
proof fn tokens_of_decreases(s: Seq<u8>) {
    lemma_tok_len_le(s);
}

// --- Decimal numbers --------------------------------------------------------

/// The value of a big-endian decimal digit string.
pub open spec fn dec_val(s: Seq<u8>) -> nat
    decreases s.len(),
{
    if s.len() == 0 {
        0
    } else {
        10 * dec_val(s.drop_last()) + (if is_digit(s.last()) {
            (s.last() - 48) as nat
        } else {
            0
        })
    }
}

pub open spec fn all_digits(s: Seq<u8>) -> bool {
    forall|i: int| 0 <= i < s.len() ==> is_digit(#[trigger] s[i])
}

/// What a token means as a `u64`: a non-empty string of decimal digits whose
/// value fits, and nothing else.
pub open spec fn u64_of_dec(s: Seq<u8>) -> Option<u64> {
    if s.len() > 0 && all_digits(s) && dec_val(s) <= u64::MAX {
        Some(dec_val(s) as u64)
    } else {
        None
    }
}

/// A digit string is worth at least as much as any of its prefixes.
pub proof fn lemma_dec_val_prefix_le(s: Seq<u8>, i: int)
    requires
        0 <= i <= s.len(),
    ensures
        dec_val(s.take(i)) <= dec_val(s),
    decreases s.len() - i,
{
    if i < s.len() {
        lemma_dec_val_prefix_le(s, i + 1);
        assert(s.take(i + 1).drop_last() =~= s.take(i));
        assert(dec_val(s.take(i)) <= dec_val(s.take(i + 1)));
    } else {
        assert(s.take(i) =~= s);
    }
}

/// The views of a sequence of byte vectors.
pub open spec fn seq_views(ts: Seq<Vec<u8>>) -> Seq<Seq<u8>> {
    ts.map_values(|t: Vec<u8>| t@)
}

// --- Executable scanners ----------------------------------------------------

/// Byte-for-byte equality of two slices.
pub fn bytes_eq(a: &[u8], b: &[u8]) -> (r: bool)
    ensures
        r <==> a@ == b@,
{
    if a.len() != b.len() {
        return false;
    }
    let mut i: usize = 0;
    while i < a.len()
        invariant
            i <= a@.len(),
            a@.len() == b@.len(),
            forall|j: int| 0 <= j < i ==> a@[j] == b@[j],
        decreases a@.len() - i,
    {
        if a[i] != b[i] {
            return false;
        }
        i = i + 1;
    }
    proof {
        assert(a@ =~= b@);
    }
    true
}

/// The bytes of an ASCII string slice, with their contents tied to the view.
pub fn str_bytes(s: &str) -> (r: &[u8])
    requires
        vstd::string::is_ascii(s),
    ensures
        r@ == ascii_bytes(s),
{
    proof {
        vstd::string::is_ascii_spec_bytes(s);
        assert(s.spec_bytes() =~= ascii_bytes(s));
    }
    s.as_bytes()
}

/// Whether a token spells a given ASCII key.
pub fn token_matches(tok: &[u8], key: &str) -> (r: bool)
    requires
        vstd::string::is_ascii(key),
    ensures
        r <==> tok@ == ascii_bytes(key),
{
    bytes_eq(tok, str_bytes(key))
}

/// Parses a non-empty all-digit token as a `u64`; any other input is refused.
pub fn parse_u64(s: &[u8]) -> (r: Option<u64>)
    ensures
        r == u64_of_dec(s@),
{
    if s.len() == 0 {
        return None;
    }
    let mut acc: u64 = 0;
    let mut i: usize = 0;
    while i < s.len()
        invariant
            0 < s@.len(),
            i <= s@.len(),
            forall|j: int| 0 <= j < i ==> is_digit(#[trigger] s@[j]),
            acc == dec_val(s@.take(i as int)),
        decreases s@.len() - i,
    {
        let b = s[i];
        if b < 48 || b > 57 {
            proof {
                assert(!is_digit(s@[i as int]));
            }
            return None;
        }
        let d: u64 = (b - 48) as u64;
        proof {
            assert(s@.take(i + 1).drop_last() =~= s@.take(i as int));
            assert(dec_val(s@.take(i + 1)) == 10 * acc + d);
        }
        let grown = match acc.checked_mul(10) {
            Some(m) => m.checked_add(d),
            None => None,
        };
        match grown {
            Some(v) => {
                acc = v;
            },
            None => {
                proof {
                    lemma_dec_val_prefix_le(s@, i + 1);
                }
                return None;
            },
        }
        i = i + 1;
    }
    proof {
        assert(s@.take(s@.len() as int) =~= s@);
    }
    Some(acc)
}

/// Splits a line into its whitespace-separated tokens.
pub fn tokenize(line: &[u8]) -> (r: Vec<Vec<u8>>)
    ensures
        seq_views(r@) == tokens_of(line@),
{
    let mut r: Vec<Vec<u8>> = Vec::new();
    let mut i: usize = 0;
    proof {
        assert(line@.skip(0) =~= line@);
        assert(seq_views(r@) + tokens_of(line@) =~= tokens_of(line@));
    }
    while i < line.len()
        invariant
            i <= line@.len(),
            seq_views(r@) + tokens_of(line@.skip(i as int)) == tokens_of(line@),
        decreases line@.len() - i,
    {
        let b = line[i];
        if b == 32 || (9 <= b && b <= 13) {
            proof {
                assert(line@.skip(i as int).drop_first() =~= line@.skip(i + 1));
                assert(tokens_of(line@.skip(i as int)) == tokens_of(line@.skip(i + 1)));
            }
            i = i + 1;
        } else {
            let mut j: usize = i;
            while j < line.len() && !(line[j] == 32 || (9 <= line[j] && line[j] <= 13))
                invariant
                    i <= j <= line@.len(),
                    i < line@.len(),
                    !is_ws(line@[i as int]),
                    tok_len(line@.skip(i as int)) == (j - i) + tok_len(line@.skip(j as int)),
                decreases line@.len() - j,
            {
                proof {
                    assert(line@.skip(j as int).drop_first() =~= line@.skip(j + 1));
                    assert(tok_len(line@.skip(j as int)) == 1 + tok_len(line@.skip(j + 1)));
                }
                j = j + 1;
            }
            proof {
                assert(tok_len(line@.skip(j as int)) == 0);
                assert(tok_len(line@.skip(i as int)) == j - i);
                assert(j > i);
            }
            let tok = vstd::slice::slice_to_vec(vstd::slice::slice_subrange(line, i, j));
            let ghost prev = seq_views(r@);
            r.push(tok);
            proof {
                assert(seq_views(r@) =~= prev.push(tok@));
                assert(line@.skip(i as int).take((j - i) as int) =~= line@.subrange(
                    i as int,
                    j as int,
                ));
                assert(line@.skip(i as int).skip((j - i) as int) =~= line@.skip(j as int));
                assert(tokens_of(line@.skip(i as int)) == seq![tok@] + tokens_of(
                    line@.skip(j as int),
                ));
                assert(prev.push(tok@) + tokens_of(line@.skip(j as int)) =~= prev + tokens_of(
                    line@.skip(i as int),
                ));
            }
            i = j;
        }
    }
    proof {
        assert(line@.skip(i as int) =~= Seq::<u8>::empty());
        assert(seq_views(r@) + tokens_of(line@.skip(i as int)) =~= seq_views(r@));
    }
    r
}

/// Splits a text into its lines.
pub fn split_lines(s: &[u8]) -> (r: Vec<Vec<u8>>)
    ensures
        seq_views(r@) == lines_of(s@),
{
    let mut r: Vec<Vec<u8>> = Vec::new();
    let mut i: usize = 0;
    proof {
        assert(s@.skip(0) =~= s@);
        assert(seq_views(r@) + lines_of(s@) =~= lines_of(s@));
    }
    while i < s.len()
        invariant
            i <= s@.len(),
            seq_views(r@) + lines_of(s@.skip(i as int)) == lines_of(s@),
        decreases s@.len() - i,
    {
        let mut j: usize = i;
        while j < s.len() && s[j] != 10
            invariant
                i <= j <= s@.len(),
                line_len(s@.skip(i as int)) == (j - i) + line_len(s@.skip(j as int)),
            decreases s@.len() - j,
        {
            proof {
                assert(s@.skip(j as int).drop_first() =~= s@.skip(j + 1));
                assert(line_len(s@.skip(j as int)) == 1 + line_len(s@.skip(j + 1)));
            }
            j = j + 1;
        }
        proof {
            assert(line_len(s@.skip(j as int)) == 0);
            assert(line_len(s@.skip(i as int)) == j - i);
        }
        let line = vstd::slice::slice_to_vec(vstd::slice::slice_subrange(s, i, j));
        let ghost prev = seq_views(r@);
        r.push(line);
        proof {
            assert(seq_views(r@) =~= prev.push(line@));
            assert(s@.skip(i as int).take((j - i) as int) =~= s@.subrange(i as int, j as int));
        }
        if j < s.len() {
            proof {
                assert(s@.skip(i as int).skip((j - i + 1) as int) =~= s@.skip(j + 1));
                assert(lines_of(s@.skip(i as int)) == seq![line@] + lines_of(s@.skip(j + 1)));
                assert(prev.push(line@) + lines_of(s@.skip(j + 1)) =~= prev + lines_of(
                    s@.skip(i as int),
                ));
            }
            i = j + 1;
        } else {
            proof {
                assert(s@.skip(i as int) =~= s@.subrange(i as int, j as int));
                assert(lines_of(s@.skip(i as int)) == seq![line@]);
                assert(prev.push(line@) + lines_of(s@.skip(s@.len() as int)) =~= prev + lines_of(
                    s@.skip(i as int),
                ));
            }
            i = j;
            proof {
                assert(s@.skip(i as int) =~= Seq::<u8>::empty());
            }
            return r;
        }
    }
    proof {
        assert(s@.skip(i as int) =~= Seq::<u8>::empty());
        assert(seq_views(r@) + lines_of(s@.skip(i as int)) =~= seq_views(r@));
    }
    r
}

} // verus!
