//! Text operations shared by the web layer, each with an exact model over
//! sequences of characters.

use vstd::prelude::*;
use vstd::string::*;

verus! {

/// `String::push` of the standard library: the character is appended at the
/// end and nothing else changes.
pub assume_specification[ String::push ](s: &mut String, ch: char)
    ensures
        final(s)@ == old(s)@.push(ch),
;

/// The lowercase form of a text as `str::to_lowercase` of the standard
/// library gives it, which follows the Unicode case mappings.
pub uninterp spec fn lowercase_text(s: Seq<char>) -> Seq<char>;

/// `str::to_lowercase` of the standard library. The result depends on the
/// characters of `s` alone; nothing more is claimed of it.
#[verifier::external_body]
pub(crate) fn lowercase(s: &str) -> (lower: String)
    ensures
        lower@ == lowercase_text(s@),
{
    s.to_lowercase()
}

/// What follows the last `separator` in `s`; all of `s` where it holds no
/// separator.
pub open spec fn after_last(s: Seq<char>, separator: char) -> Seq<char>
    decreases s.len(),
{
    if s.len() == 0 {
        s
    } else if s.last() == separator {
        Seq::empty()
    } else {
        after_last(s.drop_last(), separator).push(s.last())
    }
}

/// `s` with every occurrence of `pattern` replaced by `replacement`, the
/// occurrences taken from left to right without overlap. An empty pattern
/// replaces nothing.
pub open spec fn replaced(s: Seq<char>, pattern: Seq<char>, replacement: Seq<char>) -> Seq<char>
    decreases s.len(),
{
    if pattern.len() == 0 || s.len() < pattern.len() {
        s
    } else if s.take(pattern.len() as int) == pattern {
        replacement + replaced(s.skip(pattern.len() as int), pattern, replacement)
    } else {
        seq![s[0]] + replaced(s.skip(1), pattern, replacement)
    }
}

/// What follows the last `separator` in `s`.
pub fn last_segment(s: &str, separator: char) -> (segment: String)
    ensures
        segment@ == after_last(s@, separator),
{
    let mut segment = String::new();
    for c in iter: s.chars()
        invariant
            iter.seq() == s@,
            segment@ == after_last(s@.take(iter.index() as int), separator),
    {
        let ghost after = s@.take(iter.index() + 1);
        assert(after.drop_last() =~= s@.take(iter.index() as int));
        assert(after.last() == c);
        if c == separator {
            segment = String::new();
        } else {
            segment.push(c);
        }
    }
    assert(s@.take(s@.len() as int) =~= s@);
    segment
}

/// The characters of `s` in order.
pub fn chars_of(s: &str) -> (chars: Vec<char>)
    ensures
        chars@ == s@,
{
    let mut chars: Vec<char> = Vec::new();
    for c in iter: s.chars()
        invariant
            iter.seq() == s@,
            chars@ == s@.take(iter.index() as int),
    {
        chars.push(c);
        assert(chars@ =~= s@.take(iter.index() + 1));
    }
    assert(s@.take(s@.len() as int) =~= s@);
    chars
}

/// Whether `pattern` stands in `s` at position `at`.
fn matches_at(s: &Vec<char>, at: usize, pattern: &Vec<char>) -> (found: bool)
    requires
        at <= s@.len(),
    ensures
        found == (at + pattern@.len() <= s@.len() && s@.subrange(
            at as int,
            at + pattern@.len(),
        ) == pattern@),
{
    let n: usize = pattern.len();
    if n > s.len() - at {
        return false;
    }
    let mut k: usize = 0;
    while k < n
        invariant
            k <= n,
            n == pattern@.len(),
            at + n <= s@.len(),
            s@.len() <= usize::MAX,
            forall|j: int| 0 <= j < k ==> s@[at + j] == pattern@[j],
        decreases n - k,
    {
        if s[at + k] != pattern[k] {
            assert(s@.subrange(at as int, at + n)[k as int] != pattern@[k as int]);
            return false;
        }
        k += 1;
    }
    assert(s@.subrange(at as int, at + n) =~= pattern@);
    true
}

/// `s` with every occurrence of `pattern` replaced by `replacement`, the
/// occurrences taken from left to right without overlap.
pub fn replace_all(s: &str, pattern: &str, replacement: &str) -> (out: String)
    ensures
        out@ == replaced(s@, pattern@, replacement@),
{
    let chars = chars_of(s);
    let wanted = chars_of(pattern);
    let n: usize = chars.len();
    let m: usize = wanted.len();
    if m == 0 {
        return String::from_str(s);
    }
    let mut out = String::new();
    let mut i: usize = 0;
    assert(s@.skip(0) =~= s@);
    assert(out@ + replaced(s@, pattern@, replacement@) =~= replaced(s@, pattern@, replacement@));
    while i < n
        invariant
            i <= n,
            n == chars@.len(),
            m == wanted@.len(),
            m > 0,
            chars@ == s@,
            wanted@ == pattern@,
            out@ + replaced(s@.skip(i as int), pattern@, replacement@) == replaced(
                s@,
                pattern@,
                replacement@,
            ),
        decreases n - i,
    {
        let ghost rest = s@.skip(i as int);
        let ghost before = out@;
        if matches_at(&chars, i, &wanted) {
            assert(rest.take(m as int) =~= s@.subrange(i as int, i + m));
            assert(rest.skip(m as int) =~= s@.skip(i + m));
            out.append(replacement);
            assert(out@ + replaced(s@.skip(i + m), pattern@, replacement@) =~= before + replaced(
                rest,
                pattern@,
                replacement@,
            ));
            i += m;
        } else {
            proof {
                assert(rest.len() >= m ==> rest.take(m as int) =~= s@.subrange(i as int, i + m));
                assert(rest.skip(1) =~= s@.skip(i + 1));
                assert(rest[0] == chars@[i as int]);
                if rest.len() < m {
                    lemma_replaced_short(rest, pattern@, replacement@);
                }
            }
            out.push(chars[i]);
            assert(out@ + replaced(s@.skip(i + 1), pattern@, replacement@) =~= before + replaced(
                rest,
                pattern@,
                replacement@,
            ));
            i += 1;
        }
    }
    assert(s@.skip(n as int) =~= Seq::<char>::empty());
    assert(out@ + Seq::<char>::empty() =~= out@);
    out
}

/// A text shorter than the pattern stays as it is, whether it is read as a
/// whole or character by character.
pub proof fn lemma_replaced_short(s: Seq<char>, pattern: Seq<char>, replacement: Seq<char>)
    requires
        s.len() < pattern.len(),
    ensures
        replaced(s, pattern, replacement) == s,
        s.len() > 0 ==> s == seq![s[0]] + replaced(s.skip(1), pattern, replacement),
{
    if s.len() > 0 {
        assert(s =~= seq![s[0]] + s.skip(1));
    }
}

} // verus!
