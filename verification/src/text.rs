//! Character-level text helpers shared by the header, path and filter logic.
//!
//! Every helper works on the character view (`Seq<char>`) of a string and is
//! specified by a spec function over that view.
use vstd::prelude::*;

verus! {

/// Unicode `White_Space`, the set that `char::is_whitespace` tests.
pub open spec fn is_white(c: char) -> bool {
    ||| ('\u{9}' <= c && c <= '\u{d}')
    ||| c == ' '
    ||| c == '\u{85}'
    ||| c == '\u{a0}'
    ||| c == '\u{1680}'
    ||| ('\u{2000}' <= c && c <= '\u{200a}')
    ||| c == '\u{2028}'
    ||| c == '\u{2029}'
    ||| c == '\u{202f}'
    ||| c == '\u{205f}'
    ||| c == '\u{3000}'
}

/// `s` without its leading white space.
pub open spec fn trim_left(s: Seq<char>) -> Seq<char>
    decreases s.len(),
{
    if s.len() > 0 && is_white(s[0]) {
        trim_left(s.drop_first())
    } else {
        s
    }
}

/// `s` without its trailing white space.
pub open spec fn trim_right(s: Seq<char>) -> Seq<char>
    decreases s.len(),
{
    if s.len() > 0 && is_white(s.last()) {
        trim_right(s.drop_last())
    } else {
        s
    }
}

/// `s` without leading and trailing white space.
pub open spec fn trim_chars(s: Seq<char>) -> Seq<char> {
    trim_right(trim_left(s))
}

/// The pieces of `s` between occurrences of `sep`; there is always one more
/// piece than there are separators, so the empty text has one empty piece.
pub open spec fn split_fields(s: Seq<char>, sep: char) -> Seq<Seq<char>>
    decreases s.len(),
{
    if s.len() == 0 {
        seq![Seq::<char>::empty()]
    } else {
        let prev = split_fields(s.drop_last(), sep);
        if s.last() == sep {
            prev.push(Seq::<char>::empty())
        } else {
            prev.update(prev.len() - 1, prev.last().push(s.last()))
        }
    }
}

/// The comma-separated entries of `s`, each with its surrounding white space removed.
pub open spec fn comma_fields(s: Seq<char>) -> Seq<Seq<char>> {
    split_fields(s, ',').map_values(|f: Seq<char>| trim_chars(f))
}

/// `t` occurs in `s` as a contiguous run of characters.
pub open spec fn contains_text(s: Seq<char>, t: Seq<char>) -> bool {
    exists|i: int| 0 <= i && i + t.len() <= s.len() && #[trigger] s.subrange(i, i + t.len()) == t
}

/// `p` is a prefix of `s`.
pub open spec fn has_prefix(s: Seq<char>, p: Seq<char>) -> bool {
    p.len() <= s.len() && s.subrange(0, p.len() as int) == p
}

/// `s` without the leading run of `c`.
pub open spec fn drop_leading(s: Seq<char>, c: char) -> Seq<char>
    decreases s.len(),
{
    if s.len() > 0 && s[0] == c {
        drop_leading(s.drop_first(), c)
    } else {
        s
    }
}

/// The Unicode lowercase mapping of a text (what `str::to_lowercase` gives).
pub uninterp spec fn lowercase_of(s: Seq<char>) -> Seq<char>;

/// `str::to_lowercase`: the text with every character mapped to its Unicode
/// lowercase form. The result is named; the mapping itself is not stated.
#[verifier::external_body]
pub(crate) fn to_lower(s: &str) -> (r: String)
    ensures
        r@ == lowercase_of(s@),
{
    s.to_lowercase()
}

/// Whether the character is white space (`char::is_whitespace`).
pub fn char_is_white(c: char) -> (r: bool)
    ensures
        r == is_white(c),
{
    ('\u{9}' <= c && c <= '\u{d}') || c == ' ' || c == '\u{85}' || c == '\u{a0}' || c
        == '\u{1680}' || ('\u{2000}' <= c && c <= '\u{200a}') || c == '\u{2028}' || c
        == '\u{2029}' || c == '\u{202f}' || c == '\u{205f}' || c == '\u{3000}'
}

/// Equality of two texts, character by character.
pub fn text_eq(a: &str, b: &str) -> (r: bool)
    ensures
        r == (a@ == b@),
{
    a.to_owned() == b.to_owned()
}

/// `s` with leading and trailing white space removed (`str::trim`).
pub fn trim_text(s: &str) -> (r: &str)
    ensures
        r@ == trim_chars(s@),
{
    let n = s.unicode_len();
    let mut start: usize = 0;
    assert(s@.subrange(0, n as int) =~= s@);
    while start < n && char_is_white(s.get_char(start))
        invariant
            n == s@.len(),
            start <= n,
            trim_left(s@) == trim_left(s@.subrange(start as int, n as int)),
        decreases n - start,
    {
        let ghost rest = s@.subrange(start as int, n as int);
        assert(rest[0] == s@[start as int]);
        assert(rest.drop_first() =~= s@.subrange(start + 1, n as int));
        start = start + 1;
    }
    proof {
        let rest = s@.subrange(start as int, n as int);
        if rest.len() > 0 {
            assert(rest[0] == s@[start as int]);
        }
        assert(trim_left(rest) == rest);
    }
    let mut end: usize = n;
    while end > start && char_is_white(s.get_char(end - 1))
        invariant
            n == s@.len(),
            start <= end <= n,
            trim_left(s@) == s@.subrange(start as int, n as int),
            trim_chars(s@) == trim_right(s@.subrange(start as int, end as int)),
        decreases end - start,
    {
        let ghost mid = s@.subrange(start as int, end as int);
        assert(mid.last() == s@[end - 1]);
        assert(mid.drop_last() =~= s@.subrange(start as int, end - 1));
        end = end - 1;
    }
    proof {
        let mid = s@.subrange(start as int, end as int);
        if mid.len() > 0 {
            assert(mid.last() == s@[end - 1]);
        }
        assert(trim_right(mid) == mid);
    }
    s.substring_char(start, end)
}

/// The pieces of `s` between commas, each trimmed of white space
/// (`s.split(',').map(str::trim)`).
pub fn split_comma_trim(s: &str) -> (v: Vec<String>)
    ensures
        v@.map_values(|x: String| x@) == comma_fields(s@),
{
    let n = s.unicode_len();
    let mut out: Vec<String> = Vec::new();
    let ghost mut raw: Seq<Seq<char>> = Seq::empty();
    let mut start: usize = 0;
    let mut i: usize = 0;
    proof {
        assert(s@.subrange(0, 0) =~= Seq::<char>::empty());
        assert(raw.push(s@.subrange(0, 0)) =~= seq![Seq::<char>::empty()]);
    }
    while i < n
        invariant
            n == s@.len(),
            start <= i <= n,
            split_fields(s@.subrange(0, i as int), ',') == raw.push(
                s@.subrange(start as int, i as int),
            ),
            out@.len() == raw.len(),
            forall|k: int|
                0 <= k < raw.len() ==> #[trigger] out@[k]@ == trim_chars(raw[k]),
        decreases n - i,
    {
        let c = s.get_char(i);
        let ghost pre = s@.subrange(0, i + 1);
        assert(pre.drop_last() =~= s@.subrange(0, i as int));
        assert(pre.last() == c);
        if c == ',' {
            let piece = trim_text(s.substring_char(start, i));
            out.push(piece.to_owned());
            proof {
                raw = raw.push(s@.subrange(start as int, i as int));
                assert(s@.subrange(i + 1, i + 1) =~= Seq::<char>::empty());
            }
            start = i + 1;
        } else {
            proof {
                assert(s@.subrange(start as int, i + 1) =~= s@.subrange(start as int, i as int).push(
                    c,
                ));
            }
        }
        i = i + 1;
    }
    let piece = trim_text(s.substring_char(start, n));
    out.push(piece.to_owned());
    proof {
        raw = raw.push(s@.subrange(start as int, n as int));
        assert(s@.subrange(0, n as int) =~= s@);
        assert(out@.map_values(|x: String| x@) =~= comma_fields(s@));
    }
    out
}

/// Whether `p` is a prefix of `s` (`str::starts_with`).
pub fn text_has_prefix(s: &str, p: &str) -> (r: bool)
    ensures
        r == has_prefix(s@, p@),
{
    let n = s.unicode_len();
    let m = p.unicode_len();
    if m > n {
        return false;
    }
    let mut i: usize = 0;
    while i < m
        invariant
            n == s@.len(),
            m == p@.len(),
            m <= n,
            i <= m,
            forall|j: int| 0 <= j < i ==> s@[j] == p@[j],
        decreases m - i,
    {
        if s.get_char(i) != p.get_char(i) {
            assert(s@.subrange(0, m as int)[i as int] != p@[i as int]);
            return false;
        }
        i = i + 1;
    }
    assert(s@.subrange(0, m as int) =~= p@);
    true
}

/// Whether `t` occurs in `s` (`str::contains`).
pub fn text_contains(s: &str, t: &str) -> (r: bool)
    ensures
        r == contains_text(s@, t@),
{
    let n = s.unicode_len();
    let m = t.unicode_len();
    if m > n {
        return false;
    }
    let limit = n - m;
    let mut i: usize = 0;
    loop
        invariant
            n == s@.len(),
            m == t@.len(),
            m <= n,
            limit == n - m,
            i <= limit,
            forall|k: int| 0 <= k < i ==> #[trigger] s@.subrange(k, k + m) != t@,
        ensures
            forall|k: int| 0 <= k <= limit ==> #[trigger] s@.subrange(k, k + m) != t@,
        decreases limit - i,
    {
        let mut j: usize = 0;
        let mut same = true;
        while j < m
            invariant
                n == s@.len(),
                m == t@.len(),
                i + m <= n,
                j <= m,
                same ==> forall|q: int| 0 <= q < j ==> s@[i + q] == t@[q],
                !same ==> s@.subrange(i as int, i + m) != t@,
            decreases m - j,
        {
            if same && s.get_char(i + j) != t.get_char(j) {
                assert(s@.subrange(i as int, i + m)[j as int] == s@[i + j]);
                same = false;
            }
            j = j + 1;
        }
        if same {
            assert(s@.subrange(i as int, i + m) =~= t@);
            return true;
        }
        if i == limit {
            break;
        }
        i = i + 1;
    }
    assert forall|k: int| 0 <= k && k + t@.len() <= s@.len() implies #[trigger] s@.subrange(
        k,
        k + t@.len(),
    ) != t@ by {
        assert(k <= limit);
    }
    false
}

/// `s` without its leading run of `c` (`str::trim_start_matches(c)`).
pub fn text_drop_leading(s: &str, c: char) -> (r: &str)
    ensures
        r@ == drop_leading(s@, c),
{
    let n = s.unicode_len();
    let mut start: usize = 0;
    assert(s@.subrange(0, n as int) =~= s@);
    while start < n && s.get_char(start) == c
        invariant
            n == s@.len(),
            start <= n,
            drop_leading(s@, c) == drop_leading(s@.subrange(start as int, n as int), c),
        decreases n - start,
    {
        let ghost rest = s@.subrange(start as int, n as int);
        assert(rest[0] == s@[start as int]);
        assert(rest.drop_first() =~= s@.subrange(start + 1, n as int));
        start = start + 1;
    }
    proof {
        let rest = s@.subrange(start as int, n as int);
        if rest.len() > 0 {
            assert(rest[0] == s@[start as int]);
        }
    }
    s.substring_char(start, n)
}

} // verus!
