//! Character-level text operations that the publisher's change detection
//! rests on: trimming white space at the edges of a text, and splitting a
//! note file on its structural delimiter.

use vstd::prelude::*;

verus! {

use vstd::string::StrSliceExecFns;
use vstd::string::StringExecFns;

/// The characters that trimming removes at either edge of a text: the
/// Unicode white-space characters.
pub open spec fn is_ws(c: char) -> bool {
    c == ' ' || c == '\t' || c == '\n' || c == '\r' || c == '\u{b}' || c == '\u{c}'
        || c == '\u{85}' || c == '\u{a0}' || c == '\u{1680}' || c == '\u{2000}'
        || c == '\u{2001}' || c == '\u{2002}' || c == '\u{2003}' || c == '\u{2004}'
        || c == '\u{2005}' || c == '\u{2006}' || c == '\u{2007}' || c == '\u{2008}'
        || c == '\u{2009}' || c == '\u{200a}' || c == '\u{2028}' || c == '\u{2029}'
        || c == '\u{202f}' || c == '\u{205f}' || c == '\u{3000}'
}

/// Whether `c` is one of the white-space characters that trimming removes.
pub fn is_ws_char(c: char) -> (r: bool)
    ensures
        r == is_ws(c),
{
    c == ' ' || c == '\t' || c == '\n' || c == '\r' || c == '\u{b}' || c == '\u{c}'
        || c == '\u{85}' || c == '\u{a0}' || c == '\u{1680}' || c == '\u{2000}'
        || c == '\u{2001}' || c == '\u{2002}' || c == '\u{2003}' || c == '\u{2004}'
        || c == '\u{2005}' || c == '\u{2006}' || c == '\u{2007}' || c == '\u{2008}'
        || c == '\u{2009}' || c == '\u{200a}' || c == '\u{2028}' || c == '\u{2029}'
        || c == '\u{202f}' || c == '\u{205f}' || c == '\u{3000}'
}

/// How many white-space characters stand at the front of `s`.
pub open spec fn leading_ws(s: Seq<char>) -> int
    decreases s.len(),
{
    if s.len() > 0 && is_ws(s[0]) {
        1 + leading_ws(s.drop_first())
    } else {
        0
    }
}

/// How many white-space characters stand at the back of `s`.
pub open spec fn trailing_ws(s: Seq<char>) -> int
    decreases s.len(),
{
    if s.len() > 0 && is_ws(s.last()) {
        1 + trailing_ws(s.drop_last())
    } else {
        0
    }
}

/// `s` with white space removed from both edges: what `trim` returns.
pub open spec fn spec_trim(s: Seq<char>) -> Seq<char> {
    let a = leading_ws(s);
    let b = s.len() - trailing_ws(s);
    if a <= b {
        s.subrange(a, b)
    } else {
        Seq::empty()
    }
}

pub proof fn lemma_leading_ws_bounds(s: Seq<char>)
    ensures
        0 <= leading_ws(s) <= s.len(),
        forall|i: int| 0 <= i < leading_ws(s) ==> is_ws(s[i]),
        leading_ws(s) < s.len() ==> !is_ws(s[leading_ws(s)]),
    decreases s.len(),
{
    if s.len() > 0 && is_ws(s[0]) {
        lemma_leading_ws_bounds(s.drop_first());
        assert forall|i: int| 0 <= i < leading_ws(s) implies is_ws(s[i]) by {
            if i > 0 {
                assert(is_ws(s.drop_first()[i - 1]));
            }
        }
    }
}

pub proof fn lemma_trailing_ws_bounds(s: Seq<char>)
    ensures
        0 <= trailing_ws(s) <= s.len(),
        forall|i: int| s.len() - trailing_ws(s) <= i < s.len() ==> is_ws(s[i]),
        trailing_ws(s) < s.len() ==> !is_ws(s[s.len() - trailing_ws(s) - 1]),
    decreases s.len(),
{
    if s.len() > 0 && is_ws(s.last()) {
        lemma_trailing_ws_bounds(s.drop_last());
        assert forall|i: int| s.len() - trailing_ws(s) <= i < s.len() implies is_ws(s[i]) by {
            if i < s.len() - 1 {
                assert(is_ws(s.drop_last()[i]));
            }
        }
    }
}

/// The count of leading white space is the index of the first character
/// that is not white space.
pub proof fn lemma_leading_ws_char(s: Seq<char>, k: int)
    requires
        0 <= k <= s.len(),
        forall|i: int| 0 <= i < k ==> is_ws(s[i]),
        k < s.len() ==> !is_ws(s[k]),
    ensures
        leading_ws(s) == k,
    decreases k,
{
    if k == 0 {
    } else {
        assert(is_ws(s[0]));
        assert forall|i: int| 0 <= i < k - 1 implies is_ws(s.drop_first()[i]) by {
            assert(s.drop_first()[i] == s[i + 1]);
        }
        assert(k - 1 < s.drop_first().len() ==> !is_ws(s.drop_first()[k - 1]));
        lemma_leading_ws_char(s.drop_first(), k - 1);
    }
}

/// The count of trailing white space reaches back exactly to the last
/// character that is not white space.
pub proof fn lemma_trailing_ws_char(s: Seq<char>, e: int)
    requires
        0 <= e <= s.len(),
        forall|i: int| e <= i < s.len() ==> is_ws(s[i]),
        e > 0 ==> !is_ws(s[e - 1]),
    ensures
        trailing_ws(s) == s.len() - e,
    decreases s.len() - e,
{
    if e == s.len() {
        if s.len() > 0 {
            assert(!is_ws(s.last()));
        }
    } else {
        assert(is_ws(s.last()));
        assert forall|i: int| e <= i < s.drop_last().len() implies is_ws(s.drop_last()[i]) by {
            assert(s.drop_last()[i] == s[i]);
        }
        if e > 0 {
            assert(s.drop_last()[e - 1] == s[e - 1]);
        }
        lemma_trailing_ws_char(s.drop_last(), e);
    }
}

/// Trimming twice is trimming once.
pub proof fn lemma_trim_idempotent(s: Seq<char>)
    ensures
        spec_trim(spec_trim(s)) == spec_trim(s),
{
    lemma_leading_ws_bounds(s);
    lemma_trailing_ws_bounds(s);
    let t = spec_trim(s);
    if t.len() == 0 {
        assert(leading_ws(t) == 0);
        assert(trailing_ws(t) == 0);
        assert(spec_trim(t) =~= t);
    } else {
        let a = leading_ws(s);
        let b = s.len() - trailing_ws(s);
        assert(t == s.subrange(a, b));
        assert(t[0] == s[a]);
        assert(!is_ws(t[0]));
        assert(t.last() == s[b - 1]);
        assert(!is_ws(t.last()));
        lemma_leading_ws_char(t, 0);
        lemma_trailing_ws_char(t, t.len() as int);
        assert(spec_trim(t) =~= t);
    }
}

/// White space added only at the edges does not change the trimmed text.
pub proof fn lemma_trim_pad(p: Seq<char>, s: Seq<char>, q: Seq<char>)
    requires
        forall|i: int| 0 <= i < p.len() ==> is_ws(p[i]),
        forall|i: int| 0 <= i < q.len() ==> is_ws(q[i]),
    ensures
        spec_trim(p + s + q) == spec_trim(s),
{
    let u = p + s + q;
    lemma_leading_ws_bounds(s);
    lemma_trailing_ws_bounds(s);
    let a = leading_ws(s);
    let t = trailing_ws(s);
    if a == s.len() {
        lemma_trailing_ws_char(s, 0);
        assert forall|i: int| 0 <= i < u.len() implies is_ws(u[i]) by {
            if i < p.len() {
            } else if i < p.len() + s.len() {
                assert(u[i] == s[i - p.len()]);
            } else {
                assert(u[i] == q[i - p.len() - s.len()]);
            }
        }
        lemma_leading_ws_char(u, u.len() as int);
        lemma_trailing_ws_char(u, 0);
        assert(spec_trim(u) =~= Seq::<char>::empty());
        assert(spec_trim(s) =~= Seq::<char>::empty());
    } else {
        assert(!is_ws(s[a]));
        assert(a < s.len() - t) by {
            if a >= s.len() - t {
                assert(is_ws(s[a]));
            }
        }
        assert forall|i: int| 0 <= i < p.len() + a implies is_ws(u[i]) by {
            if i >= p.len() {
                assert(u[i] == s[i - p.len()]);
            }
        }
        assert(u[p.len() + a] == s[a]);
        lemma_leading_ws_char(u, p.len() + a);
        let e = p.len() + s.len() - t;
        assert forall|i: int| e <= i < u.len() implies is_ws(u[i]) by {
            if i < p.len() + s.len() {
                assert(u[i] == s[i - p.len()]);
            } else {
                assert(u[i] == q[i - p.len() - s.len()]);
            }
        }
        assert(u[e - 1] == s[s.len() - t - 1]);
        assert(!is_ws(u[e - 1]));
        lemma_trailing_ws_char(u, e);
        assert(leading_ws(u) == p.len() + a);
        assert(u.len() - trailing_ws(u) == e);
        assert forall|k: int| 0 <= k < s.len() - t - a implies #[trigger] u.subrange(
            p.len() + a,
            e,
        )[k] == s.subrange(a, s.len() - t)[k] by {
            assert(u[p.len() + a + k] == s[a + k]);
        }
        assert(spec_trim(u) =~= spec_trim(s));
    }
}

/// `s`, trimmed of white space at both edges.
pub fn trim_str(s: &str) -> (r: String)
    ensures
        r@ == spec_trim(s@),
{
    let n = s.unicode_len();
    let mut a: usize = 0;
    while a < n && is_ws_char(s.get_char(a))
        invariant
            0 <= a <= n,
            n == s@.len(),
            forall|i: int| 0 <= i < a ==> is_ws(s@[i]),
        decreases n - a,
    {
        a = a + 1;
    }
    let mut b: usize = n;
    while b > a && is_ws_char(s.get_char(b - 1))
        invariant
            a <= b <= n,
            n == s@.len(),
            forall|i: int| 0 <= i < a ==> is_ws(s@[i]),
            forall|i: int| b <= i < n ==> is_ws(s@[i]),
        decreases b,
    {
        b = b - 1;
    }
    proof {
        if a == n {
            lemma_leading_ws_char(s@, a as int);
            lemma_trailing_ws_char(s@, 0);
            assert(spec_trim(s@) =~= s@.subrange(a as int, b as int));
        } else {
            lemma_leading_ws_char(s@, a as int);
            assert(b > a) by {
                if b == a {
                    assert(is_ws(s@[a as int]));
                }
            }
            lemma_trailing_ws_char(s@, b as int);
            assert(spec_trim(s@) =~= s@.subrange(a as int, b as int));
        }
    }
    String::from_str(s.substring_char(a, b))
}

/// Whether the three-character structural delimiter `---` stands at
/// position `i` of `s`.
pub open spec fn delim_at(s: Seq<char>, i: int) -> bool {
    i + 3 <= s.len() && s[i] == '-' && s[i + 1] == '-' && s[i + 2] == '-'
}

/// The segments of `s` between the non-overlapping, left-most occurrences
/// of the delimiter `---`: what splitting a note file on the delimiter
/// yields. A text without the delimiter is one segment; each occurrence
/// opens a further one.
pub open spec fn spec_split(s: Seq<char>) -> Seq<Seq<char>>
    decreases s.len(),
{
    if s.len() < 3 {
        seq![s]
    } else if delim_at(s, 0) {
        seq![Seq::<char>::empty()] + spec_split(s.skip(3))
    } else {
        let rest = spec_split(s.skip(1));
        seq![seq![s[0]] + rest[0]] + rest.skip(1)
    }
}

pub proof fn lemma_split_len(s: Seq<char>)
    ensures
        spec_split(s).len() >= 1,
    decreases s.len(),
{
    if s.len() < 3 {
    } else if delim_at(s, 0) {
        lemma_split_len(s.skip(3));
    } else {
        lemma_split_len(s.skip(1));
    }
}

/// Unfolding the split by one character, at a position where the delimiter
/// does not stand: the character joins the first segment.
proof fn lemma_split_step(s: Seq<char>)
    requires
        s.len() >= 1,
        !delim_at(s, 0),
    ensures
        spec_split(s.skip(1)).len() >= 1,
        spec_split(s) == seq![seq![s[0]] + spec_split(s.skip(1))[0]] + spec_split(s.skip(1)).skip(
            1,
        ),
{
    lemma_split_len(s.skip(1));
    if s.len() >= 3 {
    } else {
        assert(s.skip(1).len() < 3);
        assert(spec_split(s.skip(1)) == seq![s.skip(1)]);
        assert(seq![s[0]] + s.skip(1) =~= s);
        assert(seq![s.skip(1)].skip(1) =~= Seq::<Seq<char>>::empty());
        assert(spec_split(s) == seq![s]);
        assert(seq![seq![s[0]] + spec_split(s.skip(1))[0]] + spec_split(s.skip(1)).skip(1)
            =~~= seq![s]);
    }
}

/// The segments of `s@`, each given as a pair of character positions into
/// `s` (start inclusive, end exclusive).
fn split_positions(s: &str) -> (r: Vec<(usize, usize)>)
    ensures
        r@.len() == spec_split(s@).len(),
        forall|k: int|
            0 <= k < r@.len() ==> 0 <= (#[trigger] r@[k]).0 <= r@[k].1 <= s@.len()
                && s@.subrange(r@[k].0 as int, r@[k].1 as int) == spec_split(s@)[k],
{
    let n = s.unicode_len();
    let mut segs: Vec<(usize, usize)> = Vec::new();
    let mut start: usize = 0;
    let mut i: usize = 0;
    proof {
        lemma_split_len(s@);
        assert(s@.skip(0) =~= s@);
        assert(s@.subrange(0, 0) + spec_split(s@)[0] =~= spec_split(s@)[0]);
        assert(segs@.map_values(|p: (usize, usize)| s@.subrange(p.0 as int, p.1 as int))
            =~= Seq::<Seq<char>>::empty());
        assert(spec_split(s@) =~= seq![spec_split(s@)[0]] + spec_split(s@).skip(1));
    }
    while i < n
        invariant
            start <= i <= n,
            n == s@.len(),
            spec_split(s@.skip(i as int)).len() >= 1,
            forall|k: int|
                0 <= k < segs@.len() ==> 0 <= (#[trigger] segs@[k]).0 <= segs@[k].1 <= n,
            spec_split(s@) =~= segs@.map_values(
                |p: (usize, usize)| s@.subrange(p.0 as int, p.1 as int),
            ) + seq![
                s@.subrange(start as int, i as int) + spec_split(s@.skip(i as int))[0],
            ] + spec_split(s@.skip(i as int)).skip(1),
        decreases n - i,
    {
        let ghost rest = s@.skip(i as int);
        let ghost old_segs = segs@;
        let ghost old_start = start as int;
        proof {
            assert(rest.len() == n - i);
            assert forall|j: int| 0 <= j < rest.len() implies rest[j] == s@[i + j] by {}
        }
        if n - i >= 3 && s.get_char(i) == '-' && s.get_char(i + 1) == '-' && s.get_char(i + 2)
            == '-' {
            proof {
                assert(delim_at(rest, 0));
                assert(rest.skip(3) =~= s@.skip(i + 3));
                lemma_split_len(s@.skip(i + 3));
                assert(spec_split(rest) == seq![Seq::<char>::empty()] + spec_split(
                    s@.skip(i + 3),
                ));
            }
            segs.push((start, i));
            i = i + 3;
            start = i;
            proof {
                assert(segs@ =~= old_segs.push((old_start as usize, (i - 3) as usize)));
                assert(segs@.map_values(
                    |p: (usize, usize)| s@.subrange(p.0 as int, p.1 as int),
                ) =~= old_segs.map_values(
                    |p: (usize, usize)| s@.subrange(p.0 as int, p.1 as int),
                ).push(s@.subrange(old_start, i - 3)));
                assert(s@.subrange(old_start, i - 3) + Seq::<char>::empty() =~= s@.subrange(
                    old_start,
                    i - 3,
                ));
                assert(s@.subrange(start as int, i as int) =~= Seq::<char>::empty());
                assert(spec_split(s@) =~= segs@.map_values(
                    |p: (usize, usize)| s@.subrange(p.0 as int, p.1 as int),
                ) + seq![
                    s@.subrange(start as int, i as int) + spec_split(s@.skip(i as int))[0],
                ] + spec_split(s@.skip(i as int)).skip(1));
            }
        } else {
            proof {
                assert(!delim_at(rest, 0)) by {
                    if delim_at(rest, 0) {
                        assert(rest[0] == s@[i as int]);
                        assert(rest[1] == s@[i + 1]);
                        assert(rest[2] == s@[i + 2]);
                    }
                }
                lemma_split_step(rest);
                assert(rest.skip(1) =~= s@.skip(i + 1));
                assert(rest[0] == s@[i as int]);
                assert(s@.subrange(old_start, i as int) + (seq![s@[i as int]] + spec_split(
                    s@.skip(i + 1),
                )[0]) =~= s@.subrange(old_start, i + 1) + spec_split(s@.skip(i + 1))[0]);
            }
            i = i + 1;
        }
    }
    proof {
        assert(s@.skip(n as int) =~= Seq::<char>::empty());
        assert(spec_split(Seq::<char>::empty()) == seq![Seq::<char>::empty()]);
        assert(s@.subrange(start as int, n as int) + Seq::<char>::empty() =~= s@.subrange(
            start as int,
            n as int,
        ));
    }
    segs.push((start, n));
    proof {
        assert(spec_split(s@) =~= segs@.map_values(
            |p: (usize, usize)| s@.subrange(p.0 as int, p.1 as int),
        ));
        assert forall|k: int| 0 <= k < segs@.len() implies s@.subrange(
            (#[trigger] segs@[k]).0 as int,
            segs@[k].1 as int,
        ) == spec_split(s@)[k] by {}
    }
    segs
}

/// What remains of a note file once the front matter is cut away: the
/// segments after the second delimiter, joined with nothing between them.
pub open spec fn join_from(segs: Seq<Seq<char>>, k: int) -> Seq<char>
    decreases segs.len() - k,
{
    if k < 0 || k >= segs.len() {
        Seq::empty()
    } else {
        segs[k] + join_from(segs, k + 1)
    }
}

/// Splits a note file's text on the structural delimiter: the segment
/// between the first and the second delimiter (the front-matter block),
/// and the remaining segments joined with no separator (the body). `None`
/// where the delimiter appears fewer than two times.
pub fn split_note_text(s: &str) -> (r: Option<(String, String)>)
    ensures
        r is Some <==> spec_split(s@).len() >= 3,
        r matches Some(pair) ==> pair.0@ == spec_split(s@)[1] && pair.1@ == join_from(
            spec_split(s@),
            2,
        ),
{
    let segs = split_positions(s);
    if segs.len() < 3 {
        return None;
    }
    let (f0, f1) = (segs[1].0, segs[1].1);
    let front = String::from_str(s.substring_char(f0, f1));
    let mut body = String::new();
    let mut k: usize = 2;
    while k < segs.len()
        invariant
            2 <= k <= segs@.len(),
            segs@.len() == spec_split(s@).len(),
            forall|j: int|
                0 <= j < segs@.len() ==> 0 <= (#[trigger] segs@[j]).0 <= segs@[j].1 <= s@.len()
                    && s@.subrange(segs@[j].0 as int, segs@[j].1 as int) == spec_split(s@)[j],
            body@ + join_from(spec_split(s@), k as int) == join_from(spec_split(s@), 2),
        decreases segs@.len() - k,
    {
        let (a, b) = (segs[k].0, segs[k].1);
        let piece = s.substring_char(a, b);
        body.append(piece);
        k = k + 1;
        proof {
            assert(body@ + join_from(spec_split(s@), k as int) =~= join_from(
                spec_split(s@),
                2,
            ));
        }
    }
    proof {
        assert(body@ =~= join_from(spec_split(s@), 2));
    }
    Some((front, body))
}

} // verus!
