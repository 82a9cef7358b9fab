//! Character-level text primitives used by the prompt builder and the parser.
//!
//! Text is handled as `Vec<char>`, whose view is the same `Seq<char>` that
//! `String` and `&str` have, so positions are counted in characters.
use vstd::prelude::*;

verus! {

/// `p` occurs in `s` starting at position `i`.
pub open spec fn occurs_at(s: Seq<char>, p: Seq<char>, i: int) -> bool {
    0 <= i && i + p.len() <= s.len() && s.subrange(i, i + p.len()) == p
}

/// The first position at or after `i` where `p` occurs in `s`, or -1.
pub open spec fn find_from(s: Seq<char>, p: Seq<char>, i: int) -> int
    decreases s.len() + 1 - i,
{
    if i < 0 || i + p.len() > s.len() {
        -1
    } else if occurs_at(s, p, i) {
        i
    } else {
        find_from(s, p, i + 1)
    }
}

/// The position of the first occurrence of `p` in `s`, or -1.
pub open spec fn first_index(s: Seq<char>, p: Seq<char>) -> int {
    find_from(s, p, 0)
}

/// `p` occurs somewhere in `s`.
pub open spec fn occurs(s: Seq<char>, p: Seq<char>) -> bool {
    first_index(s, p) >= 0
}

/// The text before the first occurrence of `p`; all of `s` where `p` does not occur.
pub open spec fn before(s: Seq<char>, p: Seq<char>) -> Seq<char> {
    if occurs(s, p) {
        s.take(first_index(s, p))
    } else {
        s
    }
}

/// The text after the first occurrence of `p`; empty where `p` does not occur.
pub open spec fn after(s: Seq<char>, p: Seq<char>) -> Seq<char> {
    if occurs(s, p) {
        s.skip(first_index(s, p) + p.len())
    } else {
        Seq::empty()
    }
}

/// The characters with the Unicode `White_Space` property.
pub open spec fn is_white(c: char) -> bool {
    ||| c == '\t'
    ||| c == '\n'
    ||| c == '\u{0B}'
    ||| c == '\u{0C}'
    ||| c == '\r'
    ||| c == ' '
    ||| c == '\u{85}'
    ||| c == '\u{A0}'
    ||| c == '\u{1680}'
    ||| ('\u{2000}' as u32 <= c as u32 && c as u32 <= '\u{200A}' as u32)
    ||| c == '\u{2028}'
    ||| c == '\u{2029}'
    ||| c == '\u{202F}'
    ||| c == '\u{205F}'
    ||| c == '\u{3000}'
}

/// `s` without its leading white space.
pub open spec fn trim_start(s: Seq<char>) -> Seq<char>
    decreases s.len(),
{
    if s.len() > 0 && is_white(s[0]) {
        trim_start(s.drop_first())
    } else {
        s
    }
}

/// `s` without its trailing white space.
pub open spec fn trim_end(s: Seq<char>) -> Seq<char>
    decreases s.len(),
{
    if s.len() > 0 && is_white(s.last()) {
        trim_end(s.drop_last())
    } else {
        s
    }
}

/// `s` without leading and trailing white space.
pub open spec fn trim(s: Seq<char>) -> Seq<char> {
    trim_end(trim_start(s))
}

/// `s` with every occurrence of `p`, taken left to right without overlap,
/// replaced by `r`.
pub open spec fn replace_all(s: Seq<char>, p: Seq<char>, r: Seq<char>) -> Seq<char>
    decreases s.len(),
{
    let i = first_index(s, p);
    if p.len() == 0 || i < 0 || i + p.len() > s.len() {
        s
    } else {
        s.take(i) + r + replace_all(s.skip(i + p.len()), p, r)
    }
}

/// What `find_from` returns is an occurrence, and no occurrence comes before it.
pub proof fn lemma_find_from(s: Seq<char>, p: Seq<char>, i: int)
    requires
        0 <= i,
    ensures
        find_from(s, p, i) == -1 || (i <= find_from(s, p, i) && occurs_at(
            s,
            p,
            find_from(s, p, i),
        )),
        forall|j: int|
            i <= j && (find_from(s, p, i) == -1 || j < find_from(s, p, i)) ==> !occurs_at(s, p, j),
    decreases s.len() + 1 - i,
{
    if i + p.len() <= s.len() && !occurs_at(s, p, i) {
        lemma_find_from(s, p, i + 1);
    }
}

/// An occurrence with none before it is the first one.
pub proof fn lemma_first_index_is(s: Seq<char>, p: Seq<char>, k: int)
    requires
        occurs_at(s, p, k),
        forall|j: int| 0 <= j < k ==> !occurs_at(s, p, j),
    ensures
        first_index(s, p) == k,
{
    lemma_find_from(s, p, 0);
}

/// Where `p` occurs nowhere, there is no first occurrence.
pub proof fn lemma_first_index_none(s: Seq<char>, p: Seq<char>)
    requires
        forall|j: int| !occurs_at(s, p, j),
    ensures
        first_index(s, p) == -1,
{
    lemma_find_from(s, p, 0);
}

/// A first occurrence lies within `s`.
pub proof fn lemma_first_index_bounds(s: Seq<char>, p: Seq<char>)
    ensures
        occurs(s, p) ==> first_index(s, p) + p.len() <= s.len() && occurs_at(s, p, first_index(s, p)),
        !occurs(s, p) ==> first_index(s, p) == -1,
{
    lemma_find_from(s, p, 0);
}

/// An occurrence makes `p` occur, no later than it.
pub proof fn lemma_occurs_at_occurs(s: Seq<char>, p: Seq<char>, k: int)
    requires
        occurs_at(s, p, k),
    ensures
        occurs(s, p),
        first_index(s, p) <= k,
{
    lemma_find_from(s, p, 0);
}

/// In `x + q + y + z`, no occurrence of `m` starts before `z` where none
/// starts in `x`, none lies in `q`, and the first character of `y` is no
/// character of `m` while no character of `y` starts `m`.
pub proof fn lemma_no_early_occurrence(
    x: Seq<char>,
    q: Seq<char>,
    y: Seq<char>,
    z: Seq<char>,
    m: Seq<char>,
)
    requires
        m.len() > 0,
        !occurs(q, m),
        y.len() > 0,
        forall|i: int| 0 <= i < m.len() ==> m[i] != y[0],
        forall|i: int| 0 <= i < y.len() ==> y[i] != m[0],
        forall|i: int| 0 <= i < x.len() ==> !occurs_at(x + q + y + z, m, i),
    ensures
        forall|j: int| 0 <= j < x.len() + q.len() + y.len() ==> !occurs_at(x + q + y + z, m, j),
{
    let s = x + q + y + z;
    assert forall|j: int| 0 <= j < x.len() + q.len() + y.len() implies !occurs_at(s, m, j) by {
        if j >= x.len() && occurs_at(s, m, j) {
            let k = j - x.len();
            if k < q.len() {
                if k + m.len() <= q.len() {
                    assert(q.subrange(k, k + m.len()) =~= s.subrange(j, j + m.len()));
                    lemma_occurs_at_occurs(q, m, k);
                } else {
                    let t = x.len() + q.len() - j;
                    assert(s.subrange(j, j + m.len())[t] == s[(x.len() + q.len()) as int]);
                    assert(s[(x.len() + q.len()) as int] == y[0]);
                }
            } else {
                assert(s.subrange(j, j + m.len())[0] == s[j]);
                assert(s[j] == y[k - q.len()]);
            }
        }
    }
}

/// Where `m` does not start before the end of `s`'s possible windows, it does not occur.
pub proof fn lemma_occurs_none_before(s: Seq<char>, m: Seq<char>, n: int)
    requires
        m.len() > 0,
        n + m.len() > s.len(),
        forall|j: int| 0 <= j < n ==> !occurs_at(s, m, j),
    ensures
        !occurs(s, m),
{
    lemma_first_index_none(s, m);
}

/// Leading white space does not change the trimmed text.
pub proof fn lemma_trim_lead_white(c: char, s: Seq<char>)
    requires
        is_white(c),
    ensures
        trim(seq![c] + s) == trim(s),
{
    assert((seq![c] + s).drop_first() =~= s);
}

/// Trailing white space does not change the trimmed text.
pub proof fn lemma_trim_end_white(u: Seq<char>, c: char)
    requires
        is_white(c),
    ensures
        trim_end(u + seq![c]) == trim_end(u),
{
    assert((u + seq![c]).drop_last() =~= u);
}

/// Text after a non-blank sequence survives its leading trim.
pub proof fn lemma_trim_start_append(q: Seq<char>, t: Seq<char>)
    requires
        trim_start(q).len() > 0,
    ensures
        trim_start(q + t) == trim_start(q) + t,
    decreases q.len(),
{
    if q.len() > 0 && is_white(q[0]) {
        assert((q + t).drop_first() =~= q.drop_first() + t);
        lemma_trim_start_append(q.drop_first(), t);
    } else if q.len() > 0 {
        assert((q + t)[0] == q[0]);
    }
}

/// White space on both sides does not change the trimmed text.
pub proof fn lemma_trim_padded(a: char, q: Seq<char>, b: char)
    requires
        is_white(a),
        is_white(b),
        trim(q).len() > 0,
    ensures
        trim(seq![a] + q + seq![b]) == trim(q),
{
    assert(seq![a] + q + seq![b] =~= seq![a] + (q + seq![b]));
    lemma_trim_lead_white(a, q + seq![b]);
    if trim_start(q).len() == 0 {
        assert(trim(q).len() == 0);
    }
    lemma_trim_start_append(q, seq![b]);
    lemma_trim_end_white(trim_start(q), b);
}

/// The characters of `s`, in order.
pub fn chars_of(s: &str) -> (v: Vec<char>)
    ensures
        v@ == s@,
{
    let mut v: Vec<char> = Vec::new();
    for c in it: s.chars()
        invariant
            it.seq() == s@,
            v@ == s@.take(it.index() as int),
    {
        v.push(c);
    }
    proof {
        assert(v@ =~= s@);
    }
    v
}

/// Relies on std's `FromIterator<char>` for `String`: the string holds the
/// given characters in order.
#[verifier::external_body]
pub(crate) fn string_of(v: &Vec<char>) -> (r: String)
    ensures
        r@ == v@,
{
    v.iter().collect()
}

/// Whether `p` occurs in `h` at position `i`.
pub fn matches_at(h: &Vec<char>, p: &Vec<char>, i: usize) -> (r: bool)
    requires
        i + p@.len() <= h@.len(),
    ensures
        r == occurs_at(h@, p@, i as int),
{
    let hl: usize = h.len();
    let mut k: usize = 0;
    while k < p.len()
        invariant
            hl == h@.len(),
            k <= p@.len(),
            i + p@.len() <= h@.len(),
            forall|j: int| 0 <= j < k ==> h@[i + j] == p@[j],
        decreases p@.len() - k,
    {
        assert(i + k < h@.len());
        if h[i + k] != p[k] {
            proof {
                assert(h@.subrange(i as int, i + p@.len())[k as int] != p@[k as int]);
            }
            return false;
        }
        k += 1;
    }
    assert(h@.subrange(i as int, i + p@.len()) =~= p@);
    true
}

/// The position of the first occurrence of `p` in `h`.
pub fn index_of(h: &Vec<char>, p: &Vec<char>) -> (r: Option<usize>)
    ensures
        match r {
            Some(i) => first_index(h@, p@) == i as int,
            None => first_index(h@, p@) == -1,
        },
{
    if p.len() > h.len() {
        return None;
    }
    if p.len() == 0 {
        assert(h@.subrange(0, 0) =~= p@);
        return Some(0);
    }
    let last: usize = h.len() - p.len();
    let mut i: usize = 0;
    while i <= last
        invariant
            i <= last + 1,
            p@.len() > 0,
            h@.len() <= usize::MAX,
            last + p@.len() == h@.len(),
            find_from(h@, p@, 0) == find_from(h@, p@, i as int),
        decreases last + 1 - i,
    {
        if matches_at(h, p, i) {
            return Some(i);
        }
        i += 1;
    }
    None
}

/// Whether `p` occurs in `h`.
pub fn contains(h: &Vec<char>, p: &Vec<char>) -> (r: bool)
    ensures
        r == occurs(h@, p@),
{
    index_of(h, p).is_some()
}

/// The characters of `v` from `lo` up to `hi`.
pub fn slice(v: &Vec<char>, lo: usize, hi: usize) -> (r: Vec<char>)
    requires
        lo <= hi <= v@.len(),
    ensures
        r@ == v@.subrange(lo as int, hi as int),
{
    let mut r: Vec<char> = Vec::new();
    let mut i: usize = lo;
    while i < hi
        invariant
            lo <= i <= hi <= v@.len(),
            r@ == v@.subrange(lo as int, i as int),
        decreases hi - i,
    {
        r.push(v[i]);
        i += 1;
        assert(r@ =~= v@.subrange(lo as int, i as int));
    }
    r
}

/// Adds the characters of `src` at the end of `dst`.
pub fn push_all(dst: &mut Vec<char>, src: &Vec<char>)
    ensures
        final(dst)@ == old(dst)@ + src@,
{
    let mut i: usize = 0;
    while i < src.len()
        invariant
            i <= src@.len(),
            dst@ == old(dst)@ + src@.take(i as int),
        decreases src@.len() - i,
    {
        dst.push(src[i]);
        i += 1;
        assert(dst@ =~= old(dst)@ + src@.take(i as int));
    }
    assert(src@.take(src@.len() as int) =~= src@);
}

/// The text of `s` before the first occurrence of `p`, or all of `s`.
pub fn text_before(s: &Vec<char>, p: &Vec<char>) -> (r: Vec<char>)
    ensures
        r@ == before(s@, p@),
{
    proof {
        lemma_first_index_bounds(s@, p@);
    }
    match index_of(s, p) {
        Some(i) => slice(s, 0, i),
        None => slice(s, 0, s.len()),
    }
}

/// The text of `s` after the first occurrence of `p`, or nothing.
pub fn text_after(s: &Vec<char>, p: &Vec<char>) -> (r: Vec<char>)
    ensures
        r@ == after(s@, p@),
{
    proof {
        lemma_first_index_bounds(s@, p@);
    }
    match index_of(s, p) {
        Some(i) => {
            let n: usize = s.len();
            assert(i + p@.len() <= n);
            slice(s, i + p.len(), s.len())
        },
        None => Vec::new(),
    }
}

/// Whether `c` is white space in the Unicode sense.
pub fn is_white_char(c: char) -> (r: bool)
    ensures
        r == is_white(c),
{
    let u: u32 = c as u32;
    c == '\t' || c == '\n' || c == '\u{0B}' || c == '\u{0C}' || c == '\r' || c == ' ' || c
        == '\u{85}' || c == '\u{A0}' || c == '\u{1680}' || (0x2000u32 <= u && u <= 0x200Au32) || c
        == '\u{2028}' || c == '\u{2029}' || c == '\u{202F}' || c == '\u{205F}' || c == '\u{3000}'
}

/// `v` without leading and trailing white space.
pub fn trimmed(v: &Vec<char>) -> (r: Vec<char>)
    ensures
        r@ == trim(v@),
{
    let n: usize = v.len();
    let mut lo: usize = 0;
    assert(v@.subrange(0, n as int) =~= v@);
    while lo < n && is_white_char(v[lo])
        invariant
            n == v@.len(),
            lo <= n,
            trim_start(v@) == trim_start(v@.subrange(lo as int, n as int)),
        decreases n - lo,
    {
        assert(v@.subrange(lo as int, n as int).drop_first() =~= v@.subrange(lo + 1, n as int));
        lo += 1;
    }
    let ghost rest = v@.subrange(lo as int, n as int);
    assert(trim_start(rest) == rest);
    let mut hi: usize = n;
    while hi > lo && is_white_char(v[hi - 1])
        invariant
            n == v@.len(),
            lo <= hi <= n,
            trim(v@) == trim_end(v@.subrange(lo as int, hi as int)),
        decreases hi - lo,
    {
        assert(v@.subrange(lo as int, hi as int).drop_last() =~= v@.subrange(lo as int, hi - 1));
        hi -= 1;
    }
    slice(v, lo, hi)
}

/// `s` with every occurrence of `p` replaced by `r`.
pub fn replaced(s: &Vec<char>, p: &Vec<char>, r: &Vec<char>) -> (out: Vec<char>)
    requires
        p@.len() > 0,
    ensures
        out@ == replace_all(s@, p@, r@),
{
    let mut out: Vec<char> = Vec::new();
    let mut rest: Vec<char> = slice(s, 0, s.len());
    assert(rest@ =~= s@);
    loop
        invariant
            p@.len() > 0,
            out@ + replace_all(rest@, p@, r@) == replace_all(s@, p@, r@),
        decreases rest@.len(),
    {
        proof {
            lemma_first_index_bounds(rest@, p@);
        }
        match index_of(&rest, p) {
            None => {
                push_all(&mut out, &rest);
                return out;
            },
            Some(i) => {
                let n: usize = rest.len();
                let head = slice(&rest, 0, i);
                let tail = slice(&rest, i + p.len(), n);
                assert(head@ =~= rest@.take(i as int));
                assert(tail@ =~= rest@.skip(i + p@.len()));
                push_all(&mut out, &head);
                push_all(&mut out, r);
                assert(out@ + replace_all(tail@, p@, r@) =~= replace_all(s@, p@, r@));
                rest = tail;
            },
        }
    }
}

} // verus!
