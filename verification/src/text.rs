//! Byte-level text helpers for the line-oriented sensor protocol: ASCII
//! whitespace trimming, byte search, and separator splitting, each with a
//! mathematical model and a verified implementation.

use vstd::prelude::*;

verus! {

/// ASCII whitespace: space, tab, line feed, vertical tab, form feed,
/// carriage return.
pub open spec fn is_space(b: u8) -> bool {
    b == 32 || b == 9 || b == 10 || b == 11 || b == 12 || b == 13
}

/// Index of the first occurrence of `c` in `s`, or -1 when `c` does not
/// occur.
pub open spec fn find_byte(s: Seq<u8>, c: u8) -> int
    decreases s.len(),
{
    if s.len() == 0 {
        -1
    } else if s[0] == c {
        0
    } else {
        let r = find_byte(s.drop_first(), c);
        if r == -1 {
            -1
        } else {
            r + 1
        }
    }
}

/// `find_byte` returns -1 exactly when `c` is absent, and otherwise the
/// smallest index holding `c`.
pub proof fn lemma_find_byte(s: Seq<u8>, c: u8)
    ensures
        find_byte(s, c) == -1 ==> forall|i: int| 0 <= i < s.len() ==> s[i] != c,
        find_byte(s, c) != -1 ==> {
            &&& 0 <= find_byte(s, c) < s.len()
            &&& s[find_byte(s, c)] == c
            &&& forall|i: int| 0 <= i < find_byte(s, c) ==> s[i] != c
        },
    decreases s.len(),
{
    if s.len() > 0 && s[0] != c {
        let d = s.drop_first();
        lemma_find_byte(d, c);
        let r = find_byte(d, c);
        if r == -1 {
            assert forall|i: int| 0 <= i < s.len() implies s[i] != c by {
                if i >= 1 {
                    assert(d[i - 1] == s[i]);
                }
            }
        } else {
            assert(s[r + 1] == d[r]);
            assert forall|i: int| 0 <= i < r + 1 implies s[i] != c by {
                if i >= 1 {
                    assert(d[i - 1] == s[i]);
                }
            }
        }
    }
}

/// Everything from the first non-whitespace byte on.
pub open spec fn trim_start_sp(s: Seq<u8>) -> Seq<u8>
    decreases s.len(),
{
    if s.len() > 0 && is_space(s[0]) {
        trim_start_sp(s.drop_first())
    } else {
        s
    }
}

/// Everything up to the last non-whitespace byte.
pub open spec fn trim_end_sp(s: Seq<u8>) -> Seq<u8>
    decreases s.len(),
{
    if s.len() > 0 && is_space(s.last()) {
        trim_end_sp(s.drop_last())
    } else {
        s
    }
}

/// `s` with ASCII whitespace removed from both ends.
pub open spec fn trim_sp(s: Seq<u8>) -> Seq<u8> {
    trim_end_sp(trim_start_sp(s))
}

/// When the bytes before `i` are whitespace and `i` is past them,
/// trimming the start keeps exactly the suffix from `i`.
pub proof fn lemma_trim_start_at(s: Seq<u8>, i: int)
    requires
        0 <= i <= s.len(),
        forall|j: int| 0 <= j < i ==> is_space(s[j]),
        i == s.len() || !is_space(s[i]),
    ensures
        trim_start_sp(s) == s.subrange(i, s.len() as int),
    decreases i,
{
    if i == 0 {
        assert(trim_start_sp(s) =~= s.subrange(0, s.len() as int));
    } else {
        lemma_trim_start_at(s.drop_first(), i - 1);
        assert(s.drop_first().subrange(i - 1, s.drop_first().len() as int) =~= s.subrange(
            i,
            s.len() as int,
        ));
    }
}

/// When the bytes from `j` on are whitespace and `j` is right past a
/// non-whitespace byte, trimming the end keeps exactly the prefix up to `j`.
pub proof fn lemma_trim_end_at(s: Seq<u8>, j: int)
    requires
        0 <= j <= s.len(),
        forall|k: int| j <= k < s.len() ==> is_space(s[k]),
        j == 0 || !is_space(s[j - 1]),
    ensures
        trim_end_sp(s) == s.subrange(0, j),
    decreases s.len() - j,
{
    if j == s.len() {
        assert(trim_end_sp(s) =~= s.subrange(0, j));
    } else {
        lemma_trim_end_at(s.drop_last(), j);
        assert(s.drop_last().subrange(0, j) =~= s.subrange(0, j));
    }
}

/// `s` split at every occurrence of `c`; a sequence with no separator is a
/// single segment, and adjacent separators yield empty segments.
pub open spec fn split_on(s: Seq<u8>, c: u8) -> Seq<Seq<u8>>
    decreases s.len(),
{
    if s.len() == 0 {
        seq![Seq::<u8>::empty()]
    } else if s[0] == c {
        seq![Seq::<u8>::empty()] + split_on(s.drop_first(), c)
    } else {
        let rest = split_on(s.drop_first(), c);
        seq![seq![s[0]] + rest[0]] + rest.drop_first()
    }
}

/// A split always has at least one segment.
pub proof fn lemma_split_on_len(s: Seq<u8>, c: u8)
    ensures
        split_on(s, c).len() >= 1,
    decreases s.len(),
{
    if s.len() > 0 {
        lemma_split_on_len(s.drop_first(), c);
    }
}

/// The views of a sequence of byte vectors.
pub open spec fn seq_views(r: Seq<Vec<u8>>) -> Seq<Seq<u8>> {
    r.map_values(|v: Vec<u8>| v@)
}

/// Whether `b` is ASCII whitespace.
pub fn is_space_byte(b: u8) -> (r: bool)
    ensures
        r == is_space(b),
{
    b == 32 || b == 9 || b == 10 || b == 11 || b == 12 || b == 13
}

/// First occurrence of `c` in `s` at or after `start`.
pub fn find_byte_from(s: &[u8], c: u8, start: usize) -> (r: Option<usize>)
    requires
        start <= s@.len(),
    ensures
        match r {
            Some(j) => {
                &&& start <= j < s@.len()
                &&& s@[j as int] == c
                &&& forall|i: int| start <= i < j ==> s@[i] != c
            },
            None => forall|i: int| start <= i < s@.len() ==> s@[i] != c,
        },
{
    let mut k = start;
    while k < s.len()
        invariant
            start <= k <= s@.len(),
            forall|i: int| start <= i < k ==> s@[i] != c,
        decreases s@.len() - k,
    {
        if s[k] == c {
            return Some(k);
        }
        k = k + 1;
    }
    None
}

/// A fresh copy of `s[start..end]`.
pub fn sub_vec(s: &[u8], start: usize, end: usize) -> (r: Vec<u8>)
    requires
        start <= end <= s@.len(),
    ensures
        r@ == s@.subrange(start as int, end as int),
{
    let mut r: Vec<u8> = Vec::new();
    let mut k = start;
    while k < end
        invariant
            start <= k <= end <= s@.len(),
            r@ =~= s@.subrange(start as int, k as int),
        decreases end - k,
    {
        r.push(s[k]);
        k = k + 1;
    }
    proof {
        assert(r@ =~= s@.subrange(start as int, end as int));
    }
    r
}

/// Appends all of `src` to `dst`.
pub fn append_bytes(dst: &mut Vec<u8>, src: &[u8])
    ensures
        final(dst)@ == old(dst)@ + src@,
{
    let mut k: usize = 0;
    while k < src.len()
        invariant
            k <= src@.len(),
            dst@ =~= old(dst)@ + src@.subrange(0, k as int),
        decreases src@.len() - k,
    {
        dst.push(src[k]);
        k = k + 1;
    }
    proof {
        assert(dst@ =~= old(dst)@ + src@);
    }
}

/// `s` with ASCII whitespace removed from both ends, as a fresh vector.
pub fn trim_bytes(s: &[u8]) -> (r: Vec<u8>)
    ensures
        r@ == trim_sp(s@),
{
    let mut i: usize = 0;
    while i < s.len() && is_space_byte(s[i])
        invariant
            i <= s@.len(),
            forall|j: int| 0 <= j < i ==> is_space(s@[j]),
        decreases s@.len() - i,
    {
        i = i + 1;
    }
    let mut j: usize = s.len();
    while j > i && is_space_byte(s[j - 1])
        invariant
            i <= j <= s@.len(),
            forall|k: int| j <= k < s@.len() ==> is_space(s@[k]),
        decreases j,
    {
        j = j - 1;
    }
    proof {
        let t = s@.subrange(i as int, s@.len() as int);
        lemma_trim_start_at(s@, i as int);
        lemma_trim_end_at(t, j - i);
        assert(t.subrange(0, j - i) =~= s@.subrange(i as int, j as int));
    }
    sub_vec(s, i, j)
}

/// The remaining split when the bytes up to the current position have been
/// consumed and `cur` holds the segment accumulated since the last
/// separator.
pub open spec fn split_rest(cur: Seq<u8>, rest: Seq<u8>, c: u8) -> Seq<Seq<u8>> {
    let tail = split_on(rest, c);
    seq![cur + tail[0]] + tail.drop_first()
}

/// `s` split at every occurrence of `c`, as fresh vectors.
pub fn split_bytes(s: &[u8], c: u8) -> (r: Vec<Vec<u8>>)
    ensures
        seq_views(r@) == split_on(s@, c),
{
    let mut r: Vec<Vec<u8>> = Vec::new();
    let mut cur: Vec<u8> = Vec::new();
    let mut k: usize = 0;
    proof {
        lemma_split_on_len(s@, c);
        assert(s@.skip(0) =~= s@);
        assert(split_on(s@, c) =~~= seq_views(r@) + split_rest(cur@, s@.skip(0), c));
    }
    while k < s.len()
        invariant
            k <= s@.len(),
            split_on(s@, c) =~~= seq_views(r@) + split_rest(cur@, s@.skip(k as int), c),
        decreases s@.len() - k,
    {
        let b = s[k];
        proof {
            let tail_k = s@.skip(k as int);
            let tail_next = s@.skip(k as int + 1);
            assert(tail_k[0] == b);
            assert(tail_k.drop_first() =~= tail_next);
            lemma_split_on_len(tail_next, c);
            if b == c {
                assert(split_on(tail_k, c) == seq![Seq::<u8>::empty()] + split_on(tail_next, c));
                assert(split_rest(cur@, tail_k, c) =~~= seq![cur@] + split_on(tail_next, c));
                assert(split_rest(Seq::<u8>::empty(), tail_next, c) =~~= split_on(tail_next, c));
                assert(seq_views(r@.push(cur)) =~~= seq_views(r@) + seq![cur@]);
            } else {
                let q = split_on(tail_next, c);
                assert(split_on(tail_k, c) == seq![seq![b] + q[0]] + q.drop_first());
                assert((seq![seq![b] + q[0]] + q.drop_first()).drop_first() =~~= q.drop_first());
                assert(split_rest(cur@, tail_k, c) =~~= seq![cur@ + seq![b] + q[0]]
                    + q.drop_first());
                assert(split_rest(cur@.push(b), tail_next, c) =~~= seq![cur@ + seq![b] + q[0]]
                    + q.drop_first());
            }
        }
        if b == c {
            r.push(cur);
            cur = Vec::new();
        } else {
            cur.push(b);
        }
        k = k + 1;
    }
    proof {
        assert(s@.skip(s@.len() as int) =~= Seq::<u8>::empty());
        assert(split_on(Seq::<u8>::empty(), c) == seq![Seq::<u8>::empty()]);
        assert(split_rest(cur@, s@.skip(s@.len() as int), c) =~~= seq![cur@]);
        assert(seq_views(r@.push(cur)) =~~= seq_views(r@) + seq![cur@]);
        assert(split_on(s@, c) =~~= seq_views(r@.push(cur)));
    }
    r.push(cur);
    r
}

} // verus!
