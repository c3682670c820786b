//! Byte-level text utilities the decoder rests on: splitting a byte sequence
//! on a separator and trimming whitespace, each verified against a spec.

use vstd::prelude::*;

verus! {

/// An ASCII whitespace byte: space, tab, line feed, vertical tab, form feed
/// or carriage return.
pub open spec fn is_space(b: u8) -> bool {
    b == 32 || b == 9 || b == 10 || b == 11 || b == 12 || b == 13
}

/// The position of the first occurrence of `sep` in `s`, or `s.len()` when
/// `sep` does not occur.
pub open spec fn first_sep(s: Seq<u8>, sep: u8) -> nat
    decreases s.len(),
{
    if s.len() == 0 {
        0
    } else if s[0] == sep {
        0
    } else {
        1 + first_sep(s.skip(1), sep)
    }
}

pub proof fn lemma_first_sep(s: Seq<u8>, sep: u8)
    ensures
        first_sep(s, sep) <= s.len(),
        forall|k: int| 0 <= k < first_sep(s, sep) ==> s[k] != sep,
        first_sep(s, sep) < s.len() ==> s[first_sep(s, sep) as int] == sep,
    decreases s.len(),
{
    if s.len() == 0 {
    } else if s[0] == sep {
    } else {
        lemma_first_sep(s.skip(1), sep);
        assert forall|k: int| 0 <= k < first_sep(s, sep) implies s[k] != sep by {
            if k > 0 {
                assert(s.skip(1)[k - 1] == s[k]);
            }
        }
        if first_sep(s, sep) < s.len() {
            assert(s.skip(1)[first_sep(s, sep) - 1] == s[first_sep(s, sep) as int]);
        }
    }
}

/// `first_sep` is pinned by any witness position: `sep` at `m`, none before.
pub proof fn lemma_first_sep_at(s: Seq<u8>, sep: u8, m: int)
    requires
        0 <= m < s.len(),
        forall|k: int| 0 <= k < m ==> s[k] != sep,
        s[m] == sep,
    ensures
        first_sep(s, sep) == m,
{
    lemma_first_sep(s, sep);
}

/// When `sep` does not occur in `s`, `first_sep` is `s.len()`.
pub proof fn lemma_first_sep_none(s: Seq<u8>, sep: u8)
    requires
        forall|k: int| 0 <= k < s.len() ==> s[k] != sep,
    ensures
        first_sep(s, sep) == s.len(),
{
    lemma_first_sep(s, sep);
}

/// The segments of `s` between occurrences of `sep`, in order. A sequence
/// with no separator is one segment; each separator ends a segment, so `n`
/// separators give `n + 1` segments, empty ones included.
pub open spec fn split_on(s: Seq<u8>, sep: u8) -> Seq<Seq<u8>>
    decreases s.len(),
{
    let f = first_sep(s, sep);
    if f >= s.len() {
        seq![s]
    } else {
        seq![s.take(f as int)] + split_on(s.skip(f as int + 1), sep)
    }
}

/// The views of a sequence of byte vectors.
pub open spec fn seqs_of(v: Seq<Vec<u8>>) -> Seq<Seq<u8>> {
    v.map_values(|x: Vec<u8>| x@)
}

/// Splits `s` on the byte `sep`, as [`split_on`] describes.
pub fn split_bytes(s: &[u8], sep: u8) -> (r: Vec<Vec<u8>>)
    ensures
        seqs_of(r@) == split_on(s@, sep),
{
    let n = s.len();
    let mut r: Vec<Vec<u8>> = Vec::new();
    let mut cur: Vec<u8> = Vec::new();
    let mut start: usize = 0;
    let mut i: usize = 0;
    proof {
        assert(s@.skip(0) =~= s@);
        assert(cur@ =~= s@.subrange(0, 0));
        assert(seqs_of(r@) + split_on(s@, sep) =~= split_on(s@, sep));
    }
    while i < n
        invariant
            start <= i <= n == s@.len(),
            cur@ == s@.subrange(start as int, i as int),
            forall|k: int| start <= k < i ==> s@[k] != sep,
            split_on(s@, sep) == seqs_of(r@) + split_on(s@.skip(start as int), sep),
        decreases n - i,
    {
        let b = s[i];
        if b == sep {
            proof {
                let t = s@.skip(start as int);
                let m = i - start;
                assert forall|k: int| 0 <= k < m implies t[k] != sep by {
                    assert(t[k] == s@[start + k]);
                }
                assert(t[m] == s@[i as int]);
                lemma_first_sep_at(t, sep, m);
                assert(t.take(m) =~= s@.subrange(start as int, i as int));
                assert(t.skip(m + 1) =~= s@.skip(i + 1));
                assert(seqs_of(r@.push(cur)) =~= seqs_of(r@).push(cur@));
                assert(seqs_of(r@) + (seq![t.take(m)] + split_on(s@.skip(i + 1), sep)) =~= seqs_of(
                    r@.push(cur),
                ) + split_on(s@.skip(i + 1), sep));
            }
            r.push(cur);
            cur = Vec::new();
            start = i + 1;
            proof {
                assert(cur@ =~= s@.subrange(start as int, start as int));
            }
        } else {
            cur.push(b);
            proof {
                assert(cur@ =~= s@.subrange(start as int, i + 1));
            }
        }
        i += 1;
    }
    proof {
        let t = s@.skip(start as int);
        assert forall|k: int| 0 <= k < t.len() implies t[k] != sep by {
            assert(t[k] == s@[start + k]);
        }
        lemma_first_sep_none(t, sep);
        assert(t =~= s@.subrange(start as int, n as int));
        assert(seqs_of(r@) + seq![t] =~= seqs_of(r@.push(cur)));
    }
    r.push(cur);
    r
}

/// `s` without its leading whitespace.
pub open spec fn trim_front(s: Seq<u8>) -> Seq<u8>
    decreases s.len(),
{
    if s.len() > 0 && is_space(s[0]) {
        trim_front(s.skip(1))
    } else {
        s
    }
}

/// `s` without its trailing whitespace.
pub open spec fn trim_back(s: Seq<u8>) -> Seq<u8>
    decreases s.len(),
{
    if s.len() > 0 && is_space(s.last()) {
        trim_back(s.drop_last())
    } else {
        s
    }
}

/// `s` without leading and trailing whitespace.
pub open spec fn trimmed(s: Seq<u8>) -> Seq<u8> {
    trim_back(trim_front(s))
}

/// Trims ASCII whitespace from both ends of `s`, as [`trimmed`] describes.
pub fn trim_bytes(s: &[u8]) -> (r: Vec<u8>)
    ensures
        r@ == trimmed(s@),
{
    let n = s.len();
    let mut a: usize = 0;
    proof {
        assert(s@.skip(0) =~= s@);
    }
    while a < n && (s[a] == 32 || s[a] == 9 || s[a] == 10 || s[a] == 11 || s[a] == 12 || s[a]
        == 13)
        invariant
            a <= n == s@.len(),
            trim_front(s@) == trim_front(s@.skip(a as int)),
        decreases n - a,
    {
        proof {
            let t = s@.skip(a as int);
            assert(t[0] == s@[a as int]);
            assert(t.skip(1) =~= s@.skip(a + 1));
        }
        a += 1;
    }
    proof {
        let t = s@.skip(a as int);
        if a < n {
            assert(t[0] == s@[a as int]);
        }
        assert(trim_front(s@) == t);
    }
    let mut b: usize = n;
    while b > a && (s[b - 1] == 32 || s[b - 1] == 9 || s[b - 1] == 10 || s[b - 1] == 11 || s[b - 1]
        == 12 || s[b - 1] == 13)
        invariant
            a <= b <= n == s@.len(),
            trim_back(s@.skip(a as int)) == trim_back(s@.subrange(a as int, b as int)),
        decreases b,
    {
        proof {
            let u = s@.subrange(a as int, b as int);
            assert(u.last() == s@[b - 1]);
            assert(u.drop_last() =~= s@.subrange(a as int, b - 1));
        }
        b -= 1;
    }
    proof {
        let u = s@.subrange(a as int, b as int);
        if b > a {
            assert(u.last() == s@[b - 1]);
        }
        assert(trimmed(s@) == u);
    }
    let mut r: Vec<u8> = Vec::new();
    let mut i: usize = a;
    while i < b
        invariant
            a <= i <= b <= n == s@.len(),
            r@ == s@.subrange(a as int, i as int),
        decreases b - i,
    {
        r.push(s[i]);
        proof {
            assert(r@ =~= s@.subrange(a as int, i + 1));
        }
        i += 1;
    }
    r
}

} // verus!
