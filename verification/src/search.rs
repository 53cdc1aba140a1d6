use vstd::prelude::*;

verus! {

/// `needle` occurs in `hay` starting at position `i`.
pub open spec fn sub_at(hay: Seq<u8>, needle: Seq<u8>, i: int) -> bool {
    &&& 0 <= i
    &&& i + needle.len() <= hay.len()
    &&& forall|j: int| 0 <= j < needle.len() ==> hay[i + j] == needle[j]
}

/// `needle` occurs somewhere in `hay`.
pub open spec fn contains_sub_spec(hay: Seq<u8>, needle: Seq<u8>) -> bool {
    exists|i: int| sub_at(hay, needle, i)
}

/// `hay` with every occurrence of `needle` removed, scanning left to right
/// and never rescanning the bytes of a removed occurrence — the discipline
/// of replacing each match with the empty string.
pub open spec fn strip_sub_spec(hay: Seq<u8>, needle: Seq<u8>) -> Seq<u8>
    decreases hay.len(),
{
    if hay.len() == 0 {
        hay
    } else if needle.len() > 0 && sub_at(hay, needle, 0) {
        strip_sub_spec(hay.skip(needle.len() as int), needle)
    } else {
        seq![hay[0]] + strip_sub_spec(hay.skip(1), needle)
    }
}

/// Does `needle` occur in `hay` at position `i`?
pub fn matches_at(hay: &[u8], needle: &[u8], i: usize) -> (r: bool)
    requires
        i <= hay@.len(),
    ensures
        r == sub_at(hay@, needle@, i as int),
{
    let nlen = needle.len();
    let hlen = hay.len();
    if hlen - i < nlen {
        return false;
    }
    let mut j: usize = 0;
    while j < nlen
        invariant
            j <= nlen,
            nlen == needle@.len(),
            hlen == hay@.len(),
            i + nlen <= hlen,
            forall|k: int| 0 <= k < j ==> hay@[i + k] == needle@[k],
        decreases nlen - j,
    {
        if hay[i + j] != needle[j] {
            return false;
        }
        j += 1;
    }
    true
}

/// Does `needle` occur anywhere in `hay`?
pub fn contains_sub(hay: &[u8], needle: &[u8]) -> (r: bool)
    ensures
        r == contains_sub_spec(hay@, needle@),
{
    let hlen = hay.len();
    let mut i: usize = 0;
    while i < hlen
        invariant
            i <= hlen,
            hlen == hay@.len(),
            forall|k: int| 0 <= k < i ==> !sub_at(hay@, needle@, k),
        decreases hlen - i,
    {
        if matches_at(hay, needle, i) {
            return true;
        }
        i += 1;
    }
    if matches_at(hay, needle, hlen) {
        return true;
    }
    proof {
        assert(forall|k: int| sub_at(hay@, needle@, k) ==> 0 <= k <= hay@.len());
    }
    false
}

/// Remove every occurrence of `needle` from `hay`, scanning left to right.
pub fn strip_sub(hay: &[u8], needle: &[u8]) -> (r: Vec<u8>)
    requires
        needle@.len() > 0,
    ensures
        r@ == strip_sub_spec(hay@, needle@),
{
    let hlen = hay.len();
    let nlen = needle.len();
    let mut out: Vec<u8> = Vec::new();
    let mut i: usize = 0;
    proof {
        assert(hay@.skip(0) =~= hay@);
        assert(out@ + strip_sub_spec(hay@, needle@) =~= strip_sub_spec(hay@, needle@));
    }
    while i < hlen
        invariant
            i <= hlen,
            hlen == hay@.len(),
            nlen == needle@.len(),
            nlen > 0,
            strip_sub_spec(hay@, needle@) == out@ + strip_sub_spec(hay@.skip(i as int), needle@),
        decreases hlen - i,
    {
        let ghost tail = hay@.skip(i as int);
        if matches_at(hay, needle, i) {
            proof {
                assert(sub_at(tail, needle@, 0)) by {
                    assert(forall|j: int| 0 <= j < needle@.len() ==> tail[j] == hay@[i + j]);
                }
                assert(tail.skip(needle@.len() as int) =~= hay@.skip(i + nlen));
            }
            i += nlen;
        } else {
            proof {
                assert(!sub_at(tail, needle@, 0)) by {
                    if sub_at(tail, needle@, 0) {
                        assert(forall|j: int|
                            0 <= j < needle@.len() ==> hay@[i + j] == tail[j]);
                    }
                }
                assert(tail.skip(1) =~= hay@.skip(i + 1));
                assert(seq![tail[0]] =~= seq![hay@[i as int]]);
            }
            out.push(hay[i]);
            i += 1;
        }
    }
    proof {
        assert(hay@.skip(i as int) =~= Seq::<u8>::empty());
        assert(out@ + strip_sub_spec(hay@.skip(i as int), needle@) =~= out@);
    }
    out
}

} // verus!
