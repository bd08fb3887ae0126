//! Byte-level helpers for property payloads.
//!
//! Property replies carry their data as a flat byte vector; depending on the
//! declared format the bytes are read as 8-, 16- or 32-bit elements. The
//! connection delivers them in the client's native byte order; this crate
//! fixes that order as little-endian, the order of every machine it targets.
//! String properties carry NUL-joined UTF8 segments. Both directions are defined here as spec
//! functions with verified executable counterparts, together with the
//! round-trip lemmas the codec relies on.
use vstd::prelude::*;
use vstd::bytes::{
    lemma_auto_spec_u32_to_from_le_bytes, spec_u16_from_le_bytes, spec_u32_from_le_bytes,
    spec_u32_to_le_bytes, u16_from_le_bytes, u32_from_le_bytes, u32_to_le_bytes,
};
use vstd::slice::slice_to_vec;

verus! {

/// The 32-bit words encoded by a byte sequence, four bytes per word; a
/// trailing remainder of fewer than four bytes is dropped.
pub open spec fn words32_of(b: Seq<u8>) -> Seq<u32>
    decreases b.len(),
{
    if b.len() < 4 {
        Seq::empty()
    } else {
        seq![spec_u32_from_le_bytes(b.take(4))] + words32_of(b.skip(4))
    }
}

/// The 16-bit words encoded by a byte sequence, two bytes per word; a
/// trailing odd byte is dropped.
pub open spec fn words16_of(b: Seq<u8>) -> Seq<u16>
    decreases b.len(),
{
    if b.len() < 2 {
        Seq::empty()
    } else {
        seq![spec_u16_from_le_bytes(b.take(2))] + words16_of(b.skip(2))
    }
}

/// The byte encoding of a sequence of 32-bit words.
pub open spec fn bytes_of_words32(ws: Seq<u32>) -> Seq<u8>
    decreases ws.len(),
{
    if ws.len() == 0 {
        Seq::empty()
    } else {
        spec_u32_to_le_bytes(ws[0]) + bytes_of_words32(ws.drop_first())
    }
}

/// Serialising 32-bit words and reading them back yields the original words:
/// the byte layout of a 32-bit property payload is lossless.
pub proof fn lemma_words32_round_trip(ws: Seq<u32>)
    ensures
        words32_of(bytes_of_words32(ws)) == ws,
        bytes_of_words32(ws).len() == 4 * ws.len(),
    decreases ws.len(),
{
    lemma_auto_spec_u32_to_from_le_bytes();
    if ws.len() == 0 {
        assert(words32_of(bytes_of_words32(ws)) =~= ws);
    } else {
        let b = bytes_of_words32(ws);
        lemma_words32_round_trip(ws.drop_first());
        assert(b.take(4) =~= spec_u32_to_le_bytes(ws[0]));
        assert(b.skip(4) =~= bytes_of_words32(ws.drop_first()));
        assert(words32_of(b) =~= ws);
    }
}

/// Read the 32-bit words out of a byte payload.
pub fn words32_from_bytes(b: &[u8]) -> (r: Vec<u32>)
    ensures
        r@ == words32_of(b@),
{
    let mut r: Vec<u32> = Vec::new();
    let mut i: usize = 0;
    proof {
        assert(b@.skip(0) =~= b@);
        assert(r@ + words32_of(b@) =~= words32_of(b@));
    }
    while b.len() - i >= 4
        invariant
            i <= b.len(),
            words32_of(b@) == r@ + words32_of(b@.skip(i as int)),
        decreases b.len() - i,
    {
        let w = u32_from_le_bytes(&b[i..i + 4]);
        proof {
            assert(b@.skip(i as int).take(4) =~= b@.subrange(i as int, i as int + 4));
            assert(b@.skip(i as int).skip(4) =~= b@.skip(i as int + 4));
        }
        r.push(w);
        i = i + 4;
        proof {
            assert(words32_of(b@) =~= r@ + words32_of(b@.skip(i as int)));
        }
    }
    proof {
        assert(words32_of(b@) =~= r@);
    }
    r
}

/// Read the 16-bit words out of a byte payload.
pub fn words16_from_bytes(b: &[u8]) -> (r: Vec<u16>)
    ensures
        r@ == words16_of(b@),
{
    let mut r: Vec<u16> = Vec::new();
    let mut i: usize = 0;
    proof {
        assert(b@.skip(0) =~= b@);
        assert(r@ + words16_of(b@) =~= words16_of(b@));
    }
    while b.len() - i >= 2
        invariant
            i <= b.len(),
            words16_of(b@) == r@ + words16_of(b@.skip(i as int)),
        decreases b.len() - i,
    {
        let w = u16_from_le_bytes(&b[i..i + 2]);
        proof {
            assert(b@.skip(i as int).take(2) =~= b@.subrange(i as int, i as int + 2));
            assert(b@.skip(i as int).skip(2) =~= b@.skip(i as int + 2));
        }
        r.push(w);
        i = i + 2;
        proof {
            assert(words16_of(b@) =~= r@ + words16_of(b@.skip(i as int)));
        }
    }
    proof {
        assert(words16_of(b@) =~= r@);
    }
    r
}

/// Serialise 32-bit words into their byte payload.
pub fn words32_to_bytes(ws: &[u32]) -> (r: Vec<u8>)
    ensures
        r@ == bytes_of_words32(ws@),
{
    let mut r: Vec<u8> = Vec::new();
    let mut j: usize = 0;
    proof {
        assert(ws@.skip(0) =~= ws@);
        assert(r@ + bytes_of_words32(ws@) =~= bytes_of_words32(ws@));
    }
    while j < ws.len()
        invariant
            j <= ws.len(),
            bytes_of_words32(ws@) == r@ + bytes_of_words32(ws@.skip(j as int)),
        decreases ws.len() - j,
    {
        let mut bs = u32_to_le_bytes(ws[j]);
        proof {
            assert(ws@.skip(j as int)[0] == ws@[j as int]);
            assert(ws@.skip(j as int).drop_first() =~= ws@.skip(j as int + 1));
        }
        r.append(&mut bs);
        j = j + 1;
        proof {
            assert(bytes_of_words32(ws@) =~= r@ + bytes_of_words32(ws@.skip(j as int)));
        }
    }
    proof {
        assert(bytes_of_words32(ws@) =~= r@);
    }
    r
}

/// The index of the first NUL byte, or -1 when there is none.
pub open spec fn first_nul(b: Seq<u8>) -> int
    decreases b.len(),
{
    if b.len() == 0 {
        -1
    } else if b[0] == 0 {
        0
    } else {
        let r = first_nul(b.drop_first());
        if r < 0 {
            -1
        } else {
            r + 1
        }
    }
}

/// What `first_nul` returns: -1 exactly when no NUL occurs, otherwise the
/// position of the first NUL.
pub proof fn lemma_first_nul(b: Seq<u8>)
    ensures
        first_nul(b) == -1 || (0 <= first_nul(b) < b.len()),
        first_nul(b) == -1 ==> forall|i: int| 0 <= i < b.len() ==> b[i] != 0,
        first_nul(b) >= 0 ==> b[first_nul(b)] == 0,
        forall|i: int| 0 <= i < first_nul(b) ==> b[i] != 0,
    decreases b.len(),
{
    if b.len() == 0 {
    } else if b[0] == 0 {
    } else {
        lemma_first_nul(b.drop_first());
        assert forall|i: int| 0 <= i < b.len() && first_nul(b) == -1 implies b[i] != 0 by {
            if i > 0 {
                assert(b.drop_first()[i - 1] == b[i]);
            }
        }
        assert forall|i: int| 0 <= i < first_nul(b) implies b[i] != 0 by {
            if i > 0 {
                assert(b.drop_first()[i - 1] == b[i]);
            }
        }
    }
}

/// `first_nul` is pinned down by its characterisation: a NUL at `k` with no
/// NUL before it means `first_nul` is `k`.
pub proof fn lemma_first_nul_at(b: Seq<u8>, k: int)
    requires
        0 <= k < b.len(),
        b[k] == 0,
        forall|j: int| 0 <= j < k ==> b[j] != 0,
    ensures
        first_nul(b) == k,
{
    lemma_first_nul(b);
    let m = first_nul(b);
    if m == -1 {
        assert(b[k] != 0);
    } else if m < k {
        assert(b[m] != 0);
    } else if m > k {
        assert(b[k] != 0);
    }
}

/// The segments of a byte sequence split on NUL separators. Splitting never
/// yields an empty list: a sequence without NUL is one segment (possibly
/// empty), and each separator ends one segment and starts the next.
pub open spec fn split_nuls(b: Seq<u8>) -> Seq<Seq<u8>>
    decreases b.len(),
    via split_nuls_decreases
{
    let i = first_nul(b);
    if i < 0 {
        seq![b]
    } else {
        seq![b.take(i)] + split_nuls(b.skip(i + 1))
    }
}

#[via_fn]
proof fn split_nuls_decreases(b: Seq<u8>) {
    lemma_first_nul(b);
}

/// The byte sequence with leading NUL bytes removed.
pub open spec fn trim_nuls_front(b: Seq<u8>) -> Seq<u8>
    decreases b.len(),
{
    if b.len() > 0 && b[0] == 0 {
        trim_nuls_front(b.drop_first())
    } else {
        b
    }
}

/// The byte sequence with trailing NUL bytes removed.
pub open spec fn trim_nuls_back(b: Seq<u8>) -> Seq<u8>
    decreases b.len(),
{
    if b.len() > 0 && b[b.len() - 1] == 0 {
        trim_nuls_back(b.drop_last())
    } else {
        b
    }
}

/// The byte sequence with NUL bytes removed from both ends.
pub open spec fn trim_nuls(b: Seq<u8>) -> Seq<u8> {
    trim_nuls_back(trim_nuls_front(b))
}

/// Segments joined with a single NUL separator between neighbours.
pub open spec fn join_nuls(segs: Seq<Seq<u8>>) -> Seq<u8>
    decreases segs.len(),
{
    if segs.len() == 0 {
        Seq::empty()
    } else if segs.len() == 1 {
        segs[0]
    } else {
        segs[0] + seq![0u8] + join_nuls(segs.drop_first())
    }
}

/// Appending one more segment extends the join by a separator and the
/// segment (or is the segment itself when the list was empty).
pub proof fn lemma_join_nuls_push(segs: Seq<Seq<u8>>, s: Seq<u8>)
    ensures
        segs.len() == 0 ==> join_nuls(segs.push(s)) == s,
        segs.len() > 0 ==> join_nuls(segs.push(s)) == join_nuls(segs) + seq![0u8] + s,
    decreases segs.len(),
{
    if segs.len() == 0 {
        assert(segs.push(s)[0] =~= s);
    } else if segs.len() == 1 {
        let p = segs.push(s);
        assert(p.len() == 2);
        assert(p[0] =~= segs[0]);
        assert(p.drop_first() =~= seq![s]);
        assert(join_nuls(p.drop_first()) == s);
    } else {
        let p = segs.push(s);
        assert(p.drop_first() =~= segs.drop_first().push(s));
        lemma_join_nuls_push(segs.drop_first(), s);
        assert(join_nuls(p) =~= join_nuls(segs) + seq![0u8] + s);
    }
}

/// Trim the NUL bytes from both ends of a payload.
pub fn trim_nul_bytes(b: &[u8]) -> (r: Vec<u8>)
    ensures
        r@ == trim_nuls(b@),
{
    let mut lo: usize = 0;
    while lo < b.len() && b[lo] == 0
        invariant
            lo <= b.len(),
            forall|j: int| 0 <= j < lo ==> b@[j] == 0,
        decreases b.len() - lo,
    {
        lo = lo + 1;
    }
    let mut hi: usize = b.len();
    while hi > lo && b[hi - 1] == 0
        invariant
            lo <= hi <= b.len(),
            forall|j: int| 0 <= j < lo ==> b@[j] == 0,
            forall|j: int| hi <= j < b.len() ==> b@[j] == 0,
        decreases hi,
    {
        hi = hi - 1;
    }
    proof {
        lemma_trim_front_skip(b@, lo as int);
        if hi == lo {
            assert(trim_nuls_back(b@.skip(lo as int).take(0)) =~= b@.subrange(
                lo as int,
                hi as int,
            ));
            lemma_trim_back_take(b@.skip(lo as int), 0);
        } else {
            lemma_trim_back_take(b@.skip(lo as int), hi - lo);
        }
        assert(b@.skip(lo as int).take(hi - lo) =~= b@.subrange(lo as int, hi as int));
    }
    slice_to_vec(&b[lo..hi])
}

/// Removing a run of leading NULs is what `trim_nuls_front` does.
proof fn lemma_trim_front_skip(b: Seq<u8>, lo: int)
    requires
        0 <= lo <= b.len(),
        forall|j: int| 0 <= j < lo ==> b[j] == 0,
        lo < b.len() ==> b[lo] != 0,
    ensures
        trim_nuls_front(b) == b.skip(lo),
    decreases lo,
{
    if lo == 0 {
        assert(b.skip(0) =~= b);
    } else {
        assert(b[0] == 0);
        let t = b.drop_first();
        assert forall|j: int| 0 <= j < lo - 1 implies t[j] == 0 by {
            assert(t[j] == b[j + 1]);
        }
        lemma_trim_front_skip(t, lo - 1);
        assert(t.skip(lo - 1) =~= b.skip(lo));
    }
}

/// Removing a run of trailing NULs is what `trim_nuls_back` does.
proof fn lemma_trim_back_take(b: Seq<u8>, hi: int)
    requires
        0 <= hi <= b.len(),
        forall|j: int| hi <= j < b.len() ==> b[j] == 0,
        hi > 0 ==> b[hi - 1] != 0,
    ensures
        trim_nuls_back(b) == b.take(hi),
    decreases b.len(),
{
    if b.len() == hi {
        assert(b.take(hi) =~= b);
        if b.len() > 0 {
            assert(b[b.len() - 1] != 0);
        }
    } else {
        assert(b[b.len() - 1] == 0);
        let t = b.drop_last();
        lemma_trim_back_take(t, hi);
        assert(t.take(hi) =~= b.take(hi));
    }
}

/// Split a payload into its NUL-separated segments.
pub fn split_nul_bytes(b: &[u8]) -> (r: Vec<Vec<u8>>)
    ensures
        r@.len() == split_nuls(b@).len(),
        forall|i: int| 0 <= i < r@.len() ==> r@[i]@ == split_nuls(b@)[i],
{
    let mut r: Vec<Vec<u8>> = Vec::new();
    let mut start: usize = 0;
    let mut i: usize = 0;
    let ghost pieces = split_nuls(b@);
    proof {
        assert(b@.skip(0) =~= b@);
        assert(r@.map_values(|v: Vec<u8>| v@) + split_nuls(b@) =~= split_nuls(b@));
    }
    while i < b.len()
        invariant
            start <= i <= b.len(),
            forall|j: int| start <= j < i ==> b@[j] != 0,
            pieces == split_nuls(b@),
            split_nuls(b@) == r@.map_values(|v: Vec<u8>| v@) + split_nuls(b@.skip(start as int)),
        decreases b.len() - i,
    {
        if b[i] == 0 {
            let seg = slice_to_vec(&b[start..i]);
            proof {
                let tail = b@.skip(start as int);
                assert(tail[i - start as int] == 0);
                assert forall|j: int| 0 <= j < i - start as int implies tail[j] != 0 by {
                    assert(tail[j] == b@[start as int + j]);
                }
                lemma_first_nul_at(tail, i - start as int);
                assert(tail.take(i - start as int) =~= b@.subrange(start as int, i as int));
                assert(tail.skip(i - start as int + 1) =~= b@.skip(i as int + 1));
            }
            r.push(seg);
            start = i + 1;
            proof {
                assert(split_nuls(b@) =~= r@.map_values(|v: Vec<u8>| v@) + split_nuls(
                    b@.skip(start as int),
                ));
            }
        }
        i = i + 1;
    }
    let seg = slice_to_vec(&b[start..b.len()]);
    proof {
        let tail = b@.skip(start as int);
        assert forall|j: int| 0 <= j < tail.len() implies tail[j] != 0 by {
            assert(tail[j] == b@[start as int + j]);
        }
        lemma_first_nul(tail);
        if first_nul(tail) >= 0 {
            assert(tail[first_nul(tail)] != 0);
        }
        assert(tail =~= b@.subrange(start as int, b@.len() as int));
    }
    r.push(seg);
    proof {
        assert(split_nuls(b@) =~= r@.map_values(|v: Vec<u8>| v@));
        assert forall|i2: int| 0 <= i2 < r@.len() implies r@[i2]@ == split_nuls(b@)[i2] by {
            assert(r@.map_values(|v: Vec<u8>| v@)[i2] == r@[i2]@);
        }
    }
    r
}

/// NUL-joined encode followed by trim and NUL-split decode is the identity on
/// segment lists whose segments are non-empty and free of NUL bytes.
#[verifier::rlimit(100)]
pub proof fn lemma_nul_join_split_inverse(segs: Seq<Seq<u8>>)
    requires
        segs.len() > 0,
        forall|i: int| 0 <= i < segs.len() ==> segs[i].len() > 0,
        forall|i: int, j: int|
            0 <= i < segs.len() && 0 <= j < segs[i].len() ==> segs[i][j] != 0,
    ensures
        trim_nuls(join_nuls(segs)) == join_nuls(segs),
        split_nuls(join_nuls(segs)) == segs,
    decreases segs.len(),
{
    let b = join_nuls(segs);
    if segs.len() == 1 {
        assert(b == segs[0]);
        lemma_first_nul(b);
        if first_nul(b) >= 0 {
            assert(b[first_nul(b)] != 0);
        }
        assert(split_nuls(b) =~= segs);
        assert(b[0] != 0);
        assert(b[b.len() - 1] != 0);
        lemma_trim_front_skip(b, 0);
        assert(b.skip(0) =~= b);
        lemma_trim_back_take(b, b.len() as int);
        assert(b.take(b.len() as int) =~= b);
    } else {
        let s0 = segs[0];
        let rest = segs.drop_first();
        assert forall|i: int| 0 <= i < rest.len() implies rest[i].len() > 0 by {
            assert(rest[i] == segs[i + 1]);
        }
        assert forall|i: int, j: int|
            0 <= i < rest.len() && 0 <= j < rest[i].len() implies rest[i][j] != 0 by {
            assert(rest[i] == segs[i + 1]);
        }
        lemma_nul_join_split_inverse(rest);
        let jr = join_nuls(rest);
        assert(b == s0 + seq![0u8] + jr);
        assert(jr.len() > 0) by {
            lemma_join_nuls_len(rest);
        }
        // the first NUL of the join sits right after the first segment
        assert(b[s0.len() as int] == 0);
        assert forall|j: int| 0 <= j < s0.len() implies b[j] != 0 by {
            assert(b[j] == s0[j]);
        }
        lemma_first_nul_at(b, s0.len() as int);
        assert(b.take(s0.len() as int) =~= s0);
        assert(b.skip(s0.len() as int + 1) =~= jr);
        assert(split_nuls(b) =~= seq![s0] + split_nuls(jr));
        assert(split_nuls(b) =~= segs);
        // no NUL at either end, so trimming changes nothing
        assert(b[0] != 0);
        assert(b[b.len() - 1] == jr[jr.len() - 1]);
        assert(trim_nuls(jr) == jr);
        assert(jr[jr.len() - 1] != 0) by {
            lemma_last_of_join(rest);
        }
        lemma_trim_front_skip(b, 0);
        assert(b.skip(0) =~= b);
        lemma_trim_back_take(b, b.len() as int);
        assert(b.take(b.len() as int) =~= b);
    }
}

/// A join of non-empty segments is non-empty.
proof fn lemma_join_nuls_len(segs: Seq<Seq<u8>>)
    requires
        segs.len() > 0,
        forall|i: int| 0 <= i < segs.len() ==> segs[i].len() > 0,
    ensures
        join_nuls(segs).len() > 0,
    decreases segs.len(),
{
    if segs.len() == 1 {
    } else {
        assert(segs[0].len() > 0);
    }
}

/// The last byte of a join of non-empty NUL-free segments is the last byte of
/// the last segment, hence not NUL.
proof fn lemma_last_of_join(segs: Seq<Seq<u8>>)
    requires
        segs.len() > 0,
        forall|i: int| 0 <= i < segs.len() ==> segs[i].len() > 0,
        forall|i: int, j: int|
            0 <= i < segs.len() && 0 <= j < segs[i].len() ==> segs[i][j] != 0,
    ensures
        join_nuls(segs).len() > 0,
        join_nuls(segs)[join_nuls(segs).len() - 1] != 0,
    decreases segs.len(),
{
    lemma_join_nuls_len(segs);
    if segs.len() == 1 {
        assert(join_nuls(segs)[join_nuls(segs).len() - 1] == segs[0][segs[0].len() - 1]);
    } else {
        let rest = segs.drop_first();
        assert forall|i: int| 0 <= i < rest.len() implies rest[i].len() > 0 by {
            assert(rest[i] == segs[i + 1]);
        }
        assert forall|i: int, j: int|
            0 <= i < rest.len() && 0 <= j < rest[i].len() implies rest[i][j] != 0 by {
            assert(rest[i] == segs[i + 1]);
        }
        lemma_last_of_join(rest);
        let b = join_nuls(segs);
        let jr = join_nuls(rest);
        assert(b[b.len() - 1] == jr[jr.len() - 1]);
    }
}

} // verus!
