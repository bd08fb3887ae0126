//! String handling for property payloads.
//!
//! String properties travel on the wire as NUL-joined UTF8 segments. This
//! module decides equality of names, encodes a list of strings into such a
//! payload, decodes a payload back into strings, and proves that the two
//! directions are inverse for NUL-free, non-empty strings.
use vstd::prelude::*;
use vstd::slice::slice_to_vec;
use vstd::utf8::{
    char_is_scalar, decode_utf8, encode_scalar, encode_utf8, encode_utf8_decode_utf8,
    encode_utf8_valid_utf8, has_width_1_encoding, has_width_2_encoding, has_width_3_encoding,
    is_scalar, valid_utf8,
};
use crate::wire::{
    join_nuls, lemma_join_nuls_push, lemma_nul_join_split_inverse, split_nul_bytes, split_nuls,
    trim_nul_bytes, trim_nuls,
};

verus! {

/// Whether two string slices hold the same characters, decided by comparing
/// their UTF8 bytes.
pub fn str_eq(a: &str, b: &str) -> (r: bool)
    ensures
        r == (a@ == b@),
{
    let ab = a.as_bytes_vec();
    let bb = b.as_bytes_vec();
    proof {
        encode_utf8_decode_utf8(a@);
        encode_utf8_decode_utf8(b@);
    }
    if ab.len() != bb.len() {
        return false;
    }
    let mut i: usize = 0;
    while i < ab.len()
        invariant
            ab@ == encode_utf8(a@),
            bb@ == encode_utf8(b@),
            ab@.len() == bb@.len(),
            i <= ab@.len(),
            decode_utf8(encode_utf8(a@)) == a@,
            decode_utf8(encode_utf8(b@)) == b@,
            forall|j: int| 0 <= j < i ==> ab@[j] == bb@[j],
        decreases ab@.len() - i,
    {
        if ab[i] != bb[i] {
            proof {
                if a@ == b@ {
                    assert(ab@[i as int] == bb@[i as int]);
                }
            }
            return false;
        }
        i = i + 1;
    }
    proof {
        assert(ab@ =~= bb@);
    }
    true
}

/// Relies on String::from_utf8: returns the decoded string exactly when the
/// bytes are valid UTF8, and nothing otherwise.
#[verifier::external_body]
pub(crate) fn utf8_to_string(bytes: Vec<u8>) -> (r: Option<String>)
    ensures
        r is Some <==> valid_utf8(bytes@),
        r matches Some(s) ==> s@ == decode_utf8(bytes@),
{
    String::from_utf8(bytes).ok()
}

/// The NUL-joined byte encoding of a list of strings.
pub open spec fn encode_string_list(strs: Seq<Seq<char>>) -> Seq<u8> {
    join_nuls(strs.map_values(|s: Seq<char>| encode_utf8(s)))
}

/// The NUL-separated segments of a string payload, after trimming NUL bytes
/// from both ends.
pub open spec fn nul_segments(b: Seq<u8>) -> Seq<Seq<u8>> {
    split_nuls(trim_nuls(b))
}

/// Whether every segment of a string payload is valid UTF8.
pub open spec fn segments_valid(b: Seq<u8>) -> bool {
    forall|i: int| 0 <= i < nul_segments(b).len() ==> valid_utf8(#[trigger] nul_segments(b)[i])
}

/// The strings a valid payload decodes to.
pub open spec fn decoded_strings(b: Seq<u8>) -> Seq<Seq<char>> {
    nul_segments(b).map_values(|s: Seq<u8>| decode_utf8(s))
}

/// Encode a list of strings as a NUL-joined UTF8 payload.
pub fn string_list_to_bytes(strs: &Vec<String>) -> (r: Vec<u8>)
    ensures
        r@ == encode_string_list(strs@.map_values(|s: String| s@)),
{
    let ghost segs = strs@.map_values(|s: String| s@).map_values(|s: Seq<char>| encode_utf8(s));
    let mut r: Vec<u8> = Vec::new();
    let mut j: usize = 0;
    proof {
        assert(segs.take(0) =~= Seq::<Seq<u8>>::empty());
    }
    while j < strs.len()
        invariant
            j <= strs@.len(),
            segs == strs@.map_values(|s: String| s@).map_values(|s: Seq<char>| encode_utf8(s)),
            segs.len() == strs@.len(),
            r@ == join_nuls(segs.take(j as int)),
        decreases strs@.len() - j,
    {
        if j > 0 {
            r.push(0u8);
        }
        let mut bs = strs[j].as_str().as_bytes_vec();
        r.append(&mut bs);
        proof {
            lemma_join_nuls_push(segs.take(j as int), segs[j as int]);
            assert(segs.take(j as int).push(segs[j as int]) =~= segs.take(j as int + 1));
            assert(segs[j as int] == encode_utf8(strs@[j as int]@));
            if j == 0 {
                assert(r@ =~= join_nuls(segs.take(j as int + 1)));
            } else {
                assert(r@ =~= join_nuls(segs.take(j as int)) + seq![0u8] + segs[j as int]);
            }
        }
        j = j + 1;
    }
    proof {
        assert(segs.take(strs@.len() as int) =~= segs);
    }
    r
}

/// Decode a NUL-joined UTF8 payload into its list of strings; nothing when a
/// segment is not valid UTF8.
pub fn bytes_to_string_list(b: &[u8]) -> (r: Option<Vec<String>>)
    ensures
        r is Some <==> segments_valid(b@),
        r matches Some(v) ==> v@.map_values(|s: String| s@) == decoded_strings(b@),
{
    let trimmed = trim_nul_bytes(b);
    let segs = split_nul_bytes(trimmed.as_slice());
    let ghost spec_segs = nul_segments(b@);
    proof {
        assert(spec_segs.len() == segs@.len());
    }
    let mut out: Vec<String> = Vec::new();
    let mut i: usize = 0;
    while i < segs.len()
        invariant
            i <= segs@.len(),
            spec_segs == nul_segments(b@),
            spec_segs.len() == segs@.len(),
            forall|k: int| 0 <= k < segs@.len() ==> segs@[k]@ == spec_segs[k],
            out@.len() == i,
            forall|k: int| 0 <= k < i ==> valid_utf8(#[trigger] spec_segs[k]),
            forall|k: int| 0 <= k < i ==> out@[k]@ == decode_utf8(spec_segs[k]),
        decreases segs@.len() - i,
    {
        let seg = slice_to_vec(segs[i].as_slice());
        match utf8_to_string(seg) {
            Some(s) => {
                out.push(s);
            },
            None => {
                proof {
                    assert(!valid_utf8(spec_segs[i as int]));
                }
                return None;
            },
        }
        i = i + 1;
    }
    proof {
        assert(out@.map_values(|s: String| s@) =~= decoded_strings(b@));
    }
    Some(out)
}

/// No byte of the UTF8 encoding of a non-NUL scalar is NUL, and the encoding
/// is never empty.
proof fn lemma_encode_scalar_nonzero(s: u32)
    requires
        is_scalar(s),
        s != 0,
    ensures
        encode_scalar(s).len() > 0,
        forall|j: int| 0 <= j < encode_scalar(s).len() ==> encode_scalar(s)[j] != 0,
{
    if has_width_1_encoding(s) {
        assert((s & 0x7F) != 0) by (bit_vector)
            requires
                s != 0 && s <= 0x7F,
        ;
    } else {
        let b1: u8 = ((s >> 6) & 0x1F) as u8;
        let b2: u8 = (s & 0x3F) as u8;
        let b3: u8 = ((s >> 12) & 0x0F) as u8;
        let b4: u8 = ((s >> 12) & 0x3F) as u8;
        let b5: u8 = ((s >> 18) & 0x7) as u8;
        assert(0xC0u8 | b1 != 0) by (bit_vector);
        assert(0x80u8 | b2 != 0) by (bit_vector);
        assert(0xE0u8 | b3 != 0) by (bit_vector);
        assert(0x80u8 | b4 != 0) by (bit_vector);
        assert(0xF0u8 | b5 != 0) by (bit_vector);
        assert(0x80u8 | ((s >> 6) & 0x3F) as u8 != 0) by {
            let b6: u8 = ((s >> 6) & 0x3F) as u8;
            assert(0x80u8 | b6 != 0) by (bit_vector);
        }
    }
}

/// The UTF8 encoding of a string without NUL characters is non-empty (when
/// the string is) and contains no NUL byte.
proof fn lemma_encode_utf8_nonzero(chars: Seq<char>)
    requires
        forall|i: int| 0 <= i < chars.len() ==> (#[trigger] chars[i]) as u32 != 0,
    ensures
        chars.len() > 0 ==> encode_utf8(chars).len() > 0,
        forall|j: int| 0 <= j < encode_utf8(chars).len() ==> encode_utf8(chars)[j] != 0,
    decreases chars.len(),
{
    if chars.len() == 0 {
    } else {
        let head = encode_scalar(chars[0] as u32);
        let tail = encode_utf8(chars.drop_first());
        char_is_scalar(chars[0]);
        lemma_encode_scalar_nonzero(chars[0] as u32);
        assert(forall|i: int|
            0 <= i < chars.drop_first().len() ==> (#[trigger] chars.drop_first()[i]) as u32
                != 0) by {
            assert(forall|i: int|
                0 <= i < chars.drop_first().len() ==> chars.drop_first()[i] == chars[i + 1]);
        }
        lemma_encode_utf8_nonzero(chars.drop_first());
        assert forall|j: int| 0 <= j < encode_utf8(chars).len() implies encode_utf8(chars)[j]
            != 0 by {
            if j < head.len() {
                assert(encode_utf8(chars)[j] == head[j]);
            } else {
                assert(encode_utf8(chars)[j] == tail[j - head.len()]);
            }
        }
    }
}

/// Round trip: the NUL-joined encode and the trim-and-NUL-split decode are
/// inverse on any list of non-empty strings free of NUL characters.
pub proof fn lemma_string_list_round_trip(strs: Seq<Seq<char>>)
    requires
        strs.len() > 0,
        forall|i: int| 0 <= i < strs.len() ==> (#[trigger] strs[i]).len() > 0,
        forall|i: int, j: int|
            0 <= i < strs.len() && 0 <= j < strs[i].len() ==> (#[trigger] strs[i][j]) as u32 != 0,
    ensures
        segments_valid(encode_string_list(strs)),
        decoded_strings(encode_string_list(strs)) == strs,
{
    let segs = strs.map_values(|s: Seq<char>| encode_utf8(s));
    assert forall|i: int| 0 <= i < segs.len() implies segs[i].len() > 0 && valid_utf8(segs[i])
        && forall|j: int| 0 <= j < segs[i].len() ==> segs[i][j] != 0 by {
        lemma_encode_utf8_nonzero(strs[i]);
        encode_utf8_valid_utf8(strs[i]);
    }
    lemma_nul_join_split_inverse(segs);
    let b = encode_string_list(strs);
    assert(trim_nuls(b) == b);
    assert(nul_segments(b) == segs);
    assert forall|i: int| 0 <= i < nul_segments(b).len() implies valid_utf8(
        #[trigger] nul_segments(b)[i],
    ) by {
        assert(nul_segments(b)[i] == segs[i]);
    }
    assert forall|i: int| 0 <= i < segs.len() implies decode_utf8(segs[i]) == strs[i] by {
        encode_utf8_decode_utf8(strs[i]);
    }
    assert(decoded_strings(b) =~= strs);
}

} // verus!
