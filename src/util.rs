use vstd::prelude::*;
use vstd::slice::slice_subrange;

use vstd::utf8::*;

use crate::text::{decode_lossy, lossy_utf8};

verus! {

/// The index of the first zero byte of `b` at or after `i`, or `b.len()` if
/// there is none.
pub open spec fn first_nul_from(b: Seq<u8>, i: int) -> int
    decreases b.len() - i,
{
    if i >= b.len() {
        b.len() as int
    } else if b[i] == 0 {
        i
    } else {
        first_nul_from(b, i + 1)
    }
}

/// The bytes of `b` before its first zero byte (all of `b` if it has none).
pub open spec fn before_nul(b: Seq<u8>) -> Seq<u8> {
    b.take(first_nul_from(b, 0))
}

proof fn lemma_first_nul_bounds(b: Seq<u8>, i: int)
    requires
        0 <= i <= b.len(),
    ensures
        i <= first_nul_from(b, i) <= b.len(),
        first_nul_from(b, i) < b.len() ==> b[first_nul_from(b, i)] == 0,
        forall|j: int| i <= j < first_nul_from(b, i) ==> b[j] != 0,
    decreases b.len() - i,
{
    if i < b.len() && b[i] != 0 {
        lemma_first_nul_bounds(b, i + 1);
    }
}

proof fn lemma_first_nul_at(b: Seq<u8>, i: int, m: int)
    requires
        0 <= i <= m <= b.len(),
        m == b.len() || b[m] == 0,
        forall|j: int| i <= j < m ==> b[j] != 0,
    ensures
        first_nul_from(b, i) == m,
    decreases m - i,
{
    if i < m {
        lemma_first_nul_at(b, i + 1, m);
    }
}

proof fn lemma_scalar_bytes_nonzero(c: char)
    requires
        c != '\0',
    ensures
        forall|j: int| 0 <= j < encode_scalar(c as u32).len() ==> #[trigger] encode_scalar(c as u32)[j] != 0,
{
    let v = c as u32;
    assert(v != 0);
    if v <= 0x7F {
        assert((v & 0x7F) as u8 != 0) by (bit_vector)
            requires
                v != 0,
                v <= 0x7F,
        ;
    }
    assert forall|x: u8| (0xC0u8 | x) != 0 && (0xE0u8 | x) != 0 && (0xF0u8 | x) != 0 && (0x80u8
        | x) != 0 by {
        assert((0xC0u8 | x) != 0 && (0xE0u8 | x) != 0 && (0xF0u8 | x) != 0 && (0x80u8 | x) != 0)
            by (bit_vector);
    }
}

proof fn lemma_encoding_has_no_nul(chars: Seq<char>)
    requires
        !chars.contains('\0'),
    ensures
        forall|j: int| 0 <= j < encode_utf8(chars).len() ==> encode_utf8(chars)[j] != 0,
    decreases chars.len(),
{
    if chars.len() > 0 {
        let rest = chars.drop_first();
        assert forall|k: int| 0 <= k < rest.len() implies rest[k] != '\0' by {
            assert(rest[k] == chars[k + 1]);
        }
        lemma_encoding_has_no_nul(rest);
        assert(chars[0] != '\0') by {
            if chars[0] == '\0' {
                assert(chars.contains('\0'));
            }
        }
        lemma_scalar_bytes_nonzero(chars[0]);
        let head = encode_scalar(chars[0] as u32);
        let tail = encode_utf8(rest);
        assert(encode_utf8(chars) == head + tail);
        assert forall|j: int| 0 <= j < encode_utf8(chars).len() implies encode_utf8(chars)[j] != 0 by {
            if j < head.len() {
                assert(encode_utf8(chars)[j] == head[j]);
            } else {
                assert(encode_utf8(chars)[j] == tail[j - head.len()]);
            }
        }
    }
}

/// A room id free of NUL characters, sent as UTF-8 with or without a NUL
/// byte and anything after it, is read back by `read_buf` exactly.
pub proof fn lemma_room_id_round_trip(room_id: Seq<char>, tail: Seq<u8>)
    requires
        !room_id.contains('\0'),
    ensures
        valid_utf8(before_nul(encode_utf8(room_id))),
        decode_utf8(before_nul(encode_utf8(room_id))) == room_id,
        valid_utf8(before_nul(encode_utf8(room_id) + seq![0u8] + tail)),
        decode_utf8(before_nul(encode_utf8(room_id) + seq![0u8] + tail)) == room_id,
{
    let e = encode_utf8(room_id);
    let b = e + seq![0u8] + tail;
    lemma_encoding_has_no_nul(room_id);
    lemma_first_nul_at(e, 0, e.len() as int);
    assert(e.take(e.len() as int) =~= e);
    assert forall|j: int| 0 <= j < e.len() implies b[j] != 0 by {
        assert(b[j] == e[j]);
    }
    assert(b[e.len() as int] == 0);
    lemma_first_nul_at(b, 0, e.len() as int);
    assert(b.take(e.len() as int) =~= e);
    encode_utf8_valid_utf8(room_id);
    encode_utf8_decode_utf8(room_id);
}

/// Reads the text that a buffer holds: its bytes up to the first zero byte,
/// decoded as UTF-8 with invalid sequences replaced.
pub fn read_buf(buf: &[u8]) -> (r: String)
    ensures
        r@ == lossy_utf8(before_nul(buf@)),
        valid_utf8(before_nul(buf@)) ==> r@ == decode_utf8(before_nul(buf@)),
{
    let n = buf.len();
    let mut i: usize = 0;
    while i < n && buf[i] != 0
        invariant
            n == buf@.len(),
            i <= n,
            first_nul_from(buf@, 0) == first_nul_from(buf@, i as int),
        decreases n - i,
    {
        i = i + 1;
    }
    proof {
        lemma_first_nul_bounds(buf@, i as int);
    }
    let head = slice_subrange(buf, 0, i);
    assert(head@ == before_nul(buf@));
    decode_lossy(head)
}

/// Overwrites every byte of `buf` with zero.
pub fn clear_buf(buf: &mut [u8])
    ensures
        final(buf)@.len() == old(buf)@.len(),
        forall|i: int| 0 <= i < final(buf)@.len() ==> final(buf)@[i] == 0u8,
{
    let size = buf.len();
    let mut i: usize = 0;
    while i < size
        invariant
            size == old(buf)@.len(),
            buf@.len() == size,
            i <= size,
            forall|j: int| 0 <= j < i ==> buf@[j] == 0u8,
        decreases size - i,
    {
        buf[i] = 0;
        i = i + 1;
    }
}

} // verus!
