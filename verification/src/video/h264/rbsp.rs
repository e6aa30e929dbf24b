//! Decoding of the raw byte sequence payload (RBSP) from NAL unit payload
//! bytes: removal of the emulation-prevention `3` bytes that the encoder
//! inserts after two consecutive zero bytes.
use vstd::prelude::*;
use vstd::slice::slice_index_get;

verus! {

/// The RBSP bytes of the payload suffix starting at index `i`, when `zeros`
/// consecutive zero bytes immediately precede it: every `3` byte that
/// follows two zero bytes is dropped.
pub open spec fn spec_unescape(s: Seq<u8>, i: int, zeros: int) -> Seq<u8>
    decreases s.len() - i when 0 <= i
{
    if i >= s.len() {
        Seq::empty()
    } else if s[i] == 3u8 && zeros >= 2 {
        spec_unescape(s, i + 1, 0)
    } else {
        seq![s[i]] + spec_unescape(s, i + 1, if s[i] == 0u8 { zeros + 1 } else { 0 })
    }
}

/// The RBSP bytes of a whole NAL payload.
pub open spec fn rbsp_of(s: Seq<u8>) -> Seq<u8> {
    spec_unescape(s, 0, 0)
}

/// Unescaping never lengthens the payload.
pub proof fn lemma_unescape_len(s: Seq<u8>, i: int, zeros: int)
    requires
        0 <= i,
    ensures
        spec_unescape(s, i, zeros).len() <= (if i <= s.len() {
            s.len() - i
        } else {
            0
        }),
    decreases s.len() - i,
{
    if i >= s.len() {
    } else if s[i] == 3u8 && zeros >= 2 {
        lemma_unescape_len(s, i + 1, 0);
    } else {
        lemma_unescape_len(s, i + 1, if s[i] == 0u8 {
            zeros + 1
        } else {
            0
        });
    }
}

/// Removes the emulation-prevention bytes from a NAL payload, yielding the
/// RBSP that the bit-level grammar is read from.
pub fn unescape_rbsp(payload: &[u8]) -> (r: Vec<u8>)
    ensures
        r@ == rbsp_of(payload@),
        r@.len() <= payload@.len(),
{
    let ghost s = payload@;
    let len = payload.len();
    let mut out: Vec<u8> = Vec::new();
    let mut i: usize = 0;
    let mut zeros: usize = 0;
    while i < len
        invariant
            i <= len,
            payload@ == s,
            len == s.len(),
            zeros <= i,
            out@.len() <= i,
            rbsp_of(s) == out@ + spec_unescape(s, i as int, zeros as int),
        decreases len - i,
    {
        let b = *slice_index_get(payload, i);
        if b == 3u8 && zeros >= 2 {
            proof {
                assert(spec_unescape(s, i as int, zeros as int) == spec_unescape(
                    s,
                    i + 1,
                    0,
                ));
            }
            zeros = 0;
        } else {
            let ghost z2: int = if b == 0u8 {
                zeros + 1
            } else {
                0
            };
            proof {
                assert(spec_unescape(s, i as int, zeros as int) == seq![s[i as int]]
                    + spec_unescape(s, i + 1, z2));
                assert((out@ + seq![s[i as int]]) + spec_unescape(s, i + 1, z2) =~= out@ + (seq![
                    s[i as int],
                ] + spec_unescape(s, i + 1, z2)));
            }
            out.push(b);
            if b == 0u8 {
                zeros = zeros + 1;
            } else {
                zeros = 0;
            }
        }
        i = i + 1;
    }
    out
}

} // verus!
