//! Content fingerprints: the whole file up to a size threshold, above it only
//! the first and the last mebibyte.

use vstd::prelude::*;

verus! {

/// Bytes read from each end of a file that gets a partial fingerprint (1 MiB).
pub const PARTIAL_CHUNK: u64 = 1024 * 1024;

/// The bytes of a file that go into its fingerprint.
#[derive(Debug, Clone, Copy, PartialEq, Eq, Structural)]
pub enum HashPlan {
    /// The whole content.
    Full,
    /// The first `head_len` bytes, then, when `tail_start` is given, the bytes
    /// from that offset to the end of the file.
    Partial { head_len: u64, tail_start: Option<u64> },
}

/// Which bytes of a file of `size` bytes are fingerprinted under `threshold`.
pub open spec fn plan_for(size: u64, threshold: u64) -> HashPlan {
    if size <= threshold {
        HashPlan::Full
    } else {
        HashPlan::Partial {
            head_len: if size < PARTIAL_CHUNK { size } else { PARTIAL_CHUNK },
            tail_start: if size > PARTIAL_CHUNK {
                Some((size - PARTIAL_CHUNK) as u64)
            } else {
                None
            },
        }
    }
}

/// What md-5 reports for a byte sequence, as lowercase hex digits.
pub uninterp spec fn md5_hex(bytes: Seq<u8>) -> Seq<char>;

/// Relies on md-5's `Md5::digest` and on the lowercase hex rendering of its
/// 16-byte output (generic-array's `LowerHex`): two digits per byte, and the
/// result depends on the bytes alone.
#[verifier::external_body]
fn md5_hex_digest(bytes: &[u8]) -> (r: String)
    ensures
        r@ == md5_hex(bytes@),
        r@.len() == 32,
{
    format!("{:x}", <md5::Md5 as md5::Digest>::digest(bytes))
}

/// The bytes of a file of `size` bytes to fingerprint: everything when the
/// size is at most `threshold`, else the first mebibyte and, when the file is
/// longer than that, the last mebibyte.
pub fn plan_fingerprint(size: u64, threshold: u64) -> (r: HashPlan)
    ensures
        r == plan_for(size, threshold),
{
    if size <= threshold {
        HashPlan::Full
    } else {
        let head_len = if size < PARTIAL_CHUNK { size } else { PARTIAL_CHUNK };
        let tail_start = if size > PARTIAL_CHUNK { Some(size - PARTIAL_CHUNK) } else { None };
        HashPlan::Partial { head_len, tail_start }
    }
}

/// Whether a plan covers only part of the file.
pub open spec fn is_partial(plan: HashPlan) -> bool {
    plan is Partial
}

/// The fingerprint of the bytes read under `plan`: the digest of `head`
/// followed by `tail`, and whether it is partial. Under a full plan `head`
/// holds the whole content and `tail` is empty.
pub fn fingerprint(plan: HashPlan, head: &Vec<u8>, tail: &Vec<u8>) -> (r: (String, bool))
    ensures
        r.0@ == md5_hex(head@ + tail@),
        r.1 == is_partial(plan),
{
    let mut bytes: Vec<u8> = Vec::new();
    let mut i: usize = 0;
    while i < head.len()
        invariant
            i <= head@.len(),
            bytes@ == head@.subrange(0, i as int),
        decreases head@.len() - i,
    {
        bytes.push(head[i]);
        i = i + 1;
        assert(bytes@ =~= head@.subrange(0, i as int));
    }
    let mut j: usize = 0;
    while j < tail.len()
        invariant
            i == head@.len(),
            j <= tail@.len(),
            bytes@ == head@ + tail@.subrange(0, j as int),
        decreases tail@.len() - j,
    {
        bytes.push(tail[j]);
        j = j + 1;
        assert(bytes@ =~= head@ + tail@.subrange(0, j as int));
    }
    assert(head@.subrange(0, head@.len() as int) =~= head@);
    assert(tail@.subrange(0, tail@.len() as int) =~= tail@);
    let hex = md5_hex_digest(bytes.as_slice());
    let partial = match plan {
        HashPlan::Full => false,
        HashPlan::Partial { .. } => true,
    };
    (hex, partial)
}

/// A file of exactly the threshold size is fingerprinted whole; one byte more
/// and only its first mebibyte and (when longer than that) its last mebibyte
/// are read.
pub proof fn lemma_threshold_boundary(threshold: u64)
    requires
        threshold < u64::MAX,
    ensures
        plan_for(threshold, threshold) == HashPlan::Full,
        is_partial(plan_for((threshold + 1) as u64, threshold)),
        threshold + 1 >= PARTIAL_CHUNK ==> plan_for((threshold + 1) as u64, threshold)
            == (HashPlan::Partial {
            head_len: PARTIAL_CHUNK,
            tail_start: if threshold + 1 > PARTIAL_CHUNK {
                Some((threshold + 1 - PARTIAL_CHUNK) as u64)
            } else {
                None
            },
        }),
{
}

} // verus!
