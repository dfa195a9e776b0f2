//! The Fiat-Shamir transcript: the byte string that is hashed to obtain a
//! challenge, and the hashing itself.
use crate::group::{be_value, group_order, Point};
use sha2::Digest;
use vstd::prelude::*;
use vstd::utf8::encode_utf8;

verus! {

/// The bytes of a point inside a transcript: its shortest SEC1 compressed
/// form, which is the single byte zero for the identity (whose fixed-width
/// encoding is all zeros) and the 33-byte encoding otherwise.
pub open spec fn point_transcript_bytes(e: Seq<u8>) -> Seq<u8> {
    if e.len() > 0 && e[0] == 0 {
        seq![0u8]
    } else {
        e
    }
}

/// The transcript forms of the points, one after the other.
pub open spec fn points_bytes(pts: Seq<Seq<u8>>) -> Seq<u8>
    decreases pts.len(),
{
    if pts.len() == 0 {
        Seq::empty()
    } else {
        points_bytes(pts.drop_last()) + point_transcript_bytes(pts.last())
    }
}

/// The 8-byte little-endian encoding of `n`.
pub open spec fn le_bytes(n: u64) -> Seq<u8> {
    seq![
        n as u8,
        (n >> 8u64) as u8,
        (n >> 16u64) as u8,
        (n >> 24u64) as u8,
        (n >> 32u64) as u8,
        (n >> 40u64) as u8,
        (n >> 48u64) as u8,
        (n >> 56u64) as u8,
    ]
}

/// The encodings of a sequence of points.
pub open spec fn point_views(pts: Seq<Point>) -> Seq<Seq<u8>> {
    pts.map_values(|p: Point| p@)
}

/// What is hashed: the UTF-8 bytes of the session id, the little-endian
/// party id, then each point.
pub open spec fn transcript(sid: Seq<char>, pid: u64, pts: Seq<Seq<u8>>) -> Seq<u8> {
    encode_utf8(sid) + le_bytes(pid) + points_bytes(pts)
}

/// The SHA-256 digest of a byte string.
pub uninterp spec fn sha256_of(m: Seq<u8>) -> Seq<u8>;

/// The challenge scalar: the digest of the transcript read as a big-endian
/// integer and reduced modulo the group order.
pub open spec fn challenge(sid: Seq<char>, pid: u64, pts: Seq<Seq<u8>>) -> int {
    be_value(sha256_of(transcript(sid, pid, pts))) as int % group_order()
}

/// Relies on `sha2::Sha256::digest`: the 32-byte SHA-256 digest of `m`.
#[verifier::external_body]
fn sha256(m: &Vec<u8>) -> (r: Vec<u8>)
    ensures
        r@ == sha256_of(m@),
        r@.len() == 32,
{
    sha2::Sha256::digest(m).to_vec()
}

/// Appends `b` to `m`.
fn append_bytes(m: &mut Vec<u8>, b: &[u8])
    ensures
        final(m)@ == old(m)@ + b@,
{
    let ghost start = m@;
    let mut i: usize = 0;
    while i < b.len()
        invariant
            0 <= i <= b@.len(),
            m@ == start + b@.subrange(0, i as int),
        decreases b@.len() - i,
    {
        m.push(b[i]);
        i = i + 1;
    }
    assert(b@.subrange(0, b@.len() as int) =~= b@);
}

/// Builds the transcript of a session id, a party id and a list of points.
pub fn transcript_bytes(sid: &str, pid: u64, points: &[Point]) -> (r: Vec<u8>)
    ensures
        r@ == transcript(sid@, pid, point_views(points@)),
{
    let mut m: Vec<u8> = Vec::new();
    append_bytes(&mut m, sid.as_bytes());
    m.push(pid as u8);
    m.push((pid >> 8u64) as u8);
    m.push((pid >> 16u64) as u8);
    m.push((pid >> 24u64) as u8);
    m.push((pid >> 32u64) as u8);
    m.push((pid >> 40u64) as u8);
    m.push((pid >> 48u64) as u8);
    m.push((pid >> 56u64) as u8);
    assert(m@ =~= encode_utf8(sid@) + le_bytes(pid));
    let ghost head = m@;
    let mut i: usize = 0;
    while i < points.len()
        invariant
            0 <= i <= points@.len(),
            head == encode_utf8(sid@) + le_bytes(pid),
            m@ == head + points_bytes(point_views(points@).subrange(0, i as int)),
        decreases points@.len() - i,
    {
        let e = points[i].to_bytes();
        if e.len() > 0 && e[0] == 0 {
            m.push(0u8);
        } else {
            append_bytes(&mut m, e.as_slice());
        }
        proof {
            let pv = point_views(points@);
            assert(pv.subrange(0, i + 1).drop_last() =~= pv.subrange(0, i as int));
            assert(pv.subrange(0, i + 1).last() == e@);
            assert(point_transcript_bytes(e@) =~= if e@.len() > 0 && e@[0] == 0 {
                seq![0u8]
            } else {
                e@
            });
        }
        i = i + 1;
    }
    assert(point_views(points@).subrange(0, points@.len() as int) =~= point_views(points@));
    m
}

/// The SHA-256 digest of the transcript.
pub fn transcript_digest(sid: &str, pid: u64, points: &[Point]) -> (r: Vec<u8>)
    ensures
        r@ == sha256_of(transcript(sid@, pid, point_views(points@))),
        r@.len() == 32,
{
    let m = transcript_bytes(sid, pid, points);
    sha256(&m)
}

proof fn lemma_le_bytes_injective(a: u64, b: u64)
    requires
        le_bytes(a) == le_bytes(b),
    ensures
        a == b,
{
    assert(le_bytes(a)[0] == le_bytes(b)[0]);
    assert(le_bytes(a)[1] == le_bytes(b)[1]);
    assert(le_bytes(a)[2] == le_bytes(b)[2]);
    assert(le_bytes(a)[3] == le_bytes(b)[3]);
    assert(le_bytes(a)[4] == le_bytes(b)[4]);
    assert(le_bytes(a)[5] == le_bytes(b)[5]);
    assert(le_bytes(a)[6] == le_bytes(b)[6]);
    assert(le_bytes(a)[7] == le_bytes(b)[7]);
    assert(a == b) by (bit_vector)
        requires
            a as u8 == b as u8,
            (a >> 8u64) as u8 == (b >> 8u64) as u8,
            (a >> 16u64) as u8 == (b >> 16u64) as u8,
            (a >> 24u64) as u8 == (b >> 24u64) as u8,
            (a >> 32u64) as u8 == (b >> 32u64) as u8,
            (a >> 40u64) as u8 == (b >> 40u64) as u8,
            (a >> 48u64) as u8 == (b >> 48u64) as u8,
            (a >> 56u64) as u8 == (b >> 56u64) as u8,
    ;
}

/// The transcript determines the session id and the party id: over the same
/// points, two contexts that differ in either give different transcripts.
pub proof fn lemma_transcript_binds_context(
    sid1: Seq<char>,
    pid1: u64,
    sid2: Seq<char>,
    pid2: u64,
    pts: Seq<Seq<u8>>,
)
    requires
        sid1 != sid2 || pid1 != pid2,
    ensures
        transcript(sid1, pid1, pts) != transcript(sid2, pid2, pts),
{
    let m1 = transcript(sid1, pid1, pts);
    let m2 = transcript(sid2, pid2, pts);
    if m1 == m2 {
        let e1 = encode_utf8(sid1);
        let e2 = encode_utf8(sid2);
        assert(m1.len() == e1.len() + 8 + points_bytes(pts).len());
        assert(m2.len() == e2.len() + 8 + points_bytes(pts).len());
        assert(e1.len() == e2.len());
        assert(m1.subrange(0, e1.len() as int) =~= e1);
        assert(m2.subrange(0, e2.len() as int) =~= e2);
        assert(m1.subrange(e1.len() as int, e1.len() + 8int) =~= le_bytes(pid1));
        assert(m2.subrange(e2.len() as int, e2.len() + 8int) =~= le_bytes(pid2));
        lemma_le_bytes_injective(pid1, pid2);
        vstd::utf8::encode_utf8_decode_utf8(sid1);
        vstd::utf8::encode_utf8_decode_utf8(sid2);
    }
}

} // verus!
