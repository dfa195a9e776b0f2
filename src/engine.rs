//! The proof engine: proving and verifying knowledge of a discrete logarithm.
use crate::group::{
    be_value, generate_random_number, group_order, is_point_encoding, point_parse, reduce_digest,
    Point, Scalar,
};
use crate::hex_text::{hex_bytes, hex_decode, hex_encode, hex_of, lemma_hex_round_trip, valid_hex};
use crate::transcript::{challenge, point_views, transcript_digest};
use vstd::prelude::*;

verus! {

/// Why decoding a proof record failed.
#[derive(Debug, Clone, Copy, PartialEq, Eq, Structural)]
pub enum DecodingError {
    /// A field is not an even number of hexadecimal digits.
    InvalidHex,
    /// A field does not decode to the expected number of bytes.
    WrongLength,
    /// The commitment bytes are not accepted as a point.
    InvalidPoint,
    /// The response bytes are not an integer below the group order.
    InvalidScalar,
}

/// The errors of the proof engine.
#[derive(Debug, Clone, Copy, PartialEq, Eq, Structural)]
pub enum DlogError {
    /// The operating system's random generator could not supply a nonce.
    RandomSource,
    /// The transcript digest could not be mapped to a scalar. The digest is
    /// reduced modulo the order, so this is never produced.
    HashToScalar,
    /// A proof record could not be decoded.
    Decoding(DecodingError),
}

/// A non-interactive proof of knowledge of a discrete logarithm: the
/// commitment `t = g^r` and the response `s = r + c x`.
#[derive(Debug, Clone)]
pub struct DLogProof {
    t: Point,
    s: Scalar,
}

/// The encodings of the points that a challenge is taken over: the generator,
/// the public point and the commitment, in that order.
pub open spec fn statement(y: Seq<u8>, t: Seq<u8>) -> Seq<Seq<u8>> {
    seq![crate::group::generator_multiple(1), y, t]
}

/// The challenge of a proof with commitment `t` about the public point `y`.
pub open spec fn proof_challenge(sid: Seq<char>, pid: u64, y: Seq<u8>, t: Seq<u8>) -> int {
    challenge(sid, pid, statement(y, t))
}

/// The wire form of a proof: the commitment's compressed encoding and the
/// response's 32-byte big-endian encoding, each as lowercase hexadecimal text.
#[derive(Debug, Clone)]
pub struct ProofRecord {
    pub t: String,
    pub s: String,
}

/// What decoding makes of the two texts of a record: the commitment is read
/// first (hexadecimal, length, point), then the response (hexadecimal,
/// length, range). On success, the encodings of the commitment and response.
pub open spec fn decode_outcome(t: Seq<char>, s: Seq<char>) -> Result<
    (Seq<u8>, Seq<u8>),
    DecodingError,
> {
    if !valid_hex(t) {
        Err(DecodingError::InvalidHex)
    } else if hex_bytes(t).len() != 33 {
        Err(DecodingError::WrongLength)
    } else if point_parse(hex_bytes(t)) is None {
        Err(DecodingError::InvalidPoint)
    } else if !valid_hex(s) {
        Err(DecodingError::InvalidHex)
    } else if hex_bytes(s).len() != 32 {
        Err(DecodingError::WrongLength)
    } else if be_value(hex_bytes(s)) >= group_order() {
        Err(DecodingError::InvalidScalar)
    } else {
        Ok((point_parse(hex_bytes(t))->Some_0, hex_bytes(s)))
    }
}

/// A record whose two texts are the hexadecimal of some byte strings has
/// valid hexadecimal texts that read back to exactly those bytes.
proof fn lemma_hex_of_both(t: Seq<char>, s: Seq<char>)
    ensures
        forall|tb: Seq<u8>, sb: Seq<u8>|
            #![trigger hex_of(tb), hex_of(sb)]
            t == hex_of(tb) && s == hex_of(sb) ==> valid_hex(t) && hex_bytes(t) == tb && valid_hex(s)
                && hex_bytes(s) == sb,
{
    assert forall|tb: Seq<u8>, sb: Seq<u8>|
        #![trigger hex_of(tb), hex_of(sb)]
        t == hex_of(tb) && s == hex_of(sb) implies valid_hex(t) && hex_bytes(t) == tb && valid_hex(s)
            && hex_bytes(s) == sb by {
        lemma_hex_round_trip(tb);
        lemma_hex_round_trip(sb);
    }
}

impl DLogProof {
    pub closed spec fn commitment(&self) -> Point {
        self.t
    }

    pub closed spec fn response(&self) -> Scalar {
        self.s
    }

    pub open spec fn wf(&self) -> bool {
        self.commitment().wf() && self.response().wf()
    }

    /// The response is the commitment's discrete logarithm plus the challenge
    /// times `x`: the relation that an honest prover who knows `x` sets up.
    pub open spec fn answers(&self, sid: Seq<char>, pid: u64, x: int, y: Point) -> bool {
        let c = proof_challenge(sid, pid, y@, self.commitment()@);
        self.response().value() == (self.commitment().dlog() + c * x) % group_order()
    }

    /// What a verifier accepts: `g^s == t + y^c`, that is, in discrete
    /// logarithms, `s == dlog(t) + c dlog(y)` modulo the order.
    pub open spec fn accepts(&self, sid: Seq<char>, pid: u64, y: Point) -> bool {
        let c = proof_challenge(sid, pid, y@, self.commitment()@);
        self.response().value() == (self.commitment().dlog() + c * y.dlog()) % group_order()
    }

    /// The Fiat-Shamir challenge: the SHA-256 digest of the session id, the
    /// party id and the points, reduced modulo the group order.
    pub fn hash_points(sid: &str, pid: u64, points: &[Point]) -> (r: Result<Scalar, DlogError>)
        ensures
            r is Ok,
            r matches Ok(c) ==> c.wf() && c.value() == challenge(sid@, pid, point_views(points@)),
    {
        let d = transcript_digest(sid, pid, points);
        Ok(reduce_digest(&d))
    }

    /// Proves knowledge of `x` for `y = g^x` with the given nonce `r`:
    /// `t = g^r` and `s = r + c x`.
    pub fn prove_with_nonce(sid: &str, pid: u64, x: &Scalar, y: &Point, r: &Scalar) -> (res: Result<
        DLogProof,
        DlogError,
    >)
        requires
            x.wf(),
            y.wf(),
            r.wf(),
        ensures
            res matches Ok(p) && p.wf() && p.commitment()@ == crate::group::generator_multiple(
                r.value(),
            ) && p.commitment().dlog() == r.value(),
            res matches Ok(p) && p.response().value() == (r.value() + proof_challenge(
                sid@,
                pid,
                y@,
                p.commitment()@,
            ) * x.value()) % group_order(),
            res matches Ok(p) && p.answers(sid@, pid, x.value(), *y),
    {
        let t = Point::mul_base(r);
        let points = [Point::generator(), y.duplicate(), t.duplicate()];
        proof {
            assert(point_views(points@) =~= statement(y@, t@));
        }
        let c = match Self::hash_points(sid, pid, &points) {
            Ok(c) => c,
            Err(e) => return Err(e),
        };
        let s = r.add(&x.mul(&c));
        proof {
            let n = group_order();
            let (rv, xv, cv) = (r.value(), x.value(), c.value());
            assert((rv + (xv * cv) % n) % n == (rv + cv * xv) % n) by {
                vstd::arithmetic::div_mod::lemma_add_mod_noop_right(rv, xv * cv, n);
                vstd::arithmetic::mul::lemma_mul_is_commutative(xv, cv);
            }
        }
        Ok(DLogProof { t, s })
    }

    /// Proves knowledge of `x` for `y = g^x` with a freshly drawn nonce. Fails
    /// only when no nonce could be drawn.
    pub fn prove(sid: &str, pid: u64, x: Scalar, y: Point) -> (res: Result<DLogProof, DlogError>)
        requires
            x.wf(),
            y.wf(),
        ensures
            res is Err ==> res == Err::<DLogProof, DlogError>(DlogError::RandomSource),
            res matches Ok(p) ==> p.wf() && p.answers(sid@, pid, x.value(), y),
    {
        let r = match generate_random_number() {
            Some(r) => r,
            None => return Err(DlogError::RandomSource),
        };
        Self::prove_with_nonce(sid, pid, &x, &y, &r)
    }

    /// Checks `g^s == t + y^c` for the challenge `c` of `(sid, pid, g, y, t)`.
    pub fn verify(&self, sid: &str, pid: u64, y: Point) -> (res: Result<bool, DlogError>)
        requires
            self.wf(),
            y.wf(),
        ensures
            res matches Ok(b) && b == self.accepts(sid@, pid, y),
    {
        let points = [Point::generator(), y.duplicate(), self.t.duplicate()];
        proof {
            assert(point_views(points@) =~= statement(y@, self.t@));
        }
        let c = match Self::hash_points(sid, pid, &points) {
            Ok(c) => c,
            Err(e) => return Err(e),
        };
        let lhs = Point::mul_base(&self.s);
        let rhs = self.t.add(&y.mul(&c));
        let b = lhs.equals(&rhs);
        proof {
            let n = group_order();
            let (a, yv, cv) = (self.t.dlog(), y.dlog(), c.value());
            let v = (a + (yv * cv) % n) % n;
            assert(v == (a + cv * yv) % n) by {
                vstd::arithmetic::div_mod::lemma_add_mod_noop_right(a, yv * cv, n);
                vstd::arithmetic::mul::lemma_mul_is_commutative(yv, cv);
            }
            assert(crate::group::generator_multiple(a) == self.t@);
            assert(crate::group::generator_multiple(yv) == y@);
            assert(0 <= (yv * cv) % n < n);
            assert(crate::group::generator_multiple(v) == rhs@);
            if b {
                assert(crate::group::generator_multiple(v) == lhs@);
            }
        }
        Ok(b)
    }

    /// The wire record of the proof.
    pub fn encode(&self) -> (r: ProofRecord)
        ensures
            r.t@ == hex_of(self.commitment()@),
            r.s@ == hex_of(self.response()@),
    {
        ProofRecord { t: hex_encode(&self.t.to_bytes()), s: hex_encode(&self.s.to_bytes()) }
    }

    /// Reads a proof back from its wire record. The record of a well-formed
    /// proof decodes to that proof.
    pub fn decode(rec: &ProofRecord) -> (r: Result<DLogProof, DlogError>)
        ensures
            match decode_outcome(rec.t@, rec.s@) {
                Ok((tb, sb)) => r matches Ok(p) && p.wf() && p.commitment()@ == tb
                    && p.response()@ == sb,
                Err(e) => r == Err::<DLogProof, DlogError>(DlogError::Decoding(e)),
            },
            forall|tb: Seq<u8>, sb: Seq<u8>|
                #![trigger hex_of(tb), hex_of(sb)]
                tb.len() == 33 && is_point_encoding(tb) && sb.len() == 32 && be_value(sb)
                    < group_order() && rec.t@ == hex_of(tb) && rec.s@ == hex_of(sb) ==> (r matches Ok(
                    p,
                ) && p.commitment()@ == tb && p.response()@ == sb),
    {
        proof {
            lemma_hex_of_both(rec.t@, rec.s@);
        }
        let tb = match hex_decode(rec.t.as_str()) {
            Some(b) => b,
            None => return Err(DlogError::Decoding(DecodingError::InvalidHex)),
        };
        if tb.len() != 33 {
            return Err(DlogError::Decoding(DecodingError::WrongLength));
        }
        let t = match Point::from_bytes(tb.as_slice()) {
            Some(t) => t,
            None => return Err(DlogError::Decoding(DecodingError::InvalidPoint)),
        };
        let sb = match hex_decode(rec.s.as_str()) {
            Some(b) => b,
            None => return Err(DlogError::Decoding(DecodingError::InvalidHex)),
        };
        if sb.len() != 32 {
            return Err(DlogError::Decoding(DecodingError::WrongLength));
        }
        let s = match Scalar::from_bytes(sb.as_slice()) {
            Some(s) => s,
            None => return Err(DlogError::Decoding(DecodingError::InvalidScalar)),
        };
        Ok(DLogProof { t, s })
    }

    /// The commitment `t`.
    pub fn t(&self) -> (r: &Point)
        ensures
            *r == self.commitment(),
    {
        &self.t
    }

    /// The response `s`.
    pub fn s(&self) -> (r: &Scalar)
        ensures
            *r == self.response(),
    {
        &self.s
    }
}

impl PartialEq for DLogProof {
    fn eq(&self, o: &DLogProof) -> (r: bool) {
        self.t == o.t && self.s == o.s
    }
}

impl vstd::std_specs::cmp::PartialEqSpecImpl for DLogProof {
    open spec fn obeys_eq_spec() -> bool {
        true
    }

    open spec fn eq_spec(&self, o: &DLogProof) -> bool {
        self.commitment()@ == o.commitment()@ && self.response()@ == o.response()@
    }
}

/// Completeness: a proof made by someone who knows the discrete logarithm `x`
/// of `y` is accepted for `y` under the same session and party ids.
pub proof fn lemma_completeness(p: DLogProof, sid: Seq<char>, pid: u64, x: int, y: Point)
    requires
        p.wf(),
        y.wf(),
        y.dlog() == x,
        p.answers(sid, pid, x, y),
    ensures
        p.accepts(sid, pid, y),
{
}

/// A proof made for `y1 = g^x` under `(sid1, pid1)` is accepted for `y2`
/// under `(sid2, pid2)` exactly when `c2 dlog(y2) = c1 x` modulo the order,
/// where `c1` and `c2` are the challenges of the two contexts. A different
/// public point, session id or party id changes the transcript, so this
/// holds only by a chance coincidence of the hashed challenges.
pub proof fn lemma_acceptance_in_other_context(
    p: DLogProof,
    sid1: Seq<char>,
    pid1: u64,
    x: int,
    y1: Point,
    sid2: Seq<char>,
    pid2: u64,
    y2: Point,
)
    requires
        p.wf(),
        y1.wf(),
        y2.wf(),
        0 <= x < group_order(),
        p.answers(sid1, pid1, x, y1),
    ensures
        p.accepts(sid2, pid2, y2) <==> (proof_challenge(sid2, pid2, y2@, p.commitment()@)
            * y2.dlog()) % group_order() == (proof_challenge(
            sid1,
            pid1,
            y1@,
            p.commitment()@,
        ) * x) % group_order(),
{
    let n = group_order();
    let a = p.commitment().dlog();
    let u = proof_challenge(sid1, pid1, y1@, p.commitment()@) * x;
    let v = proof_challenge(sid2, pid2, y2@, p.commitment()@) * y2.dlog();
    vstd::arithmetic::div_mod::lemma_mod_equivalence(a + v, a + u, n);
    vstd::arithmetic::div_mod::lemma_mod_equivalence(v, u, n);
    assert((a + v) - (a + u) == v - u);
}

} // verus!
