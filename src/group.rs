//! Scalars and points of the secp256k1 group, held as their canonical byte
//! encodings. The arithmetic itself is done by the `k256` crate.
use k256::elliptic_curve::group::GroupEncoding;
use k256::elliptic_curve::ops::Reduce;
use k256::elliptic_curve::PrimeField;
use rand::RngCore;
use vstd::prelude::*;

verus! {

/// The order of the secp256k1 group.
pub open spec fn group_order() -> int {
    let limb: int = 0x1_0000_0000_0000_0000;
    ((0xFFFF_FFFF_FFFF_FFFF * limb + 0xFFFF_FFFF_FFFF_FFFE) * limb + 0xBAAE_DCE6_AF48_A03B) * limb
        + 0xBFD2_5E8C_D036_4141
}

/// The unsigned integer that a byte string denotes in big-endian order.
pub open spec fn be_value(b: Seq<u8>) -> nat
    decreases b.len(),
{
    if b.len() == 0 {
        0
    } else {
        be_value(b.drop_last()) * 256 + b.last() as nat
    }
}

/// The 33-byte compressed encoding (`GroupEncoding::to_bytes`) of the
/// generator multiplied by `k`.
pub uninterp spec fn generator_multiple(k: int) -> Seq<u8>;

/// Whether `e` is the encoding of a group element, i.e. of some multiple of the
/// generator.
pub open spec fn is_point_encoding(e: Seq<u8>) -> bool {
    exists|j: int| 0 <= j < group_order() && #[trigger] generator_multiple(j) == e
}

/// An integer modulo the group order, held as its 32-byte big-endian encoding.
#[derive(Debug, Clone)]
pub struct Scalar {
    bytes: Vec<u8>,
}

impl View for Scalar {
    type V = Seq<u8>;

    closed spec fn view(&self) -> Seq<u8> {
        self.bytes@
    }
}

impl Scalar {
    pub open spec fn value(&self) -> int {
        be_value(self@) as int
    }

    pub open spec fn wf(&self) -> bool {
        self@.len() == 32 && self.value() < group_order()
    }

    /// The canonical 32-byte big-endian encoding.
    pub fn to_bytes(&self) -> (r: Vec<u8>)
        ensures
            r@ == self@,
    {
        self.bytes.clone()
    }

    /// Parses a 32-byte big-endian encoding; `None` when the length is not 32
    /// or the integer is not below the group order.
    pub fn from_bytes(b: &[u8]) -> (r: Option<Scalar>)
        ensures
            r is Some <==> (b@.len() == 32 && be_value(b@) < group_order()),
            r matches Some(s) ==> s@ == b@ && s.wf(),
    {
        if b.len() != 32 {
            return None;
        }
        let v = vstd::slice::slice_to_vec(b);
        scalar_from_repr(&v)
    }

    /// `(self + o) mod n`.
    pub fn add(&self, o: &Scalar) -> (r: Scalar)
        requires
            self.wf(),
            o.wf(),
        ensures
            r.wf(),
            r.value() == (self.value() + o.value()) % group_order(),
    {
        scalar_add(self, o)
    }

    /// `(self * o) mod n`.
    pub fn mul(&self, o: &Scalar) -> (r: Scalar)
        requires
            self.wf(),
            o.wf(),
        ensures
            r.wf(),
            r.value() == (self.value() * o.value()) % group_order(),
    {
        scalar_mul(self, o)
    }
}

impl PartialEq for Scalar {
    fn eq(&self, o: &Scalar) -> (r: bool) {
        bytes_equal(&self.bytes, &o.bytes)
    }
}

impl vstd::std_specs::cmp::PartialEqSpecImpl for Scalar {
    open spec fn obeys_eq_spec() -> bool {
        true
    }

    open spec fn eq_spec(&self, o: &Scalar) -> bool {
        self@ == o@
    }
}

/// Relies on `PrimeField::from_repr` of k256's `Scalar`: it accepts exactly the
/// big-endian encodings of integers below the order, and `to_bytes` gives the
/// same bytes back.
#[verifier::external_body]
fn scalar_from_repr(b: &Vec<u8>) -> (r: Option<Scalar>)
    requires
        b@.len() == 32,
    ensures
        r is Some <==> be_value(b@) < group_order(),
        r matches Some(s) ==> s@ == b@,
{
    let s: Option<k256::Scalar> = k256::Scalar::from_repr(*k256::FieldBytes::from_slice(b)).into();
    s.map(|s| Scalar { bytes: s.to_bytes().to_vec() })
}

/// Relies on `Add` of k256's `Scalar`: addition modulo the order.
#[verifier::external_body]
fn scalar_add(a: &Scalar, b: &Scalar) -> (r: Scalar)
    requires
        a.wf(),
        b.wf(),
    ensures
        r.wf(),
        r.value() == (a.value() + b.value()) % group_order(),
{
    let x = k256::Scalar::from_repr(*k256::FieldBytes::from_slice(&a.bytes)).unwrap();
    let y = k256::Scalar::from_repr(*k256::FieldBytes::from_slice(&b.bytes)).unwrap();
    Scalar { bytes: (x + y).to_bytes().to_vec() }
}

/// Relies on `Mul` of k256's `Scalar`: multiplication modulo the order.
#[verifier::external_body]
fn scalar_mul(a: &Scalar, b: &Scalar) -> (r: Scalar)
    requires
        a.wf(),
        b.wf(),
    ensures
        r.wf(),
        r.value() == (a.value() * b.value()) % group_order(),
{
    let x = k256::Scalar::from_repr(*k256::FieldBytes::from_slice(&a.bytes)).unwrap();
    let y = k256::Scalar::from_repr(*k256::FieldBytes::from_slice(&b.bytes)).unwrap();
    Scalar { bytes: (x * y).to_bytes().to_vec() }
}

/// A group element, held as its 33-byte compressed encoding.
#[derive(Debug, Clone)]
pub struct Point {
    enc: Vec<u8>,
}

impl View for Point {
    type V = Seq<u8>;

    closed spec fn view(&self) -> Seq<u8> {
        self.enc@
    }
}

impl Point {
    pub open spec fn wf(&self) -> bool {
        self@.len() == 33 && is_point_encoding(self@)
    }

    /// The discrete logarithm of the point to the base of the generator.
    pub open spec fn dlog(&self) -> int {
        choose|j: int| 0 <= j < group_order() && #[trigger] generator_multiple(j) == self@
    }

    /// The generator of the group.
    pub fn generator() -> (r: Point)
        ensures
            r.wf(),
            r.dlog() == 1,
            r@ == generator_multiple(1),
    {
        let r = base_point();
        assert(generator_multiple(1) == r@);
        r
    }

    /// The generator multiplied by `k`.
    pub fn mul_base(k: &Scalar) -> (r: Point)
        requires
            k.wf(),
        ensures
            r.wf(),
            r.dlog() == k.value(),
            r@ == generator_multiple(k.value()),
            forall|j: int|
                0 <= j < group_order() && #[trigger] generator_multiple(j) == r@ ==> j == k.value(),
    {
        let r = generator_times(k);
        assert(generator_multiple(k.value()) == r@);
        r
    }

    /// `self` multiplied by `k`.
    pub fn mul(&self, k: &Scalar) -> (r: Point)
        requires
            self.wf(),
            k.wf(),
        ensures
            r.wf(),
            r@ == generator_multiple((self.dlog() * k.value()) % group_order()),
            forall|j: int|
                0 <= j < group_order() && #[trigger] generator_multiple(j) == self@ ==> r@
                    == generator_multiple((j * k.value()) % group_order()),
    {
        let r = point_times(self, k);
        proof {
            let j = self.dlog();
            let v = (j * k.value()) % group_order();
            assert(generator_multiple(j) == self@);
            assert(0 <= v < group_order());
            assert(generator_multiple(v) == r@);
        }
        r
    }

    /// The group sum of `self` and `q`.
    pub fn add(&self, q: &Point) -> (r: Point)
        requires
            self.wf(),
            q.wf(),
        ensures
            r.wf(),
            r@ == generator_multiple((self.dlog() + q.dlog()) % group_order()),
            forall|a: int, b: int|
                #![trigger generator_multiple(a), generator_multiple(b)]
                0 <= a < group_order() && 0 <= b < group_order() && generator_multiple(a) == self@
                    && generator_multiple(b) == q@ ==> r@ == generator_multiple(
                    (a + b) % group_order(),
                ),
    {
        let r = point_sum(self, q);
        proof {
            let a = self.dlog();
            let b = q.dlog();
            let v = (a + b) % group_order();
            assert(generator_multiple(a) == self@);
            assert(generator_multiple(b) == q@);
            assert(0 <= v < group_order());
            assert(generator_multiple(v) == r@);
        }
        r
    }

    /// A copy of the point.
    pub fn duplicate(&self) -> (r: Point)
        ensures
            r@ == self@,
    {
        Point { enc: self.enc.clone() }
    }

    /// Whether the two encodings are equal, which for well-formed points is
    /// group equality.
    pub fn equals(&self, q: &Point) -> (r: bool)
        ensures
            r == (self@ == q@),
    {
        bytes_equal(&self.enc, &q.enc)
    }

    /// The 33-byte compressed encoding.
    pub fn to_bytes(&self) -> (r: Vec<u8>)
        ensures
            r@ == self@,
    {
        self.enc.clone()
    }

    /// Parses a 33-byte compressed encoding; `None` when the length is not 33
    /// or the bytes are not accepted as a point.
    pub fn from_bytes(b: &[u8]) -> (r: Option<Point>)
        ensures
            r is Some <==> (b@.len() == 33 && point_parse(b@) is Some),
            r matches Some(p) ==> p.wf() && p@ == point_parse(b@)->Some_0,
            b@.len() == 33 && is_point_encoding(b@) ==> (r matches Some(p) && p@ == b@),
    {
        if b.len() != 33 {
            return None;
        }
        let v = vstd::slice::slice_to_vec(b);
        point_from_encoding(&v)
    }
}

impl PartialEq for Point {
    fn eq(&self, o: &Point) -> (r: bool) {
        bytes_equal(&self.enc, &o.enc)
    }
}

impl vstd::std_specs::cmp::PartialEqSpecImpl for Point {
    open spec fn obeys_eq_spec() -> bool {
        true
    }

    open spec fn eq_spec(&self, o: &Point) -> bool {
        self@ == o@
    }
}

/// Byte-wise equality of two vectors.
pub fn bytes_equal(a: &Vec<u8>, b: &Vec<u8>) -> (r: bool)
    ensures
        r == (a@ == b@),
{
    if a.len() != b.len() {
        return false;
    }
    let mut i: usize = 0;
    while i < a.len()
        invariant
            a@.len() == b@.len(),
            0 <= i <= a@.len(),
            forall|k: int| 0 <= k < i ==> a@[k] == b@[k],
        decreases a@.len() - i,
    {
        if a[i] != b[i] {
            return false;
        }
        i = i + 1;
    }
    assert(a@ =~= b@);
    true
}

/// What `GroupEncoding::from_bytes` of k256's `ProjectivePoint` makes of 33
/// bytes: the canonical encoding of the point it parses to, if any.
pub uninterp spec fn point_parse(b: Seq<u8>) -> Option<Seq<u8>>;

/// Relies on `ProjectivePoint::GENERATOR` of k256 and `to_bytes`: the
/// generator has order n, so no other multiple below n has its encoding.
#[verifier::external_body]
fn base_point() -> (r: Point)
    ensures
        r@ == generator_multiple(1),
        r@.len() == 33,
        forall|j: int| 0 <= j < group_order() && #[trigger] generator_multiple(j) == r@ ==> j == 1,
{
    Point { enc: k256::ProjectivePoint::GENERATOR.to_bytes().to_vec() }
}

/// Relies on `Mul<Scalar>` of k256's `ProjectivePoint`, applied to the
/// generator, and `to_bytes`: distinct multiples below n are distinct points.
#[verifier::external_body]
fn generator_times(k: &Scalar) -> (r: Point)
    requires
        k.wf(),
    ensures
        r@ == generator_multiple(k.value()),
        r@.len() == 33,
        forall|j: int|
            0 <= j < group_order() && #[trigger] generator_multiple(j) == r@ ==> j == k.value(),
{
    let x = k256::Scalar::from_repr(*k256::FieldBytes::from_slice(&k.bytes)).unwrap();
    Point { enc: (k256::ProjectivePoint::GENERATOR * x).to_bytes().to_vec() }
}

/// Relies on `Mul<Scalar>` of k256's `ProjectivePoint`: `(g^j)^k = g^(j k mod n)`.
#[verifier::external_body]
fn point_times(p: &Point, k: &Scalar) -> (r: Point)
    requires
        p.wf(),
        k.wf(),
    ensures
        r@.len() == 33,
        forall|j: int|
            0 <= j < group_order() && #[trigger] generator_multiple(j) == p@ ==> r@
                == generator_multiple((j * k.value()) % group_order()),
{
    let q = k256::ProjectivePoint::from_bytes(k256::CompressedPoint::from_slice(&p.enc)).unwrap();
    let x = k256::Scalar::from_repr(*k256::FieldBytes::from_slice(&k.bytes)).unwrap();
    Point { enc: (q * x).to_bytes().to_vec() }
}

/// Relies on `Add` of k256's `ProjectivePoint`: `g^a + g^b = g^(a + b mod n)`.
#[verifier::external_body]
fn point_sum(p: &Point, q: &Point) -> (r: Point)
    requires
        p.wf(),
        q.wf(),
    ensures
        r@.len() == 33,
        forall|a: int, b: int|
            #![trigger generator_multiple(a), generator_multiple(b)]
            0 <= a < group_order() && 0 <= b < group_order() && generator_multiple(a) == p@
                && generator_multiple(b) == q@ ==> r@ == generator_multiple((a + b) % group_order()),
{
    let x = k256::ProjectivePoint::from_bytes(k256::CompressedPoint::from_slice(&p.enc)).unwrap();
    let y = k256::ProjectivePoint::from_bytes(k256::CompressedPoint::from_slice(&q.enc)).unwrap();
    Point { enc: (x + y).to_bytes().to_vec() }
}

/// Relies on `GroupEncoding::from_bytes` of k256's `ProjectivePoint`, then
/// `to_bytes`: every canonical encoding parses back to itself.
#[verifier::external_body]
fn point_from_encoding(b: &Vec<u8>) -> (r: Option<Point>)
    requires
        b@.len() == 33,
    ensures
        r is Some <==> point_parse(b@) is Some,
        r is Some ==> r->Some_0@ == point_parse(b@)->Some_0,
        r is Some ==> r->Some_0@.len() == 33 && is_point_encoding(r->Some_0@),
        is_point_encoding(b@) ==> r is Some && r->Some_0@ == b@,
{
    let p: Option<k256::ProjectivePoint> = k256::ProjectivePoint::from_bytes(k256::CompressedPoint::from_slice(b)).into();
    p.map(|p| Point { enc: p.to_bytes().to_vec() })
}

/// How many 32-byte draws a scalar is sampled from before giving up. A draw
/// is out of range with probability below 2^-127, so running out of draws
/// means the random source is not working.
pub const MAX_DRAWS: usize = 64;

/// Relies on `RngCore::try_fill_bytes` of rand's `OsRng`: `n` bytes from the
/// operating system's generator, or `None` when that generator fails.
#[verifier::external_body]
fn os_random_bytes(n: usize) -> (r: Option<Vec<u8>>)
    ensures
        r matches Some(v) ==> v@.len() == n,
{
    let mut v = vec![0u8; n];
    rand::rngs::OsRng.try_fill_bytes(&mut v).ok().map(|_| v)
}

/// A uniformly drawn scalar below the order, by rejection sampling of 32-byte
/// draws from the operating system's generator. `None` when the generator
/// fails, or when every one of `MAX_DRAWS` draws is out of range.
pub fn generate_random_number() -> (r: Option<Scalar>)
    ensures
        r matches Some(s) ==> s.wf(),
{
    let mut attempt: usize = 0;
    while attempt < MAX_DRAWS
        invariant
            0 <= attempt <= MAX_DRAWS,
        decreases MAX_DRAWS - attempt,
    {
        let bytes = match os_random_bytes(32) {
            Some(b) => b,
            None => return None,
        };
        match Scalar::from_bytes(bytes.as_slice()) {
            Some(s) => return Some(s),
            None => {},
        }
        attempt = attempt + 1;
    }
    None
}

/// Relies on `Reduce<U256>::reduce_bytes` of k256's `Scalar`: the big-endian
/// integer of the 32 bytes, reduced modulo the order.
#[verifier::external_body]
pub(crate) fn reduce_digest(d: &Vec<u8>) -> (r: Scalar)
    requires
        d@.len() == 32,
    ensures
        r.wf(),
        r.value() == be_value(d@) as int % group_order(),
{
    let s = <k256::Scalar as Reduce<k256::U256>>::reduce_bytes(k256::FieldBytes::from_slice(d));
    Scalar { bytes: s.to_bytes().to_vec() }
}

} // verus!
