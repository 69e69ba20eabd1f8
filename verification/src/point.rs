//! Points of the secp256k1 group, in compressed form.
use vstd::prelude::*;
use curv::elliptic::curves::Secp256k1;
use crate::bytes::{all_zero, be_nat, bytes_eq, copy_bytes, is_zero_bytes};
use crate::scalar::Scalar;

verus! {

/// Whether `Point::from_bytes` of `curv` accepts the bytes as a point of
/// secp256k1.
pub uninterp spec fn point_decodes(bytes: Seq<u8>) -> bool;

/// The compressed form of the sum of two points given in compressed form, as
/// `Point + Point` of `curv` computes it.
pub uninterp spec fn ec_add(a: Seq<u8>, b: Seq<u8>) -> Seq<u8>;

/// The compressed form of a point taken a number of times, as
/// `Point * Scalar` of `curv` computes it.
pub uninterp spec fn ec_mul(p: Seq<u8>, k: nat) -> Seq<u8>;

/// Whether a byte string is the compressed form of a point: 33 bytes that
/// `curv` decodes. The point at infinity is 33 zero bytes.
pub open spec fn is_point_encoding(b: Seq<u8>) -> bool {
    b.len() == 33 && point_decodes(b)
}

/// The compressed form of the generator of secp256k1.
pub open spec fn generator_bytes() -> Seq<u8> {
    seq![
        0x02u8,
        0x79, 0xBE, 0x66, 0x7E, 0xF9, 0xDC, 0xBB, 0xAC,
        0x55, 0xA0, 0x62, 0x95, 0xCE, 0x87, 0x0B, 0x07,
        0x02, 0x9B, 0xFC, 0xDB, 0x2D, 0xCE, 0x28, 0xD9,
        0x59, 0xF2, 0x81, 0x5B, 0x16, 0xF8, 0x17, 0x98,
    ]
}

/// The x coordinate of a point in compressed form: the number that the bytes
/// after the first denote.
pub open spec fn x_coordinate(p: Seq<u8>) -> nat {
    be_nat(p.subrange(1, p.len() as int))
}

/// A point, held in compressed form. Its view is that form.
#[derive(Debug)]
pub struct Point {
    pub(crate) bytes: Vec<u8>,
}

impl View for Point {
    type V = Seq<u8>;

    closed spec fn view(&self) -> Seq<u8> {
        self.bytes@
    }
}

impl Clone for Point {
    fn clone(&self) -> (r: Point)
        ensures
            r@ == self@,
    {
        self.duplicate()
    }
}

/// `Point::from_bytes` of `curv`: whether the bytes decode to a point.
#[verifier::external_body]
fn decodes(bytes: &Vec<u8>) -> (r: bool)
    ensures
        r == point_decodes(bytes@),
{
    curv::elliptic::curves::Point::<Secp256k1>::from_bytes(bytes).is_ok()
}

impl Point {
    #[verifier::type_invariant]
    closed spec fn well_formed(&self) -> bool {
        is_point_encoding(self.bytes@)
    }

    /// The point with the given compressed form, if the bytes are one.
    pub fn from_bytes(bytes: Vec<u8>) -> (r: Option<Point>)
        ensures
            r.is_some() == is_point_encoding(bytes@),
            r.is_some() ==> r.unwrap()@ == bytes@,
    {
        if bytes.len() == 33 && decodes(&bytes) {
            Some(Point { bytes })
        } else {
            None
        }
    }

    /// The compressed form of the point.
    pub fn to_bytes(&self) -> (r: Vec<u8>)
        ensures
            r@ == self@,
            is_point_encoding(r@),
    {
        proof {
            use_type_invariant(self);
        }
        copy_bytes(&self.bytes)
    }

    /// A copy of the point.
    pub fn duplicate(&self) -> (r: Point)
        ensures
            r@ == self@,
    {
        proof {
            use_type_invariant(self);
        }
        Point { bytes: copy_bytes(&self.bytes) }
    }

    /// Whether the point is the point at infinity.
    pub fn is_zero(&self) -> (r: bool)
        ensures
            r == all_zero(self@),
    {
        is_zero_bytes(&self.bytes)
    }

    /// Whether two points are the same.
    pub fn same(&self, other: &Point) -> (r: bool)
        ensures
            r == (self@ == other@),
    {
        bytes_eq(&self.bytes, &other.bytes)
    }
}

/// `Point::generator` of `curv`: the generator of the group.
#[verifier::external_body]
pub(crate) fn generator() -> (r: Point)
    ensures
        r@ == generator_bytes(),
{
    Point { bytes: curv::elliptic::curves::Point::<Secp256k1>::generator().to_point().to_bytes(true).to_vec() }
}

/// `Point + Point` of `curv`.
#[verifier::external_body]
pub(crate) fn point_add(a: &Point, b: &Point) -> (r: Point)
    ensures
        r@ == ec_add(a@, b@),
{
    let x = curv::elliptic::curves::Point::<Secp256k1>::from_bytes(&a.bytes).unwrap();
    let y = curv::elliptic::curves::Point::<Secp256k1>::from_bytes(&b.bytes).unwrap();
    Point { bytes: (x + y).to_bytes(true).to_vec() }
}

/// `Point * Scalar` of `curv`.
#[verifier::external_body]
pub(crate) fn point_mul(p: &Point, k: &Scalar) -> (r: Point)
    ensures
        r@ == ec_mul(p@, k@),
{
    let x = curv::elliptic::curves::Point::<Secp256k1>::from_bytes(&p.bytes).unwrap();
    let y = curv::elliptic::curves::Scalar::<Secp256k1>::from_bytes(&k.bytes).unwrap();
    Point { bytes: (x * y).to_bytes(true).to_vec() }
}

} // verus!
