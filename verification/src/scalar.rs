//! Scalars of the secp256k1 group: integers below the group order.
use vstd::prelude::*;
use curv::arithmetic::Converter;
use curv::elliptic::curves::Secp256k1;
use crate::bytes::{
    be_nat, bytes_eq, bytes_less, copy_bytes, is_zero_bytes, lemma_be_nat_injective, lemma_be_nat_zero,
    pad_left,
};

verus! {

/// The order of the secp256k1 group, as 32 bytes.
pub open spec fn order_bytes() -> Seq<u8> {
    seq![
        0xFFu8, 0xFF, 0xFF, 0xFF, 0xFF, 0xFF, 0xFF, 0xFF,
        0xFF, 0xFF, 0xFF, 0xFF, 0xFF, 0xFF, 0xFF, 0xFE,
        0xBA, 0xAE, 0xDC, 0xE6, 0xAF, 0x48, 0xA0, 0x3B,
        0xBF, 0xD2, 0x5E, 0x8C, 0xD0, 0x36, 0x41, 0x41,
    ]
}

/// The order of the secp256k1 group.
pub open spec fn group_order() -> nat {
    be_nat(order_bytes())
}

/// Whether a byte string is the encoding of a scalar: 32 bytes that denote a
/// number below the group order.
pub open spec fn is_scalar_encoding(b: Seq<u8>) -> bool {
    b.len() == 32 && be_nat(b) < group_order()
}

/// A scalar, held as its 32-byte encoding. Its view is the number it is.
#[derive(Debug)]
pub struct Scalar {
    pub(crate) bytes: Vec<u8>,
}

impl View for Scalar {
    type V = nat;

    closed spec fn view(&self) -> nat {
        be_nat(self.bytes@)
    }
}

impl Clone for Scalar {
    fn clone(&self) -> (r: Scalar)
        ensures
            r@ == self@,
    {
        self.duplicate()
    }
}

fn order() -> (r: Vec<u8>)
    ensures
        r@ == order_bytes(),
{
    let r = vec![
        0xFFu8, 0xFF, 0xFF, 0xFF, 0xFF, 0xFF, 0xFF, 0xFF,
        0xFF, 0xFF, 0xFF, 0xFF, 0xFF, 0xFF, 0xFF, 0xFE,
        0xBA, 0xAE, 0xDC, 0xE6, 0xAF, 0x48, 0xA0, 0x3B,
        0xBF, 0xD2, 0x5E, 0x8C, 0xD0, 0x36, 0x41, 0x41,
    ];
    assert(r@ =~= order_bytes());
    r
}

impl Scalar {
    #[verifier::type_invariant]
    closed spec fn well_formed(&self) -> bool {
        is_scalar_encoding(self.bytes@)
    }

    /// The 32 bytes that encode the scalar.
    pub closed spec fn encoding(&self) -> Seq<u8> {
        self.bytes@
    }

    /// The scalar with the given encoding, if the bytes are one.
    pub fn from_bytes(bytes: Vec<u8>) -> (r: Option<Scalar>)
        ensures
            r.is_some() == is_scalar_encoding(bytes@),
            r.is_some() ==> r.unwrap().encoding() == bytes@ && r.unwrap()@ == be_nat(bytes@),
    {
        if bytes.len() != 32 {
            return None;
        }
        let n = order();
        if bytes_less(&bytes, &n) {
            Some(Scalar { bytes })
        } else {
            None
        }
    }

    /// The scalar zero.
    pub fn zero() -> (r: Scalar)
        ensures
            r@ == 0,
    {
        let empty: Vec<u8> = Vec::new();
        let bytes = pad_left(&empty, 32);
        proof {
            lemma_be_nat_zero(order_bytes());
            assert(order_bytes()[0] != 0);
        }
        Scalar { bytes }
    }

    /// The encoding of the scalar.
    pub fn to_bytes(&self) -> (r: Vec<u8>)
        ensures
            r@ == self.encoding(),
            be_nat(r@) == self@,
            is_scalar_encoding(r@),
    {
        proof {
            use_type_invariant(self);
        }
        copy_bytes(&self.bytes)
    }

    /// A copy of the scalar.
    pub fn duplicate(&self) -> (r: Scalar)
        ensures
            r@ == self@,
            r.encoding() == self.encoding(),
            self@ < group_order(),
    {
        proof {
            use_type_invariant(self);
        }
        Scalar { bytes: copy_bytes(&self.bytes) }
    }

    /// Every scalar is below the group order.
    pub fn below_order(&self)
        ensures
            self@ < group_order(),
    {
        proof {
            use_type_invariant(self);
        }
    }

    /// Whether the scalar is zero.
    pub fn is_zero(&self) -> (r: bool)
        ensures
            r == (self@ == 0),
    {
        is_zero_bytes(&self.bytes)
    }

    /// Whether two scalars are the same number.
    pub fn same(&self, other: &Scalar) -> (r: bool)
        ensures
            r == (self@ == other@),
    {
        proof {
            use_type_invariant(self);
            use_type_invariant(other);
            if self@ == other@ {
                lemma_be_nat_injective(self.bytes@, other.bytes@);
            }
        }
        bytes_eq(&self.bytes, &other.bytes)
    }
}

/// `Scalar + Scalar` of `curv`: the sum of two scalars modulo the group order.
#[verifier::external_body]
pub(crate) fn scalar_add(a: &Scalar, b: &Scalar) -> (r: Scalar)
    ensures
        r@ == (a@ + b@) % group_order(),
{
    let x = curv::elliptic::curves::Scalar::<Secp256k1>::from_bytes(&a.bytes).unwrap();
    let y = curv::elliptic::curves::Scalar::<Secp256k1>::from_bytes(&b.bytes).unwrap();
    Scalar { bytes: (x + y).to_bytes().to_vec() }
}

/// `Scalar::from_bigint` of `curv`, after `BigInt::from_bytes`: the number
/// that the bytes denote, reduced modulo the group order.
#[verifier::external_body]
pub(crate) fn scalar_from_number(n: &Vec<u8>) -> (r: Scalar)
    ensures
        r@ == be_nat(n@) % group_order(),
{
    let x = curv::elliptic::curves::Scalar::<Secp256k1>::from_bigint(&curv::BigInt::from_bytes(n));
    Scalar { bytes: x.to_bytes().to_vec() }
}

} // verus!
