//! Derivation of child keys from a path and a chain code, without any
//! message to the other party.
use vstd::prelude::*;
use curv::arithmetic::Converter;
use curv::cryptographic_primitives::hashing::HmacExt;
use curv::BigInt;
use hmac::{Hmac, Mac};
use sha2::Sha512;
use vstd::arithmetic::div_mod::{lemma_add_mod_noop, lemma_mod_bound, lemma_mod_twice, lemma_small_mod};
use crate::bytes::{be_nat, copy_range, fit, fitted, lemma_be_nat_zero, padded};
use crate::error::ProtocolError;
use crate::master_key::MasterKey1;
use crate::number::{values, BigNumber};
use crate::point::{ec_add, ec_mul, generator, generator_bytes, is_point_encoding, point_add, point_mul, Point};
use crate::scalar::{group_order, order_bytes, scalar_add, scalar_from_number, Scalar};
use crate::types::{encodings, MasterKeyPublic, PaillierPublicKey, PrivateKeyMaterial, VerifiableSS};

verus! {

/// The 64 bytes of HMAC-SHA512 under the bytes of the number `key`, over the
/// bytes of the number `first` followed by those of the number `second`, as
/// `HmacExt` of `curv` and `Mac::finalize` of `hmac` compute it.
pub uninterp spec fn hmac_sha512(key: nat, first: nat, second: nat) -> Seq<u8>;

/// `HmacExt::new_bigint` and `chain_bigint` of `curv` with `Mac::finalize`
/// of `hmac`, for SHA-512: the code of a public key and an index under a
/// chain code.
#[verifier::external_body]
fn child_hmac(chain_code: &BigNumber, public_key: &Point, index: &BigNumber) -> (r: Vec<u8>)
    ensures
        r@ == hmac_sha512(chain_code@, be_nat(public_key@), index@),
        r@.len() == 64,
{
    let mac = Hmac::<Sha512>::new_bigint(&BigInt::from_bytes(&chain_code.bytes));
    let mac = mac.chain_bigint(&BigInt::from_bytes(&public_key.bytes));
    mac.chain_bigint(&BigInt::from_bytes(&index.bytes)).finalize().into_bytes().to_vec()
}

/// The code that one step of a derivation computes: the chain code is the
/// number that the chain point's compressed form denotes.
pub open spec fn step_code(q: Seq<u8>, chain: Seq<u8>, index: nat) -> Seq<u8> {
    hmac_sha512(be_nat(chain), be_nat(q), index)
}

/// The tweak of one step: the first half of the code, as a scalar.
pub open spec fn step_tweak(q: Seq<u8>, chain: Seq<u8>, index: nat) -> nat {
    be_nat(step_code(q, chain, index).subrange(0, 32)) % group_order()
}

/// The factor of one step for the chain point: the second half of the code,
/// as a scalar.
pub open spec fn step_factor(q: Seq<u8>, chain: Seq<u8>, index: nat) -> nat {
    be_nat(step_code(q, chain, index).subrange(32, 64)) % group_order()
}

/// What a derivation has reached: the public key, the sum of the tweaks so
/// far, and the chain point.
pub struct Derivation {
    pub q: Seq<u8>,
    pub tweak: nat,
    pub chain: Seq<u8>,
}

/// One step of a derivation: the public key moves by the tweak's public
/// point, the chain point is taken by the factor.
pub open spec fn derive_step(d: Derivation, index: nat) -> Derivation {
    Derivation {
        q: ec_add(d.q, ec_mul(generator_bytes(), step_tweak(d.q, d.chain, index))),
        tweak: (step_tweak(d.q, d.chain, index) + d.tweak) % group_order(),
        chain: ec_mul(d.chain, step_factor(d.q, d.chain, index)),
    }
}

/// The derivation along a path, from a public key and a chain point.
pub open spec fn derive(q: Seq<u8>, chain: Seq<u8>, path: Seq<nat>) -> Derivation
    decreases path.len(),
{
    if path.len() == 0 {
        Derivation { q, tweak: 0, chain }
    } else {
        derive_step(derive(q, chain, path.drop_last()), path.last())
    }
}

/// Whether a child can be derived from the key along the path: the path is
/// not empty, the key's public part is well shaped, and the chain code,
/// written in 33 bytes, is the compressed form of a point.
pub open spec fn derivable(key: MasterKey1, path: Seq<nat>) -> bool {
    &&& path.len() > 0
    &&& key.public.well_shaped()
    &&& fitted(key.chain_code.bytes@, 33).is_some()
    &&& is_point_encoding(fitted(key.chain_code.bytes@, 33).unwrap())
}

/// Whether `child` is the key derived from `parent` along `path`. The joint
/// public key and the chain code are those of the derivation, and the chain
/// code is a point again, so that the child has children; the constant
/// commitment of the first party's sharing moves by the public point of the
/// tweak, and so do, by the tweak, the first party's two shares; everything
/// else stays.
pub open spec fn is_child(parent: MasterKey1, path: Seq<nat>, child: MasterKey1) -> bool {
    let d = derive(parent.public.q@, fitted(parent.chain_code.bytes@, 33).unwrap(), path);
    let old_first = parent.public.vss_scheme_vec@[0];
    let new_first = child.public.vss_scheme_vec@[0];
    &&& child.public.q@ == d.q
    &&& child.chain_code.bytes@ == d.chain
    &&& is_point_encoding(child.chain_code.bytes@)
    &&& child.public.well_shaped()
    &&& new_first.parameters == old_first.parameters
    &&& new_first.commitments@[0]@ == ec_add(old_first.commitments@[0]@, ec_mul(generator_bytes(), d.tweak))
    &&& new_first.commitments@[1]@ == old_first.commitments@[1]@
    &&& child.public.vss_scheme_vec@[1].parameters == parent.public.vss_scheme_vec@[1].parameters
    &&& encodings(child.public.vss_scheme_vec@[1].commitments@) == encodings(
        parent.public.vss_scheme_vec@[1].commitments@,
    )
    &&& child.public.paillier_key_vec@[0].n.bytes@ == parent.public.paillier_key_vec@[0].n.bytes@
    &&& child.public.paillier_key_vec@[1].n.bytes@ == parent.public.paillier_key_vec@[1].n.bytes@
    &&& child.private.u_i@ == (parent.private.u_i@ + d.tweak) % group_order()
    &&& child.private.x_i@ == (parent.private.x_i@ + d.tweak) % group_order()
    &&& child.private.dk.primes() == parent.private.dk.primes()
}

/// The public key, the sum of the tweaks and the chain point that the
/// derivation along a path reaches.
pub fn hd_key(location_in_hir: &Vec<BigNumber>, pubkey: &Point, chain: &Point) -> (r: (Point, Scalar, Point))
    ensures
        r.0@ == derive(pubkey@, chain@, values(location_in_hir@)).q,
        r.1@ == derive(pubkey@, chain@, values(location_in_hir@)).tweak,
        r.2@ == derive(pubkey@, chain@, values(location_in_hir@)).chain,
{
    let mut q = pubkey.duplicate();
    let mut tweak = Scalar::zero();
    let mut cc = chain.duplicate();
    let g = generator();
    let ghost path = values(location_in_hir@);
    let mut i: usize = 0;
    while i < location_in_hir.len()
        invariant
            i <= location_in_hir.len(),
            path == values(location_in_hir@),
            g@ == generator_bytes(),
            q@ == derive(pubkey@, chain@, path.subrange(0, i as int)).q,
            tweak@ == derive(pubkey@, chain@, path.subrange(0, i as int)).tweak,
            cc@ == derive(pubkey@, chain@, path.subrange(0, i as int)).chain,
        decreases location_in_hir.len() - i,
    {
        let key = BigNumber { bytes: cc.to_bytes() };
        let code = child_hmac(&key, &q, &location_in_hir[i]);
        let left = copy_range(&code, 0, 32);
        let right = copy_range(&code, 32, 64);
        let f_l = scalar_from_number(&left);
        let f_r = scalar_from_number(&right);
        proof {
            let next = path.subrange(0, i + 1);
            assert(next.drop_last() =~= path.subrange(0, i as int));
            assert(next.last() == location_in_hir@[i as int]@);
        }
        q = point_add(&q, &point_mul(&g, &f_l));
        tweak = scalar_add(&f_l, &tweak);
        cc = point_mul(&cc, &f_r);
        i += 1;
    }
    assert(path.subrange(0, location_in_hir.len() as int) =~= path);
    (q, tweak, cc)
}

impl MasterKey1 {
    /// The child key along a path. Both parties compute it alone and reach
    /// the same joint public key; the first party takes the tweak into its
    /// shares and into its sharing's constant commitment. Fails with
    /// `MalformedInput` exactly when no child can be derived: on an empty
    /// path, a public part that is not well shaped, or a chain code that is
    /// not a point.
    pub fn get_child(&self, location_in_hir: Vec<BigNumber>) -> (r: Result<MasterKey1, ProtocolError>)
        ensures
            r.is_ok() == derivable(*self, values(location_in_hir@)),
            r.is_err() ==> r->Err_0 == ProtocolError::MalformedInput,
            r.is_ok() ==> is_child(*self, values(location_in_hir@), r.unwrap()),
    {
        if location_in_hir.len() == 0 || !self.public.is_well_shaped() {
            return Err(ProtocolError::MalformedInput);
        }
        let written = match fit(&self.chain_code.bytes, 33) {
            Some(b) => b,
            None => {
                return Err(ProtocolError::MalformedInput);
            },
        };
        let chain = match Point::from_bytes(written) {
            Some(p) => p,
            None => {
                return Err(ProtocolError::MalformedInput);
            },
        };
        let (public_key_new_child, f_l_new, cc_new) = hd_key(&location_in_hir, &self.public.q, &chain);
        let g = generator();
        let old_first = &self.public.vss_scheme_vec[0];
        let com_zero_new = point_add(&old_first.commitments[0], &point_mul(&g, &f_l_new));
        let mut com_vec_new: Vec<Point> = Vec::new();
        com_vec_new.push(com_zero_new);
        com_vec_new.push(old_first.commitments[1].duplicate());
        let new_vss = VerifiableSS { parameters: old_first.duplicate().parameters, commitments: com_vec_new };
        let mut new_vss_vec: Vec<VerifiableSS> = Vec::new();
        new_vss_vec.push(new_vss);
        new_vss_vec.push(self.public.vss_scheme_vec[1].duplicate());
        let mut paillier_key_vec: Vec<PaillierPublicKey> = Vec::new();
        paillier_key_vec.push(self.public.paillier_key_vec[0].duplicate());
        paillier_key_vec.push(self.public.paillier_key_vec[1].duplicate());
        let master_key_public = MasterKeyPublic {
            q: public_key_new_child,
            vss_scheme_vec: new_vss_vec,
            paillier_key_vec,
        };
        let master_key_private = PrivateKeyMaterial {
            u_i: scalar_add(&self.private.u_i, &f_l_new),
            x_i: scalar_add(&self.private.x_i, &f_l_new),
            dk: self.private.dk.duplicate(),
        };
        proof {
            assert(encodings(master_key_public.vss_scheme_vec@[1].commitments@).len() == 2);
        }
        Ok(MasterKey1 {
            public: master_key_public,
            private: master_key_private,
            chain_code: BigNumber { bytes: cc_new.to_bytes() },
        })
    }
}

/// Deriving twice gives the same child: two keys derived from one key along
/// one path have the same joint public key, the same chain code, the same
/// shares and the same sharings.
pub proof fn lemma_derivation_repeats(parent: MasterKey1, path: Seq<nat>, first: MasterKey1, second: MasterKey1)
    requires
        is_child(parent, path, first),
        is_child(parent, path, second),
    ensures
        first.public.q@ == second.public.q@,
        first.chain_code.bytes@ == second.chain_code.bytes@,
        first.private.u_i@ == second.private.u_i@,
        first.private.x_i@ == second.private.x_i@,
        first.private.dk.primes() == second.private.dk.primes(),
        encodings(first.public.vss_scheme_vec@[0].commitments@) == encodings(
            second.public.vss_scheme_vec@[0].commitments@,
        ),
        encodings(first.public.vss_scheme_vec@[1].commitments@) == encodings(
            second.public.vss_scheme_vec@[1].commitments@,
        ),
{
    let a = encodings(first.public.vss_scheme_vec@[0].commitments@);
    let b = encodings(second.public.vss_scheme_vec@[0].commitments@);
    assert(a.len() == 2 && b.len() == 2);
    assert(a =~= b);
}

/// A child has children: a key derived along a path can itself be derived
/// from, along any path that is not empty, and its chain code is then read
/// as it stands.
pub proof fn lemma_child_has_children(parent: MasterKey1, path: Seq<nat>, child: MasterKey1, next: Seq<nat>)
    requires
        is_child(parent, path, child),
        next.len() > 0,
    ensures
        derivable(child, next),
        fitted(child.chain_code.bytes@, 33) == Some(child.chain_code.bytes@),
{
    let b = child.chain_code.bytes@;
    assert(padded(b, 33) =~= b);
}

/// The sum of the tweaks of a derivation is a scalar.
pub proof fn lemma_tweak_is_scalar(q: Seq<u8>, chain: Seq<u8>, path: Seq<nat>)
    ensures
        derive(q, chain, path).tweak < group_order(),
{
    lemma_be_nat_zero(order_bytes());
    assert(order_bytes()[0] != 0);
    if path.len() > 0 {
        let d = derive(q, chain, path.drop_last());
        let t = step_tweak(d.q, d.chain, path.last());
        lemma_mod_bound((t + d.tweak) as int, group_order() as int);
    }
}

/// A derivation can be made in two legs: deriving along a path and then,
/// from the public key and chain point reached, along a second path reaches
/// the public key and chain point of the derivation along both paths in one
/// go, and the tweaks of the two legs add up to its tweak.
pub proof fn lemma_derivation_composes(q: Seq<u8>, chain: Seq<u8>, first: Seq<nat>, second: Seq<nat>)
    ensures
        derive(q, chain, first + second).q == derive(
            derive(q, chain, first).q,
            derive(q, chain, first).chain,
            second,
        ).q,
        derive(q, chain, first + second).chain == derive(
            derive(q, chain, first).q,
            derive(q, chain, first).chain,
            second,
        ).chain,
        derive(q, chain, first + second).tweak == (derive(
            derive(q, chain, first).q,
            derive(q, chain, first).chain,
            second,
        ).tweak + derive(q, chain, first).tweak) % group_order(),
    decreases second.len(),
{
    let n = group_order() as int;
    let leg = derive(q, chain, first);
    lemma_tweak_is_scalar(q, chain, first);
    if second.len() == 0 {
        assert(first + second =~= first);
        lemma_small_mod(leg.tweak, group_order());
    } else {
        let shorter = second.drop_last();
        lemma_derivation_composes(q, chain, first, shorter);
        assert((first + second).drop_last() =~= first + shorter);
        assert((first + second).last() == second.last());
        let whole = derive(q, chain, first + shorter);
        let rest = derive(leg.q, leg.chain, shorter);
        let t = step_tweak(whole.q, whole.chain, second.last()) as int;
        let a = rest.tweak as int;
        let b = leg.tweak as int;
        lemma_add_mod_noop(t, a + b, n);
        lemma_add_mod_noop(t, (a + b) % n, n);
        lemma_mod_twice(a + b, n);
        lemma_add_mod_noop(t + a, b, n);
        lemma_add_mod_noop((t + a) % n, b, n);
        lemma_mod_twice(t + a, n);
    }
}

} // verus!
