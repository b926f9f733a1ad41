//! Byte encodings of keys and values.

use vstd::prelude::*;
use crate::error::DecodeError;

verus! {

/// A type with a byte encoding under which distinct values differ.
pub trait Packable: Sized {
    /// The encoding of a value.
    spec fn spec_pack(&self) -> Seq<u8>;

    /// Two values with one encoding are one value.
    proof fn lemma_pack_injective(a: Self, b: Self)
        requires
            a.spec_pack() == b.spec_pack(),
        ensures
            a == b,
    ;

    /// Encodes the value.
    fn pack(&self) -> (bytes: Vec<u8>)
        ensures
            bytes@ == self.spec_pack(),
    ;

    /// Decodes `bytes`: the value that encodes to exactly these bytes, and an
    /// error if and only if there is none.
    fn unpack(bytes: &[u8]) -> (r: Result<Self, DecodeError>)
        ensures
            r matches Ok(v) ==> v.spec_pack() == bytes@,
            r is Err ==> forall|v: Self| #[trigger] v.spec_pack() != bytes@,
    ;
}

/// The value that `bytes` encode, if they encode one.
pub open spec fn decoded<T: Packable>(bytes: Seq<u8>) -> Option<T> {
    if exists|v: T| #[trigger] v.spec_pack() == bytes {
        Some(choose|v: T| #[trigger] v.spec_pack() == bytes)
    } else {
        None
    }
}

/// Decoding an encoding gives the value back.
pub proof fn lemma_decoded_pack<T: Packable>(v: T)
    ensures
        decoded::<T>(v.spec_pack()) == Some(v),
{
    let w = choose|w: T| #[trigger] w.spec_pack() == v.spec_pack();
    T::lemma_pack_injective(w, v);
}

/// What `decoded` gives encodes to the bytes it was given.
pub proof fn lemma_decoded_some<T: Packable>(bytes: Seq<u8>, v: T)
    ensures
        decoded::<T>(bytes) == Some(v) <==> v.spec_pack() == bytes,
{
    if v.spec_pack() == bytes {
        lemma_decoded_pack::<T>(v);
    }
}

/// Decodes `bytes` as `Packable::unpack` does, with the result stated over
/// `decoded`.
pub fn unpack_exact<T: Packable>(bytes: &[u8]) -> (r: Result<T, DecodeError>)
    ensures
        match r {
            Ok(v) => decoded::<T>(bytes@) == Some(v),
            Err(_) => decoded::<T>(bytes@) is None,
        },
{
    let r = T::unpack(bytes);
    proof {
        if r is Ok {
            lemma_decoded_pack::<T>(r->Ok_0);
        }
    }
    r
}

impl Packable for () {
    /// The unit value encodes to no bytes.
    open spec fn spec_pack(&self) -> Seq<u8> {
        Seq::empty()
    }

    proof fn lemma_pack_injective(a: Self, b: Self) {
    }

    fn pack(&self) -> (bytes: Vec<u8>) {
        Vec::new()
    }

    fn unpack(bytes: &[u8]) -> (r: Result<Self, DecodeError>) {
        if bytes.len() == 0 {
            assert(bytes@ =~= Seq::empty());
            Ok(())
        } else {
            Err(DecodeError)
        }
    }
}

impl Packable for u8 {
    /// A byte encodes to itself.
    open spec fn spec_pack(&self) -> Seq<u8> {
        seq![*self]
    }

    proof fn lemma_pack_injective(a: Self, b: Self) {
        assert(seq![a][0] == a);
        assert(seq![b][0] == b);
    }

    fn pack(&self) -> (bytes: Vec<u8>) {
        let mut bytes: Vec<u8> = Vec::new();
        bytes.push(*self);
        assert(bytes@ =~= seq![*self]);
        bytes
    }

    fn unpack(bytes: &[u8]) -> (r: Result<Self, DecodeError>) {
        if bytes.len() == 1 {
            let b: u8 = bytes[0];
            assert(bytes@ =~= seq![b]);
            Ok(b)
        } else {
            Err(DecodeError)
        }
    }
}

} // verus!
