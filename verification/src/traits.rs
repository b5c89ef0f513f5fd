//! Traits that define how encoding and decoding works.

use vstd::prelude::*;

use crate::error::{CO2Error, CO2Result};

verus! {

broadcast use vstd::function::group_function_axioms;

/// A trait defining how text is encoded via a cipher.
///
/// # Type Parameters
///
/// - `Pt`: The type used as the plaintext for this cipher. In most cases,
///   this will be a [`String`] or a `&str`.
/// - `Ct`: The type used as the ciphertext for this cipher. In most cases,
///   this will be a [`String`].
///
/// The core places no constraint on what "encoding" means algorithmically:
/// each implementation chooses its own `encode_req`/`encode_ens`
/// specification, and `encode` is held to it.
pub trait Encoder<Pt, Ct>: Sized {
    /// The precondition under which this encoder may be asked to encode.
    /// Unless an implementation says otherwise, there is none.
    open spec fn encode_req(self, plaintext: Pt) -> bool {
        true
    }

    /// The implementation's own contract for one `encode` call: it relates
    /// the encoder state before (`self`) and after (`post`) the call, the
    /// plaintext consumed, and the outcome produced. Stateful ciphers may
    /// advance internal state, which shows up as `post != self`.
    /// Unless an implementation says otherwise, nothing is promised.
    open spec fn encode_ens(self, post: Self, plaintext: Pt, result: CO2Result<Ct>) -> bool {
        true
    }

    /// Encode the provided plaintext, returning the ciphertext or an error.
    ///
    /// # Errors
    ///
    /// Arbitrary errors may be returned by this function, depending on the
    /// trait's implementor, via the [`CO2Error`](crate::error::CO2Error)
    /// type.
    fn encode(&mut self, plaintext: Pt) -> (result: CO2Result<Ct>)
        requires
            old(self).encode_req(plaintext),
        ensures
            old(self).encode_ens(*final(self), plaintext, result),
    ;
}

/// A trait defining how text is decoded via a cipher.
///
/// # Type Parameters
///
/// - `Pt`: The type used as the plaintext for this cipher. In most cases,
///   this will be a [`String`].
/// - `Ct`: The type used as the ciphertext for this cipher. In most cases,
///   this will be a [`String`] or a `&str`.
pub trait Decoder<Pt, Ct>: Sized {
    /// The precondition under which this decoder may be asked to decode.
    /// Unless an implementation says otherwise, there is none.
    open spec fn decode_req(self, ciphertext: Ct) -> bool {
        true
    }

    /// The implementation's own contract for one `decode` call, relating the
    /// decoder state before and after the call, the ciphertext consumed, and
    /// the outcome produced.
    /// Unless an implementation says otherwise, nothing is promised.
    open spec fn decode_ens(self, post: Self, ciphertext: Ct, result: CO2Result<Pt>) -> bool {
        true
    }

    /// Decode the provided ciphertext, returning the plaintext or an error.
    ///
    /// # Errors
    ///
    /// Arbitrary errors may be returned by this function, depending on the
    /// trait's implementor, via the [`CO2Error`](crate::error::CO2Error)
    /// type.
    fn decode(&mut self, ciphertext: Ct) -> (result: CO2Result<Pt>)
        requires
            old(self).decode_req(ciphertext),
        ensures
            old(self).decode_ens(*final(self), ciphertext, result),
    ;
}

/// An extension trait for quick encoding or decoding on types such as `&str`
/// and [`String`].
///
/// This is implemented for every type and is thus sealed, as the functions
/// within are genericized to work for any encoder/decoder that is compatible
/// with that type.
///
/// Both methods are pure forwarding wrappers: their contract is exactly the
/// contract of the trait operation they forward to, so the fluent form is
/// observably identical to the direct call.
pub trait EncDecExt: crate::sealed::Sealed {
    /// Encode a value of this type with the provided [`Encoder`], returning
    /// either the ciphertext or an error.
    ///
    /// # Errors
    ///
    /// Arbitrary errors may be returned by this function, depending on the
    /// encoder, via the [`CO2Error`](crate::error::CO2Error) type.
    fn encode_with<Ct, E: Encoder<Self, Ct>>(self, encoder: &mut E) -> (result: CO2Result<Ct>) where
        Self: Sized,

        requires
            old(encoder).encode_req(self),
        ensures
            old(encoder).encode_ens(*final(encoder), self, result),
    {
        encoder.encode(self)
    }

    /// Decode a value of this type with the provided [`Decoder`], returning
    /// either the plaintext or an error.
    ///
    /// # Errors
    ///
    /// Arbitrary errors may be returned by this function, depending on the
    /// decoder, via the [`CO2Error`](crate::error::CO2Error) type.
    fn decode_with<Pt, D: Decoder<Pt, Self>>(self, decoder: &mut D) -> (result: CO2Result<Pt>) where
        Self: Sized,

        requires
            old(decoder).decode_req(self),
        ensures
            old(decoder).decode_ens(*final(decoder), self, result),
    {
        decoder.decode(self)
    }
}

impl<T> EncDecExt for T {

}

impl<F, Pt, Ct> Encoder<Pt, Ct> for F where F: FnMut(Pt) -> CO2Result<Ct> {
    /// A bare function may be called whenever its own precondition holds.
    open spec fn encode_req(self, plaintext: Pt) -> bool {
        call_requires(self, (plaintext,))
    }

    /// A bare function promises exactly its own postcondition.
    open spec fn encode_ens(self, post: Self, plaintext: Pt, result: CO2Result<Ct>) -> bool {
        call_ensures(self, (plaintext,), result)
    }

    fn encode(&mut self, plaintext: Pt) -> (result: CO2Result<Ct>) {
        (self)(plaintext)
    }
}

impl<F, Pt, Ct> Decoder<Pt, Ct> for F where F: FnMut(Ct) -> CO2Result<Pt> {
    /// A bare function may be called whenever its own precondition holds.
    open spec fn decode_req(self, ciphertext: Ct) -> bool {
        call_requires(self, (ciphertext,))
    }

    /// A bare function promises exactly its own postcondition.
    open spec fn decode_ens(self, post: Self, ciphertext: Ct, result: CO2Result<Pt>) -> bool {
        call_ensures(self, (ciphertext,), result)
    }

    fn decode(&mut self, ciphertext: Ct) -> (result: CO2Result<Pt>) {
        (self)(ciphertext)
    }
}

/// A bare function is usable as an [`Encoder`] exactly where the function
/// itself is: its `encode_req` is its own precondition.
pub broadcast proof fn lemma_fn_encode_req<F: FnMut(Pt) -> CO2Result<Ct>, Pt, Ct>(f: F, plaintext: Pt)
    ensures
        #[trigger] f.encode_req(plaintext) == call_requires(f, (plaintext,)),
{
}

/// A bare function used as an [`Encoder`] promises exactly its own
/// postcondition, and nothing else.
pub broadcast proof fn lemma_fn_encode_ens<F: FnMut(Pt) -> CO2Result<Ct>, Pt, Ct>(
    f: F,
    post: F,
    plaintext: Pt,
    result: CO2Result<Ct>,
)
    ensures
        #[trigger] f.encode_ens(post, plaintext, result) == call_ensures(
            f,
            (plaintext,),
            result,
        ),
{
}

/// A bare function is usable as a [`Decoder`] exactly where the function
/// itself is: its `decode_req` is its own precondition.
pub broadcast proof fn lemma_fn_decode_req<F: FnMut(Ct) -> CO2Result<Pt>, Pt, Ct>(f: F, ciphertext: Ct)
    ensures
        #[trigger] f.decode_req(ciphertext) == call_requires(f, (ciphertext,)),
{
}

/// A bare function used as a [`Decoder`] promises exactly its own
/// postcondition, and nothing else.
pub broadcast proof fn lemma_fn_decode_ens<F: FnMut(Ct) -> CO2Result<Pt>, Pt, Ct>(
    f: F,
    post: F,
    ciphertext: Ct,
    result: CO2Result<Pt>,
)
    ensures
        #[trigger] f.decode_ens(post, ciphertext, result) == call_ensures(
            f,
            (ciphertext,),
            result,
        ),
{
}

/// The specifications that let a bare function or closure stand as an
/// encoder or decoder wherever one is expected.
pub broadcast group group_fn_cipher_specs {
    lemma_fn_encode_req,
    lemma_fn_encode_ens,
    lemma_fn_decode_req,
    lemma_fn_decode_ens,
}

/// What it means for an encoder type and a decoder type to be correctly
/// paired: whenever the encoder's contract allows a plaintext to encode
/// successfully into some ciphertext, the decoder's contract allows that
/// ciphertext to decode successfully only back into the same plaintext.
pub open spec fn inverse_pair<Pt, Ct, E: Encoder<Pt, Ct>, D: Decoder<Pt, Ct>>() -> bool {
    forall|e: E, e_post: E, d: D, d_post: D, p: Pt, c: Ct, q: Pt|
        #![trigger e.encode_ens(e_post, p, Result::Ok(c)), d.decode_ens(d_post, c, Result::Ok(q))]
        e.encode_ens(e_post, p, Result::Ok(c)) && d.decode_ens(d_post, c, Result::Ok(q)) ==> q
            == p
}

/// Round-trip law: for a correctly paired encoder/decoder, encoding a
/// plaintext and then decoding the resulting ciphertext gives back exactly
/// the original plaintext, whenever both operations succeed.
pub proof fn lemma_round_trip<Pt, Ct, E: Encoder<Pt, Ct>, D: Decoder<Pt, Ct>>(
    e: E,
    e_post: E,
    d: D,
    d_post: D,
    p: Pt,
    c: Ct,
    q: Pt,
)
    requires
        inverse_pair::<Pt, Ct, E, D>(),
        e.encode_ens(e_post, p, Result::Ok(c)),
        d.decode_ens(d_post, c, Result::Ok(q)),
    ensures
        q == p,
{
}

/// Error propagation law: an encoder whose contract pins every outcome for a
/// plaintext to the same message failure hands exactly that failure through
/// any call that satisfies its contract — in particular through the fluent
/// `encode_with`, whose postcondition is that contract — untouched: no
/// wrapping, no loss of the message text.
pub proof fn lemma_encode_error_propagation<Pt, Ct, E: Encoder<Pt, Ct>>(
    e: E,
    e_post: E,
    p: Pt,
    result: CO2Result<Ct>,
    msg: String,
)
    requires
        forall|e2: E, r: CO2Result<Ct>| #[trigger]
            e.encode_ens(e2, p, r) ==> r == Result::<Ct, CO2Error>::Err(CO2Error::Msg(msg)),
        e.encode_ens(e_post, p, result),
    ensures
        result == Result::<Ct, CO2Error>::Err(CO2Error::Msg(msg)),
{
}

/// The mirror of [`lemma_encode_error_propagation`] for decoders: a decoder
/// whose contract pins every outcome for a ciphertext to the same message
/// failure hands exactly that failure through, untouched.
pub proof fn lemma_decode_error_propagation<Pt, Ct, D: Decoder<Pt, Ct>>(
    d: D,
    d_post: D,
    c: Ct,
    result: CO2Result<Pt>,
    msg: String,
)
    requires
        forall|d2: D, r: CO2Result<Pt>| #[trigger]
            d.decode_ens(d2, c, r) ==> r == Result::<Pt, CO2Error>::Err(CO2Error::Msg(msg)),
        d.decode_ens(d_post, c, result),
    ensures
        result == Result::<Pt, CO2Error>::Err(CO2Error::Msg(msg)),
{
}

} // verus!
