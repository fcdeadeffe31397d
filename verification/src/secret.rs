//! Owned, zeroize-on-drop containers for sensitive byte material.
use vstd::prelude::*;
use vstd::string::*;
use vstd::utf8::*;
use std::str::Utf8Error;
use zeroize::{Zeroize, ZeroizeOnDrop};
use crate::text::str_from_utf8;

verus! {

/// An owned byte buffer that is zeroed out when dropped.
/// Returned wherever this crate hands a secret back to the caller.
pub struct SecretBytes(Vec<u8>);

impl View for SecretBytes {
    type V = Seq<u8>;

    /// The bytes held.
    closed spec fn view(&self) -> Seq<u8> {
        self.0@
    }
}

/// Calls `zeroize::Zeroize::zeroize` on the vector. The crate's source
/// overwrites every initialised byte and the spare capacity with zeros and
/// then clears the vector, so the vector is left empty; that the memory was
/// overwritten is not stated here, as no view can observe it.
#[verifier::external_body]
fn wipe_vec(bytes: &mut Vec<u8>)
    ensures
        final(bytes)@ == Seq::<u8>::empty(),
    opens_invariants none
    no_unwind
{
    bytes.zeroize();
}

impl Zeroize for SecretBytes {
    /// Overwrites the held bytes with zeros and releases them.
    fn zeroize(&mut self)
        ensures
            final(self)@ == Seq::<u8>::empty(),
        opens_invariants none
        no_unwind
    {
        wipe_vec(&mut self.0);
    }
}

impl ZeroizeOnDrop for SecretBytes {}

impl Drop for SecretBytes {
    fn drop(&mut self)
        ensures
            final(self)@ == Seq::<u8>::empty(),
        opens_invariants none
        no_unwind
    {
        self.zeroize();
    }
}

impl SecretBytes {
    /// Create a new [`SecretBytes`] from a [`Vec<u8>`].
    pub fn new(bytes: Vec<u8>) -> (res: Self)
        ensures
            res@ == bytes@,
    {
        SecretBytes(bytes)
    }

    /// Borrow the bytes as a slice.
    pub fn as_bytes(&self) -> (res: &[u8])
        ensures
            res@ == self@,
    {
        self.0.as_slice()
    }

    /// Borrow the bytes as a string slice.
    ///
    /// Fails with [`std::str::Utf8Error`] exactly when the bytes are not
    /// valid UTF-8; otherwise the string's UTF-8 encoding is the held bytes.
    pub fn as_str(&self) -> (res: Result<&str, Utf8Error>)
        ensures
            res is Ok <==> valid_utf8(self@),
            res matches Ok(s) ==> s.spec_bytes() == self@ && s@ == decode_utf8(self@),
    {
        let res = str_from_utf8(self.0.as_slice());
        proof {
            if let Ok(s) = res {
                vstd::utf8::encode_utf8_decode_utf8(s@);
            }
        }
        res
    }

    /// Return the number of bytes held.
    pub fn len(&self) -> (res: usize)
        ensures
            res == self@.len(),
    {
        self.0.len()
    }

    /// The text that stands for the secret in debug output. It never shows
    /// the bytes held: it is always `SecretBytes("[redacted]")`.
    pub fn debug_text(&self) -> (res: String)
        ensures
            res@ == "SecretBytes(\"[redacted]\")"@,
    {
        String::from_str("SecretBytes(\"[redacted]\")")
    }

    /// Return `true` if no bytes are held.
    pub fn is_empty(&self) -> (res: bool)
        ensures
            res == (self@.len() == 0),
    {
        self.0.len() == 0
    }
}

} // verus!
