//! Byte-semantic value types and the error taxonomy of the crypto core.
//!
//! Each wrapper owns a byte sequence, is immutable after construction, and is
//! viewed in specifications as the `Seq<u8>` it carries.

use vstd::prelude::*;
use vstd::slice::slice_to_vec;

verus! {

/// Cleartext payload bytes.
#[derive(Debug, Clone, PartialEq, Eq)]
pub struct PlainData {
    data: Vec<u8>,
}

/// Ciphertext, signature, or other opaque payload bytes.
#[derive(Debug, Clone, PartialEq, Eq)]
pub struct CryptData {
    data: Vec<u8>,
}

/// An identity's shareable key bytes.
#[derive(Debug, Clone, PartialEq, Eq)]
pub struct PublicKey {
    data: Vec<u8>,
}

/// An identity's secret key bytes.
#[derive(Debug, Clone, PartialEq, Eq)]
pub struct PrivateKey {
    data: Vec<u8>,
}

/// The failure signal of the encode and decode operations.
#[derive(Debug, Clone, PartialEq, Eq)]
pub enum CryptdecError {
    /// An empty key was supplied.
    EmptyKey,
    /// An empty payload was supplied.
    EmptyData,
    /// The ciphertext was not produced for the supplied key; the string
    /// carries the mismatched byte prefixes for diagnosis.
    InvalidKey(String),
}

impl View for PlainData {
    type V = Seq<u8>;

    closed spec fn view(&self) -> Seq<u8> {
        self.data@
    }
}

impl View for CryptData {
    type V = Seq<u8>;

    closed spec fn view(&self) -> Seq<u8> {
        self.data@
    }
}

impl View for PublicKey {
    type V = Seq<u8>;

    closed spec fn view(&self) -> Seq<u8> {
        self.data@
    }
}

impl View for PrivateKey {
    type V = Seq<u8>;

    closed spec fn view(&self) -> Seq<u8> {
        self.data@
    }
}

impl PlainData {
    pub fn new(data: &[u8]) -> (r: Self)
        ensures
            r@ == data@,
    {
        PlainData { data: slice_to_vec(data) }
    }

    pub fn from_vec(data: Vec<u8>) -> (r: Self)
        ensures
            r@ == data@,
    {
        PlainData { data }
    }

    pub fn as_slice(&self) -> (r: &[u8])
        ensures
            r@ == self@,
    {
        self.data.as_slice()
    }

    pub fn len(&self) -> (r: usize)
        ensures
            r == self@.len(),
    {
        self.data.len()
    }

    pub fn is_empty(&self) -> (r: bool)
        ensures
            r == (self@.len() == 0),
    {
        self.data.is_empty()
    }
}

impl CryptData {
    pub fn new(data: &[u8]) -> (r: Self)
        ensures
            r@ == data@,
    {
        CryptData { data: slice_to_vec(data) }
    }

    pub fn from_vec(data: Vec<u8>) -> (r: Self)
        ensures
            r@ == data@,
    {
        CryptData { data }
    }

    pub fn as_slice(&self) -> (r: &[u8])
        ensures
            r@ == self@,
    {
        self.data.as_slice()
    }

    pub fn len(&self) -> (r: usize)
        ensures
            r == self@.len(),
    {
        self.data.len()
    }

    pub fn is_empty(&self) -> (r: bool)
        ensures
            r == (self@.len() == 0),
    {
        self.data.is_empty()
    }
}

impl PublicKey {
    pub fn new(data: &[u8]) -> (r: Self)
        ensures
            r@ == data@,
    {
        PublicKey { data: slice_to_vec(data) }
    }

    pub fn from_vec(data: Vec<u8>) -> (r: Self)
        ensures
            r@ == data@,
    {
        PublicKey { data }
    }

    pub fn as_slice(&self) -> (r: &[u8])
        ensures
            r@ == self@,
    {
        self.data.as_slice()
    }

    pub fn len(&self) -> (r: usize)
        ensures
            r == self@.len(),
    {
        self.data.len()
    }

    pub fn is_empty(&self) -> (r: bool)
        ensures
            r == (self@.len() == 0),
    {
        self.data.is_empty()
    }
}

impl PrivateKey {
    pub fn new(data: &[u8]) -> (r: Self)
        ensures
            r@ == data@,
    {
        PrivateKey { data: slice_to_vec(data) }
    }

    pub fn from_vec(data: Vec<u8>) -> (r: Self)
        ensures
            r@ == data@,
    {
        PrivateKey { data }
    }

    pub fn as_slice(&self) -> (r: &[u8])
        ensures
            r@ == self@,
    {
        self.data.as_slice()
    }

    pub fn len(&self) -> (r: usize)
        ensures
            r == self@.len(),
    {
        self.data.len()
    }

    pub fn is_empty(&self) -> (r: bool)
        ensures
            r == (self@.len() == 0),
    {
        self.data.is_empty()
    }
}

} // verus!
