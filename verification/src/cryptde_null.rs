//! The deterministic reference provider of the crypto capability.
//!
//! Keys are related by a self-inverse byte-wise transform (adding 128 modulo
//! 256), encoding prepends the derived counterpart of the target key, and
//! decoding strips and checks that prefix. The scheme is intentionally
//! non-secure: it exists to give reproducible fixtures with the shape of a
//! public/private relationship.

use crate::byte_text::byte_listing;
use crate::byte_text::push_byte_listing;
use crate::descriptor::b64_decode_nopad;
use crate::descriptor::b64_encode_nopad;
use crate::descriptor::base64_nopad_of;
use crate::descriptor::spec_invalid_fragment_message;
use crate::digests::contract_address;
use crate::digests::create_digest;
use crate::digests::sha1_digest;
use crate::digests::sha1_of;
use crate::digests::spec_identity_digest;
use crate::types::CryptData;
use crate::types::CryptdecError;
use crate::types::PlainData;
use crate::types::PrivateKey;
use crate::types::PublicKey;
use rand::Rng;
use vstd::prelude::*;
use vstd::slice::slice_index_get;
use vstd::slice::slice_subrange;
use vstd::string::StringExecFns;

verus! {

/// The self-inverse key transform on one byte: adds 128 modulo 256.
pub open spec fn transform_byte(b: u8) -> u8 {
    ((b as int + 128) % 256) as u8
}

/// The self-inverse key transform on a byte sequence, applied byte-wise.
/// Either key of a pair is the transform of the other.
pub open spec fn transform(s: Seq<u8>) -> Seq<u8> {
    s.map_values(|b: u8| transform_byte(b))
}

/// What encoding produces: the transform of the target key, followed by the
/// payload.
pub open spec fn spec_encoded(key: Seq<u8>, data: Seq<u8>) -> Seq<u8> {
    transform(key) + data
}

/// What decoding recovers: the payload after the key prefix, provided the
/// key and payload are non-empty and the ciphertext begins with exactly the
/// key bytes; nothing otherwise.
pub open spec fn spec_decoded(key: Seq<u8>, data: Seq<u8>) -> Option<Seq<u8>> {
    if key.len() > 0 && data.len() > 0 && key.len() <= data.len() && data.take(key.len() as int)
        == key {
        Some(data.skip(key.len() as int))
    } else {
        None
    }
}

/// The diagnostic for a ciphertext that was not produced for the supplied
/// key: both byte prefixes, truncated to the shorter length.
pub open spec fn spec_invalid_key_message(key: Seq<u8>, data: Seq<u8>) -> Seq<char> {
    let prefix_len = if key.len() <= data.len() {
        key.len() as int
    } else {
        data.len() as int
    };
    "Could not decrypt with "@ + byte_listing(key) + " data beginning with "@ + byte_listing(
        data.take(prefix_len),
    )
}

/// Holds when the result is an `InvalidKey` error carrying exactly the given
/// message.
pub open spec fn spec_is_invalid_key<T>(r: Result<T, CryptdecError>, msg: Seq<char>) -> bool {
    match r {
        Err(CryptdecError::InvalidKey(m)) => m@ == msg,
        _ => false,
    }
}

/// What signature verification decides: the signature, stripped of the
/// expected public-key prefix, must be exactly the hash of the data.
pub open spec fn spec_verify(data: Seq<u8>, signature: Seq<u8>, public_key: Seq<u8>) -> bool {
    match spec_decoded(public_key, signature) {
        Some(claimed_hash) => claimed_hash == sha1_of(data),
        None => false,
    }
}

/// Relies on `rand::thread_rng` and `Rng::fill`: fills a 32-byte buffer;
/// nothing is assumed about the values drawn.
#[verifier::external_body]
fn random_key_bytes() -> (r: Vec<u8>)
    ensures
        r@.len() == 32,
{
    let mut bytes = [0u8; 32];
    rand::thread_rng().fill(&mut bytes[..]);
    bytes.to_vec()
}

/// Byte-wise equality of two slices.
fn bytes_eq(a: &[u8], b: &[u8]) -> (r: bool)
    ensures
        r <==> a@ == b@,
{
    let n = a.len();
    if n != b.len() {
        return false;
    }
    let mut i: usize = 0;
    while i < n
        invariant
            n == a@.len(),
            n == b@.len(),
            i <= n,
            forall|j: int| 0 <= j < i ==> a@[j] == b@[j],
        decreases n - i,
    {
        if *slice_index_get(a, i) != *slice_index_get(b, i) {
            proof {
                assert(a@[i as int] != b@[i as int]);
            }
            return false;
        }
        i = i + 1;
    }
    proof {
        assert(a@ =~= b@);
    }
    true
}

/// One node's deterministic identity: a key pair related by the byte-wise
/// transform, and the digest binding the public key to the configured chain.
#[derive(Debug, Clone)]
pub struct CryptDENull {
    private_key: PrivateKey,
    public_key: PublicKey,
    digest: [u8; 32],
}

impl CryptDENull {
    /// The bytes of this identity's private key.
    pub closed spec fn priv_view(&self) -> Seq<u8> {
        self.private_key@
    }

    /// The bytes of this identity's public key.
    pub closed spec fn pub_view(&self) -> Seq<u8> {
        self.public_key@
    }

    /// The bytes of this identity's chain-bound digest.
    pub closed spec fn digest_view(&self) -> Seq<u8> {
        self.digest@
    }

    /// The key pair is well-formed: the public key is the transform of the
    /// private key (and so also vice versa).
    pub open spec fn wf(&self) -> bool {
        self.pub_view() == transform(self.priv_view())
    }

    /// Creates an identity with a fresh random 32-byte private key, the
    /// derived public key, and the digest binding that key to the chain.
    pub fn new(chain_id: u8) -> (r: Self)
        ensures
            r.wf(),
            r.priv_view().len() == 32,
            r.digest_view() == spec_identity_digest(r.pub_view(), chain_id),
    {
        let private_key = PrivateKey::from_vec(random_key_bytes());
        let public_key = Self::public_from_private(&private_key);
        let address = contract_address(chain_id);
        let digest = create_digest(&public_key, address.as_slice());
        CryptDENull { private_key, public_key, digest }
    }

    /// Creates an identity holding a known public key, the derived private
    /// key, and the digest binding that key to the chain.
    pub fn from(public_key: &PublicKey, chain_id: u8) -> (r: CryptDENull)
        ensures
            r.wf(),
            r.pub_view() == public_key@,
            r.priv_view() == transform(public_key@),
            r.digest_view() == spec_identity_digest(public_key@, chain_id),
    {
        let mut result = CryptDENull::new(chain_id);
        result.set_key_pair(public_key, chain_id);
        result
    }

    /// Replaces the key pair and, in the same step, the digest, so that the
    /// digest is never stale relative to the current public key.
    pub fn set_key_pair(&mut self, public_key: &PublicKey, chain_id: u8)
        ensures
            final(self).wf(),
            final(self).pub_view() == public_key@,
            final(self).priv_view() == transform(public_key@),
            final(self).digest_view() == spec_identity_digest(public_key@, chain_id),
    {
        self.public_key = PublicKey::new(public_key.as_slice());
        self.private_key = CryptDENull::private_from_public(public_key);
        let address = contract_address(chain_id);
        self.digest = create_digest(public_key, address.as_slice());
        proof {
            lemma_transform_involution(public_key@);
        }
    }

    /// Derives the private key matching a public key.
    pub fn private_from_public(in_key: &PublicKey) -> (r: PrivateKey)
        ensures
            r@ == transform(in_key@),
    {
        PrivateKey::from_vec(Self::other_key_data(in_key.as_slice()))
    }

    /// Derives the public key matching a private key.
    pub fn public_from_private(in_key: &PrivateKey) -> (r: PublicKey)
        ensures
            r@ == transform(in_key@),
    {
        PublicKey::from_vec(Self::other_key_data(in_key.as_slice()))
    }

    /// Applies the byte-wise transform that maps either key of a pair to the
    /// other.
    pub fn other_key_data(in_key_data: &[u8]) -> (r: Vec<u8>)
        ensures
            r@ == transform(in_key_data@),
    {
        let mut out: Vec<u8> = Vec::new();
        let n = in_key_data.len();
        let mut i: usize = 0;
        while i < n
            invariant
                n == in_key_data@.len(),
                i <= n,
                out@.len() == i,
                forall|j: int| 0 <= j < i ==> out@[j] == transform_byte(in_key_data@[j]),
            decreases n - i,
        {
            let b = *slice_index_get(in_key_data, i);
            out.push(b.wrapping_add(128));
            i = i + 1;
        }
        proof {
            assert(out@ =~= transform(in_key_data@));
        }
        out
    }

    /// Encodes data so that only the holder of the private key matching
    /// `public_key` can decode it. Fails with `EmptyKey` on an empty key and
    /// `EmptyData` on an empty payload.
    pub fn encode(&self, public_key: &PublicKey, data: &PlainData) -> (r: Result<
        CryptData,
        CryptdecError,
    >)
        ensures
            r is Ok <==> public_key@.len() > 0 && data@.len() > 0,
            r is Ok ==> r->Ok_0@ == spec_encoded(public_key@, data@),
            public_key@.len() == 0 ==> r == Err::<CryptData, CryptdecError>(
                CryptdecError::EmptyKey,
            ),
            public_key@.len() > 0 && data@.len() == 0 ==> r == Err::<CryptData, CryptdecError>(
                CryptdecError::EmptyData,
            ),
    {
        Self::encode_with_key_data(public_key.as_slice(), data)
    }

    /// Decodes data with this identity's own private key. Fails with
    /// `EmptyKey` on an empty private key, `EmptyData` on an empty
    /// ciphertext, and `InvalidKey` when the ciphertext was not produced for
    /// the private key.
    pub fn decode(&self, data: &CryptData) -> (r: Result<PlainData, CryptdecError>)
        ensures
            r is Ok <==> spec_decoded(self.priv_view(), data@) is Some,
            r is Ok ==> r->Ok_0@ == spec_decoded(self.priv_view(), data@)->0,
            self.priv_view().len() == 0 ==> r == Err::<PlainData, CryptdecError>(
                CryptdecError::EmptyKey,
            ),
            self.priv_view().len() > 0 && data@.len() == 0 ==> r == Err::<PlainData, CryptdecError>(
                CryptdecError::EmptyData,
            ),
            self.priv_view().len() > 0 && data@.len() > 0 && spec_decoded(self.priv_view(), data@)
                is None ==> spec_is_invalid_key(r, spec_invalid_key_message(self.priv_view(), data@)),
    {
        Self::decode_with_key_data(self.private_key.as_slice(), data)
    }

    /// Fills the buffer with this provider's "randomness": the fixed byte
    /// `'4'`, by design, so that test vectors stay reproducible.
    pub fn random(&self, dest: &mut Vec<u8>)
        ensures
            final(dest)@.len() == old(dest)@.len(),
            forall|i: int| 0 <= i < final(dest)@.len() ==> final(dest)@[i] == 52u8,
    {
        let n = dest.len();
        dest.clear();
        let mut i: usize = 0;
        while i < n
            invariant
                i <= n,
                dest@.len() == i,
                forall|j: int| 0 <= j < i ==> dest@[j] == 52u8,
            decreases n - i,
        {
            dest.push(52u8);
            i = i + 1;
        }
    }

    /// This identity's private key.
    pub fn private_key(&self) -> (r: &PrivateKey)
        ensures
            r@ == self.priv_view(),
    {
        &self.private_key
    }

    /// This identity's public key.
    pub fn public_key(&self) -> (r: &PublicKey)
        ensures
            r@ == self.pub_view(),
    {
        &self.public_key
    }

    /// Returns a new, independently owned identity carrying the same key
    /// material and digest.
    pub fn dup(&self) -> (r: Box<CryptDENull>)
        ensures
            r.wf() == self.wf(),
            r.priv_view() == self.priv_view(),
            r.pub_view() == self.pub_view(),
            r.digest_view() == self.digest_view(),
    {
        Box::new(
            CryptDENull {
                private_key: PrivateKey::new(self.private_key.as_slice()),
                public_key: PublicKey::new(self.public_key.as_slice()),
                digest: self.digest,
            },
        )
    }

    /// Signs data with this identity's private key: the hash of the data,
    /// encoded with the private key as target, so that the matching public
    /// key is prepended. Fails with `EmptyKey` when the private key is empty.
    pub fn sign(&self, data: &PlainData) -> (r: Result<CryptData, CryptdecError>)
        ensures
            r is Ok <==> self.priv_view().len() > 0,
            r is Ok ==> r->Ok_0@ == spec_encoded(self.priv_view(), sha1_of(data@)),
            self.priv_view().len() == 0 ==> r == Err::<CryptData, CryptdecError>(
                CryptdecError::EmptyKey,
            ),
    {
        let hash = self.hash(data);
        Self::encode_with_key_data(self.private_key.as_slice(), &PlainData::new(hash.as_slice()))
    }

    /// Decides whether the signature, stripped of the expected public-key
    /// prefix, recovers exactly the hash of the data. Every failure mode is
    /// collapsed into `false`; verification never errors.
    pub fn verify_signature(
        &self,
        data: &PlainData,
        signature: &CryptData,
        public_key: &PublicKey,
    ) -> (r: bool)
        ensures
            r == spec_verify(data@, signature@, public_key@),
    {
        let claimed_hash = match Self::decode_with_key_data(public_key.as_slice(), signature) {
            Err(_) => {
                return false;
            },
            Ok(hash) => CryptData::new(hash.as_slice()),
        };
        let actual_hash = self.hash(data);
        bytes_eq(actual_hash.as_slice(), claimed_hash.as_slice())
    }

    /// The 20-byte content hash of the data; deterministic, and of fixed
    /// length whatever the input length.
    pub fn hash(&self, data: &PlainData) -> (r: CryptData)
        ensures
            r@ == sha1_of(data@),
            r@.len() == 20,
    {
        CryptData::from_vec(sha1_digest(data.as_slice()))
    }

    /// Encodes a public key as an unpadded base64 descriptor fragment.
    pub fn public_key_to_descriptor_fragment(&self, public_key: &PublicKey) -> (r: String)
        ensures
            r@ == base64_nopad_of(public_key@),
            (r@.len() == 0 <==> public_key@.len() == 0),
    {
        b64_encode_nopad(public_key.as_slice())
    }

    /// Decodes a descriptor fragment back into a public key. An empty
    /// fragment is rejected outright; any fragment that is a valid unpadded
    /// base64 encoding decodes to that encoding's preimage; anything else is
    /// rejected with a message naming the offending input.
    pub fn descriptor_fragment_to_first_contact_public_key(
        &self,
        descriptor_fragment: &str,
    ) -> (r: Result<PublicKey, String>)
        ensures
            descriptor_fragment@.len() == 0 ==> r is Err && r->Err_0@
                == "Public key cannot be empty"@,
            descriptor_fragment@.len() > 0 ==> forall|b: Seq<u8>|
                descriptor_fragment@ == base64_nopad_of(b) ==> r is Ok && r->Ok_0@ == b,
            r is Err && descriptor_fragment@.len() > 0 ==> r->Err_0@
                == spec_invalid_fragment_message(descriptor_fragment@),
    {
        if descriptor_fragment.is_empty() {
            return Err(String::from_str("Public key cannot be empty"));
        }
        match b64_decode_nopad(descriptor_fragment) {
            Ok(half_key) => Ok(PublicKey::from_vec(half_key)),
            Err(_) => {
                let mut message = String::from_str("Invalid Base64 value for public key: ");
                message.append(descriptor_fragment);
                Err(message)
            },
        }
    }

    /// The chain-bound digest computed at construction or at the last
    /// key-pair change.
    pub fn digest(&self) -> (r: [u8; 32])
        ensures
            r@ == self.digest_view(),
    {
        self.digest
    }

    /// Encodes data for the holder of the counterpart of `key_data`: the
    /// transform of `key_data` is prepended to the payload.
    fn encode_with_key_data(key_data: &[u8], data: &PlainData) -> (r: Result<
        CryptData,
        CryptdecError,
    >)
        ensures
            r is Ok <==> key_data@.len() > 0 && data@.len() > 0,
            r is Ok ==> r->Ok_0@ == spec_encoded(key_data@, data@),
            key_data@.len() == 0 ==> r == Err::<CryptData, CryptdecError>(CryptdecError::EmptyKey),
            key_data@.len() > 0 && data@.len() == 0 ==> r == Err::<CryptData, CryptdecError>(
                CryptdecError::EmptyData,
            ),
    {
        if key_data.is_empty() {
            Err(CryptdecError::EmptyKey)
        } else if data.is_empty() {
            Err(CryptdecError::EmptyData)
        } else {
            let mut bytes = Self::other_key_data(key_data);
            bytes.extend_from_slice(data.as_slice());
            proof {
                assert(bytes@ =~= spec_encoded(key_data@, data@));
            }
            Ok(CryptData::from_vec(bytes))
        }
    }

    /// Strips and checks the `key_data` prefix of the ciphertext, returning
    /// the remainder as plaintext.
    fn decode_with_key_data(key_data: &[u8], data: &CryptData) -> (r: Result<
        PlainData,
        CryptdecError,
    >)
        ensures
            r is Ok <==> spec_decoded(key_data@, data@) is Some,
            r is Ok ==> r->Ok_0@ == spec_decoded(key_data@, data@)->0,
            key_data@.len() == 0 ==> r == Err::<PlainData, CryptdecError>(CryptdecError::EmptyKey),
            key_data@.len() > 0 && data@.len() == 0 ==> r == Err::<PlainData, CryptdecError>(
                CryptdecError::EmptyData,
            ),
            key_data@.len() > 0 && data@.len() > 0 && spec_decoded(key_data@, data@) is None
                ==> spec_is_invalid_key(r, spec_invalid_key_message(key_data@, data@)),
    {
        if key_data.is_empty() {
            return Err(CryptdecError::EmptyKey);
        }
        let data_slice = data.as_slice();
        if data_slice.is_empty() {
            return Err(CryptdecError::EmptyData);
        }
        let klen = key_data.len();
        if klen > data_slice.len() {
            return Err(CryptdecError::InvalidKey(Self::invalid_key_message(key_data, data)));
        }
        let mut i: usize = 0;
        while i < klen
            invariant
                klen == key_data@.len(),
                klen <= data_slice@.len(),
                data_slice@ == data@,
                i <= klen,
                forall|j: int| 0 <= j < i ==> data@[j] == key_data@[j],
            decreases klen - i,
        {
            if *slice_index_get(data_slice, i) != *slice_index_get(key_data, i) {
                proof {
                    assert(data@.take(klen as int)[i as int] != key_data@[i as int]);
                }
                return Err(CryptdecError::InvalidKey(Self::invalid_key_message(key_data, data)));
            }
            i = i + 1;
        }
        proof {
            assert(data@.take(klen as int) =~= key_data@);
        }
        let remainder = slice_subrange(data_slice, klen, data_slice.len());
        Ok(PlainData::new(remainder))
    }

    /// Builds the `InvalidKey` diagnostic: the key bytes and the ciphertext
    /// bytes, the latter truncated to the shorter of the two lengths.
    fn invalid_key_message(key_data: &[u8], data: &CryptData) -> (r: String)
        ensures
            r@ == spec_invalid_key_message(key_data@, data@),
    {
        let data_slice = data.as_slice();
        let prefix_len = if key_data.len() <= data_slice.len() {
            key_data.len()
        } else {
            data_slice.len()
        };
        let mut message = String::from_str("Could not decrypt with ");
        push_byte_listing(&mut message, key_data);
        message.append(" data beginning with ");
        push_byte_listing(&mut message, slice_subrange(data_slice, 0, prefix_len));
        proof {
            assert(data@.subrange(0, prefix_len as int) =~= data@.take(prefix_len as int));
            assert(message@ =~= spec_invalid_key_message(key_data@, data@));
        }
        message
    }
}

/// Law: the key transform is an involution on one byte.
pub proof fn lemma_transform_byte_involution(b: u8)
    ensures
        transform_byte(transform_byte(b)) == b,
{
}

/// Law: the key transform is an involution, so deriving the private key from
/// the public key and then the public key from that private key (or vice
/// versa) returns the original bytes.
pub proof fn lemma_transform_involution(s: Seq<u8>)
    ensures
        transform(transform(s)) == s,
{
    assert forall|i: int| 0 <= i < s.len() implies transform(transform(s))[i] == s[i] by {
        lemma_transform_byte_involution(s[i]);
    }
    assert(transform(transform(s)) =~= s);
}

/// Law: encoding for a public key and decoding with the matching private key
/// returns the original data, for every non-empty key and payload.
pub proof fn lemma_encode_decode_round_trip(key: Seq<u8>, data: Seq<u8>)
    requires
        key.len() > 0,
        data.len() > 0,
    ensures
        spec_decoded(transform(key), spec_encoded(key, data)) == Some(data),
{
    let ciphertext = spec_encoded(key, data);
    assert(ciphertext.take(key.len() as int) =~= transform(key));
    assert(ciphertext.skip(key.len() as int) =~= data);
}

/// Law: a signature made with a private key verifies against the matching
/// public key, for every payload.
pub proof fn lemma_signature_correctness(private_key: Seq<u8>, data: Seq<u8>)
    requires
        private_key.len() > 0,
    ensures
        spec_verify(data, spec_encoded(private_key, sha1_of(data)), transform(private_key)),
{
    let signature = spec_encoded(private_key, sha1_of(data));
    assert(signature.take(private_key.len() as int) =~= transform(private_key));
    assert(signature.skip(private_key.len() as int) =~= sha1_of(data));
}

/// Law: a signature over one payload does not verify for a payload with a
/// different hash.
pub proof fn lemma_signature_sensitivity(private_key: Seq<u8>, signed_data: Seq<u8>, other_data: Seq<u8>)
    requires
        sha1_of(other_data) != sha1_of(signed_data),
    ensures
        !spec_verify(other_data, spec_encoded(private_key, sha1_of(signed_data)), transform(private_key)),
{
    let signature = spec_encoded(private_key, sha1_of(signed_data));
    if private_key.len() > 0 && spec_decoded(transform(private_key), signature) is Some {
        assert(signature.skip(private_key.len() as int) =~= sha1_of(signed_data));
    }
}

impl CryptDENull {
    /// Law: a non-empty public key's descriptor fragment decodes back to the
    /// same key.
    pub fn descriptor_fragment_round_trip(&self, public_key: &PublicKey) -> (r: Result<
        PublicKey,
        String,
    >)
        requires
            public_key@.len() > 0,
        ensures
            r is Ok,
            r is Ok ==> r->Ok_0@ == public_key@,
    {
        let fragment = self.public_key_to_descriptor_fragment(public_key);
        self.descriptor_fragment_to_first_contact_public_key(fragment.as_str())
    }
}

} // verus!
