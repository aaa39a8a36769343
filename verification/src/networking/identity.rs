//! The keys by which nodes are known.

use crate::hexadecimal::hex_encode;
use crate::hexadecimal::hex_encoded;
use std::str::FromStr;
use vstd::prelude::*;

verus! {

/// The public identity of a node: the 32 bytes of its public key.
///
/// A peer is addressed, and a conversation is kept, under this identity.
#[derive(Clone, Copy, Debug, Eq, Hash)]
pub struct NodeId {
    bytes: [u8; 32],
}

impl View for NodeId {
    type V = Seq<u8>;

    closed spec fn view(&self) -> Seq<u8> {
        self.bytes@
    }
}

impl PartialEq for NodeId {
    fn eq(&self, other: &Self) -> (same: bool) {
        let mut i: usize = 0;
        while i < 32
            invariant
                i <= 32,
                forall|j: int| 0 <= j < i ==> self.bytes[j] == other.bytes[j],
            decreases 32 - i,
        {
            if self.bytes[i] != other.bytes[i] {
                return false;
            }
            i = i + 1;
        }
        assert(self.bytes =~= other.bytes);
        true
    }
}

impl vstd::std_specs::cmp::PartialEqSpecImpl for NodeId {
    open spec fn obeys_eq_spec() -> bool {
        true
    }

    open spec fn eq_spec(&self, other: &Self) -> bool {
        *self == *other
    }
}

/// What `iroh_base::NodeId::from_str` makes of a text: the identity whose
/// key the text encodes, or `None` where it encodes no key.
pub uninterp spec fn parsed_node_id(text: Seq<char>) -> Option<NodeId>;

impl NodeId {
    /// The identity with the given key bytes.
    pub fn from_bytes(bytes: &[u8; 32]) -> (id: NodeId)
        ensures
            id@ == bytes@,
    {
        NodeId { bytes: *bytes }
    }

    /// The key bytes of the identity.
    pub fn as_bytes(&self) -> (bytes: &[u8; 32])
        ensures
            bytes@ == self@,
    {
        &self.bytes
    }

    /// Reads an identity from its text, as a peer announces it.
    ///
    /// Calls `iroh_base::NodeId::from_str`, which reads 64 lower-case
    /// hexadecimal digits, or a base32 text without padding in either case,
    /// as 32 bytes and accepts them if they are a point of the curve.
    /// Trusted: the result depends on the text alone.
    #[verifier::external_body]
    pub(crate) fn from_text(text: &str) -> (id: Option<NodeId>)
        ensures
            id == parsed_node_id(text@),
    {
        match iroh_base::NodeId::from_str(text) {
            Ok(key) => Some(NodeId { bytes: *key.as_bytes() }),
            Err(_) => None,
        }
    }

    /// The text of the identity: its bytes in lower-case hexadecimal. For
    /// the bytes of a public key this is the text that `iroh_base::NodeId`
    /// prints, and that it reads back.
    pub fn to_string(&self) -> (text: String)
        ensures
            text@ == hex_encoded(self@),
    {
        hex_encode(self.bytes.as_slice())
    }

    /// An identity is 32 bytes long.
    pub proof fn lemma_len(self)
        ensures
            self@.len() == 32,
    {
    }

    /// Two identities with the same bytes are the same identity.
    pub proof fn law_bytes_tell_identities_apart(a: NodeId, b: NodeId)
        requires
            a@ == b@,
        ensures
            a == b,
    {
        assert(a.bytes =~= b.bytes);
    }
}

/// What `iroh_base::SecretKey::public` makes of the secret key with the
/// bytes `secret`: the identity whose key is the public half of the pair.
pub uninterp spec fn public_key_of(secret: Seq<u8>) -> NodeId;

/// The secret half of a node's key pair.
#[derive(Clone, Copy)]
pub struct SecretKey {
    bytes: [u8; 32],
}

impl View for SecretKey {
    type V = Seq<u8>;

    closed spec fn view(&self) -> Seq<u8> {
        self.bytes@
    }
}

impl SecretKey {
    /// The key with the given bytes.
    pub fn from_bytes(bytes: &[u8; 32]) -> (key: SecretKey)
        ensures
            key@ == bytes@,
    {
        SecretKey { bytes: *bytes }
    }

    /// The bytes of the key.
    pub fn to_bytes(&self) -> (bytes: [u8; 32])
        ensures
            bytes@ == self@,
    {
        self.bytes
    }

    /// The identity that belongs to the key: the public half of the pair.
    ///
    /// Calls `iroh_base::SecretKey::from_bytes` and then
    /// `iroh_base::SecretKey::public`, which derives the public key from
    /// the secret one. Trusted: the result depends on the bytes of the
    /// secret key alone.
    #[verifier::external_body]
    pub(crate) fn public(&self) -> (id: NodeId)
        ensures
            id == public_key_of(self@),
    {
        NodeId { bytes: *iroh_base::SecretKey::from_bytes(&self.bytes).public().as_bytes() }
    }

    /// A new random key.
    ///
    /// Calls `iroh_base::SecretKey::generate` with the operating system's
    /// random source and takes the bytes of the key. Nothing is promised of
    /// them: two calls give two keys.
    #[verifier::external_body]
    pub(crate) fn generate() -> (key: SecretKey) {
        SecretKey { bytes: iroh_base::SecretKey::generate(&mut rand::rngs::OsRng).to_bytes() }
    }
}

} // verus!
