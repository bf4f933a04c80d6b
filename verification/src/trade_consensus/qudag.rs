//! The anti-corruption adapter over the post-quantum primitives of the DAG fabric.
//!
//! Signing uses ML-DSA-65 (FIPS 204) over the canonical bytes of the agreement, and the broadcast
//! path performs an ML-KEM-1024 (FIPS 203) transport encapsulation before an entry leaves the node.
//! Consensus finality and the `.dark` DHT are fabric-side: the reference here accepts in-process
//! and resolves `.dark` domains directly.

use vstd::prelude::*;

use fips204::traits::{SerDes, Signer, Verifier};
use ml_kem::{Encapsulate, Kem, KeyExport};

use crate::canonical::{agreement_bytes, agreement_message};
use crate::consensus::{copy_bytes, DagEntry, Finality, MlDsaSignature, NodeAddr};
use crate::error::DomainError;
use crate::ids::{dark_suffix, is_dark_domain, Timestamp};
use crate::text::{concat2, concat3, has_suffix};

verus! {

/// Length of an ML-DSA-65 signature in bytes.
pub const ML_DSA_65_SIG_LEN: usize = 3309;

/// Length of an encoded ML-DSA-65 public key in bytes.
pub const ML_DSA_65_PK_LEN: usize = 1952;

/// Length of an encoded ML-KEM-1024 encapsulation key in bytes.
pub const ML_KEM_1024_EK_LEN: usize = 1568;

/// Length of an encoded ML-DSA-65 private key in bytes.
pub const ML_DSA_65_SK_LEN: usize = 4032;

/// The encoded private key `signing_key` came out of ML-DSA-65 key generation
/// (`fips204::ml_dsa_65::try_keygen`, encoded with `into_bytes`): its parts (the hash `tr` of the
/// public key, the vectors `s1`, `s2`, `t0`) agree with one another, which decoding alone does
/// not check. Only the key generation wrapper establishes it.
pub uninterp spec fn ml_dsa_generated(signing_key: Seq<u8>) -> bool;

/// The encoded ML-DSA-65 public key that belongs to the encoded private key `signing_key`: what
/// `fips204::traits::Signer::get_public_key` derives from the decoded key, encoded again.
pub uninterp spec fn ml_dsa_public_key_of(signing_key: Seq<u8>) -> Seq<u8>;

/// Whether the ML-DSA-65 signature `signature` over `message` (empty context) verifies under the
/// encoded public key `public_key`: the public key is decoded with
/// `fips204::traits::SerDes::try_from_bytes` and the signature checked with
/// `fips204::traits::Verifier::verify`; a key that does not decode verifies nothing.
pub uninterp spec fn ml_dsa_accepts(public_key: Seq<u8>, message: Seq<u8>, signature: Seq<u8>) -> bool;

/// Generates a fresh ML-DSA-65 key pair with `fips204::ml_dsa_65::try_keygen` (operating-system
/// randomness) and returns the private key, encoded with `fips204::traits::SerDes::into_bytes`.
/// The outcome is random; claimed of every outcome: an encoded private key is an array of
/// `ML_DSA_65_SK_LEN` bytes, and it is a generated key. It fails only when the random number
/// generator fails.
#[verifier::external_body]
fn ml_dsa_keygen() -> (r: Result<Vec<u8>, &'static str>)
    ensures
        r matches Ok(sk) ==> sk@.len() == ML_DSA_65_SK_LEN && ml_dsa_generated(sk@),
{
    let (_public_key, signing_key) = fips204::ml_dsa_65::try_keygen()?;
    Ok(signing_key.into_bytes().to_vec())
}

/// Derives the public key of an encoded private key with
/// `fips204::traits::Signer::get_public_key` (the key decoded with `try_from_bytes`, the result
/// encoded with `into_bytes`). Only a generated key is admitted: on a decodable key whose parts
/// disagree, the derivation's internal consistency assertion would fire. Claimed: the result is
/// `ml_dsa_public_key_of` of the private key, an array of `ML_DSA_65_PK_LEN` bytes.
#[verifier::external_body]
fn derive_ml_dsa_public_key(signing_key: &[u8]) -> (r: Result<Vec<u8>, &'static str>)
    requires
        signing_key@.len() == ML_DSA_65_SK_LEN,
        ml_dsa_generated(signing_key@),
    ensures
        r matches Ok(pk) ==> pk@ == ml_dsa_public_key_of(signing_key@) && pk@.len()
            == ML_DSA_65_PK_LEN,
{
    let bytes: [u8; ML_DSA_65_SK_LEN] = signing_key.try_into().unwrap();
    let key = fips204::ml_dsa_65::PrivateKey::try_from_bytes(bytes)?;
    Ok(key.get_public_key().into_bytes().to_vec())
}

/// Signs `message` (empty context) with `fips204::traits::Signer::try_sign` under the decoded
/// private key: a hedged signature drawn with operating-system randomness. Only a generated key
/// is admitted (signing uses the public-key hash stored in the private key, verification
/// recomputes it from the public key; for a generated key the two agree). Claimed: a signature
/// is an array of `ML_DSA_65_SIG_LEN` bytes, and it verifies under the public key of the signing
/// key (ML-DSA's correctness, as the crate documents with `try_keygen`, `get_public_key` and
/// `verify`). Not claimed: which signature (it is random), nor when the random number generator
/// fails.
#[verifier::external_body]
fn ml_dsa_sign(signing_key: &[u8], message: &[u8]) -> (r: Result<Vec<u8>, &'static str>)
    requires
        signing_key@.len() == ML_DSA_65_SK_LEN,
        ml_dsa_generated(signing_key@),
    ensures
        r matches Ok(sig) ==> sig@.len() == ML_DSA_65_SIG_LEN && ml_dsa_accepts(
            ml_dsa_public_key_of(signing_key@),
            message@,
            sig@,
        ),
{
    let bytes: [u8; ML_DSA_65_SK_LEN] = signing_key.try_into().unwrap();
    let key = fips204::ml_dsa_65::PrivateKey::try_from_bytes(bytes)?;
    key.try_sign(message, &[]).map(|sig| sig.to_vec())
}

/// Verifies `signature` over `message` (empty context) under the encoded public key with
/// `fips204::traits::Verifier::verify`; a key that does not decode verifies nothing. Claimed:
/// the result is `ml_dsa_accepts` of the key, the message and the signature.
#[verifier::external_body]
fn ml_dsa_verify(public_key: &[u8], message: &[u8], signature: &[u8]) -> (r: bool)
    requires
        public_key@.len() == ML_DSA_65_PK_LEN,
        signature@.len() == ML_DSA_65_SIG_LEN,
    ensures
        r == ml_dsa_accepts(public_key@, message@, signature@),
{
    let key_bytes: [u8; ML_DSA_65_PK_LEN] = public_key.try_into().unwrap();
    let signature: [u8; ML_DSA_65_SIG_LEN] = signature.try_into().unwrap();
    match fips204::ml_dsa_65::PublicKey::try_from_bytes(key_bytes) {
        Ok(key) => key.verify(message, &signature, &[]),
        Err(_) => false,
    }
}

/// Generates a fresh ML-KEM-1024 key pair with `ml_kem::Kem::generate_keypair`
/// (operating-system randomness) and returns its encapsulation key, encoded with
/// `ml_kem::KeyExport::to_bytes`. Random; claimed of every outcome: the encoding is
/// `ML_KEM_1024_EK_LEN` bytes long.
#[verifier::external_body]
fn kem_generate() -> (r: Vec<u8>)
    ensures
        r@.len() == ML_KEM_1024_EK_LEN,
{
    let (_decapsulation_key, encapsulation_key) = ml_kem::MlKem1024::generate_keypair();
    encapsulation_key.to_bytes().to_vec()
}

/// Encapsulates a fresh shared secret to the encoded transport key with
/// `ml_kem::Encapsulate::encapsulate` (operating-system randomness), the key decoded with
/// `ml_kem::EncapsulationKey::new`; the ciphertext and the secret are dropped. Nothing is
/// claimed.
#[verifier::external_body]
fn kem_encapsulate(encapsulation_key: &[u8])
    requires
        encapsulation_key@.len() == ML_KEM_1024_EK_LEN,
{
    let encoded = ml_kem::Key::<ml_kem::EncapsulationKey1024>::try_from(encapsulation_key).unwrap();
    if let Ok(key) = ml_kem::EncapsulationKey1024::new(&encoded) {
        let (_ciphertext, _shared_secret) = key.encapsulate();
    }
}

/// The anti-corruption adapter: this node's ML-DSA key pair (trade signing), encoded, and its
/// ML-KEM-1024 encapsulation key (transport). One per Appliance.
pub struct QuDagAdapter {
    signing_key: Vec<u8>,
    public_key: Vec<u8>,
    transport_key: Vec<u8>,
}

/// The address a `.dark` domain resolves to on the DHT overlay.
pub open spec fn overlay_address(dark_domain: Seq<char>) -> Seq<char> {
    "kad://"@ + dark_domain
}

/// `entry` carries an ML-DSA-65 signature over `message` that verifies under `public_key`.
pub open spec fn verifies(public_key: Seq<u8>, entry: DagEntry, message: Seq<u8>) -> bool {
    entry.signature matches Some(s) && s.0@.len() == ML_DSA_65_SIG_LEN && ml_dsa_accepts(
        public_key,
        message,
        s.0@,
    )
}

/// `entry` carries an ML-DSA-65 signature over the canonical bytes of its own agreement that
/// verifies under `public_key`.
pub open spec fn entry_verifies(public_key: Seq<u8>, entry: DagEntry) -> bool {
    agreement_message(entry.agreement) matches Some(m) && verifies(public_key, entry, m)
}

/// `text` starts with `prefix`.
pub open spec fn has_prefix(text: Seq<char>, prefix: Seq<char>) -> bool {
    prefix.len() <= text.len() && text.subrange(0, prefix.len() as int) == prefix
}

proof fn lemma_concat_has_prefix(prefix: Seq<char>, rest: Seq<char>)
    ensures
        has_prefix(prefix + rest, prefix),
{
    assert((prefix + rest).subrange(0, prefix.len() as int) =~= prefix);
}

impl QuDagAdapter {
    /// The key pair belongs together: the signing key was generated, and the public key is the
    /// one of the signing key.
    #[verifier::type_invariant]
    spec fn key_pair(self) -> bool {
        &&& self.signing_key@.len() == ML_DSA_65_SK_LEN
        &&& ml_dsa_generated(self.signing_key@)
        &&& self.public_key@.len() == ML_DSA_65_PK_LEN
        &&& self.public_key@ == ml_dsa_public_key_of(self.signing_key@)
        &&& self.transport_key@.len() == ML_KEM_1024_EK_LEN
    }

    /// This node's encoded ML-DSA public key.
    pub closed spec fn public_key_spec(&self) -> Seq<u8> {
        self.public_key@
    }

    /// Generate a fresh ML-DSA key pair and ML-KEM-1024 transport key for this node.
    pub fn new() -> (r: Result<QuDagAdapter, DomainError>)
        ensures
            r matches Err(e) ==> (e matches DomainError::Adapter(m) && has_prefix(
                m@,
                "ML-DSA keygen failed: "@,
            )),
            r matches Ok(a) ==> a.public_key_spec().len() == ML_DSA_65_PK_LEN,
    {
        let signing_key = match ml_dsa_keygen() {
            Err(e) => {
                proof {
                    lemma_concat_has_prefix("ML-DSA keygen failed: "@, e@);
                }
                return Err(DomainError::Adapter(concat2("ML-DSA keygen failed: ", e)));
            },
            Ok(k) => k,
        };
        let public_key = match derive_ml_dsa_public_key(signing_key.as_slice()) {
            Err(e) => {
                proof {
                    lemma_concat_has_prefix("ML-DSA keygen failed: "@, e@);
                }
                return Err(DomainError::Adapter(concat2("ML-DSA keygen failed: ", e)));
            },
            Ok(k) => k,
        };
        let transport_key = kem_generate();
        Ok(QuDagAdapter { signing_key, public_key, transport_key })
    }

    /// The ML-DSA public key bytes (so a peer can verify this node's signatures).
    pub fn public_key_bytes(&self) -> (r: Vec<u8>)
        ensures
            r@ == self.public_key_spec(),
            r@.len() == ML_DSA_65_PK_LEN,
    {
        proof {
            use_type_invariant(self);
        }
        copy_bytes(&self.public_key)
    }

    /// ML-DSA-sign the canonical bytes of the entry's agreement and attach the signature to
    /// `entry`. The signed entry verifies under this node's key.
    pub fn sign(&self, entry: DagEntry) -> (r: Result<DagEntry, DomainError>)
        ensures
            r matches Ok(signed) ==> signed.agreement == entry.agreement && entry_verifies(
                self.public_key_spec(),
                signed,
            ),
            agreement_message(entry.agreement) is None ==> r matches Err(
                DomainError::Serialization(_),
            ),
            r matches Err(e) ==> (e is Serialization && agreement_message(entry.agreement) is None)
                || (e matches DomainError::Adapter(m) && has_prefix(m@, "ML-DSA sign failed: "@)),
    {
        proof {
            use_type_invariant(self);
        }
        let message = match agreement_bytes(&entry.agreement) {
            Err(e) => return Err(e),
            Ok(m) => m,
        };
        match ml_dsa_sign(self.signing_key.as_slice(), message.as_slice()) {
            Err(e) => {
                let m = concat2("ML-DSA sign failed: ", e);
                proof {
                    lemma_concat_has_prefix("ML-DSA sign failed: "@, e@);
                }
                Err(DomainError::Adapter(m))
            },
            Ok(sig) => {
                let mut signed = entry;
                signed.signature = Some(MlDsaSignature(sig));
                Ok(signed)
            },
        }
    }

    /// Verify the entry's ML-DSA signature over the canonical bytes of its agreement under this
    /// node's key. An unsigned entry, a signature of the wrong length, or an agreement that does
    /// not encode never verifies.
    pub fn verify(&self, entry: &DagEntry) -> (r: bool)
        ensures
            r == entry_verifies(self.public_key_spec(), *entry),
    {
        proof {
            use_type_invariant(self);
        }
        let message = match agreement_bytes(&entry.agreement) {
            Err(_) => return false,
            Ok(m) => m,
        };
        match &entry.signature {
            None => false,
            Some(signature) => {
                if signature.0.len() != ML_DSA_65_SIG_LEN {
                    false
                } else {
                    ml_dsa_verify(self.public_key.as_slice(), message.as_slice(), signature.0.as_slice())
                }
            },
        }
    }

    /// Broadcast a signed entry for consensus. Refuses unsigned entries and performs the
    /// ML-KEM-1024 transport encapsulation before the entry leaves the node. The reference fabric
    /// accepts in-process at time zero.
    pub fn broadcast_and_await_consensus(&self, entry: &DagEntry) -> (r: Result<Finality, DomainError>)
        ensures
            r is Ok <==> entry.signature is Some,
            r matches Ok(f) ==> f.reached_at == Timestamp(0),
            r matches Err(e) ==> e matches DomainError::Verification(m) && m@
                == "refusing to broadcast an unsigned DAG entry"@,
    {
        if entry.signature.is_none() {
            return Err(
                DomainError::Verification(
                    String::from_str("refusing to broadcast an unsigned DAG entry"),
                ),
            );
        }
        proof {
            use_type_invariant(self);
        }
        kem_encapsulate(self.transport_key.as_slice());
        Ok(Finality { reached_at: Timestamp(0) })
    }

    /// Resolve a peer by its `.dark` domain on the DHT overlay, directory-less.
    pub fn resolve(&self, dark_domain: String) -> (r: Result<NodeAddr, DomainError>)
        ensures
            r is Ok <==> has_suffix(dark_domain@, dark_suffix()),
            r matches Ok(a) ==> a.0@ == overlay_address(dark_domain@),
            r matches Err(e) ==> e matches DomainError::Invalid(m) && m@ == "peer must be a .dark domain, got `"@
                + dark_domain@ + "`"@,
    {
        if !is_dark_domain(dark_domain.as_str()) {
            return Err(
                DomainError::Invalid(
                    concat3("peer must be a .dark domain, got `", dark_domain.as_str(), "`"),
                ),
            );
        }
        Ok(NodeAddr(concat2("kad://", dark_domain.as_str())))
    }
}

/// Law: an entry whose signature the key accepts over the canonical bytes of the entry's own
/// agreement (what `sign` attaches) verifies under that key, and the same entry stripped of its
/// signature never verifies.
pub proof fn law_signed_entry_verifies(public_key: Seq<u8>, entry: DagEntry, signature: Seq<u8>)
    requires
        agreement_message(entry.agreement) matches Some(m) && ml_dsa_accepts(public_key, m, signature),
        signature.len() == ML_DSA_65_SIG_LEN,
        entry.signature matches Some(s) && s.0@ == signature,
    ensures
        entry_verifies(public_key, entry),
        !entry_verifies(public_key, DagEntry { agreement: entry.agreement, signature: None }),
{
}

} // verus!
