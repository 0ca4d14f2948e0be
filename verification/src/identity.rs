//! The miner's Ed25519 identity: its keys as Base58 text, the JSON file that
//! stores them, and challenge signing.

use vstd::prelude::*;
use crate::codec::{
    base58_bytes, base58_text, decode_base58, encode_base58, json_pair_object,
    json_string_member, read_json_string_member, write_json_pair_object,
};
use crate::crypto::{ed25519_public_key, ed25519_signature, public_key_of, random_secret_key, sign_with};

verus! {

/// The two keys of an identity, as text.
pub struct IdentityKeys {
    pub public_key: Seq<char>,
    pub private_key: Seq<char>,
}

/// A node identity: the Base58 text of an Ed25519 public key and of its
/// 32-byte secret key.
pub struct Identity {
    pub public_key: String,
    pub private_key: String,
}

impl View for Identity {
    type V = IdentityKeys;

    open spec fn view(&self) -> IdentityKeys {
        IdentityKeys { public_key: self.public_key@, private_key: self.private_key@ }
    }
}

/// The identity whose keys come from the 32-byte secret `secret`.
pub open spec fn keys_of_secret(secret: Seq<u8>) -> IdentityKeys {
    IdentityKeys {
        public_key: base58_text(ed25519_public_key(secret)),
        private_key: base58_text(secret),
    }
}

/// The private key decodes to a 32-byte secret from which the public key is
/// derived.
pub open spec fn keys_consistent(k: IdentityKeys) -> bool {
    exists|s: Seq<u8>|
        s.len() == 32 && #[trigger] base58_bytes(k.private_key) == Some(s)
            && k.public_key == base58_text(ed25519_public_key(s))
}

/// The identity file's member names.
pub open spec fn public_key_member() -> Seq<char> {
    "public_key"@
}

pub open spec fn private_key_member() -> Seq<char> {
    "private_key"@
}

/// The text of the identity file that stores `k`.
pub open spec fn identity_file_text(k: IdentityKeys) -> Seq<char> {
    json_pair_object(public_key_member(), k.public_key, private_key_member(), k.private_key)
}

/// The identity stored in the identity file `text`, where both keys are string
/// members of a JSON document.
pub open spec fn stored_identity(text: Seq<char>) -> Option<IdentityKeys> {
    match (json_string_member(text, public_key_member()), json_string_member(text, private_key_member())) {
        (Some(Some(p)), Some(Some(s))) => Some(IdentityKeys { public_key: p, private_key: s }),
        _ => None,
    }
}

/// The signature that the identity `k` makes of `message`: none where its
/// private key is not the Base58 text of 32 bytes.
pub open spec fn signature_by(k: IdentityKeys, message: Seq<u8>) -> Option<Seq<u8>> {
    match base58_bytes(k.private_key) {
        Some(s) => if s.len() == 32 { Some(ed25519_signature(s, message)) } else { None },
        None => None,
    }
}

/// Law: an identity whose keys are consistent always signs, and its signature is
/// the Ed25519 signature by its secret key.
pub proof fn consistent_identity_signs(k: IdentityKeys, message: Seq<u8>)
    requires
        keys_consistent(k),
    ensures
        signature_by(k, message) is Some,
        exists|s: Seq<u8>|
            s.len() == 32 && #[trigger] base58_bytes(k.private_key) == Some(s)
                && signature_by(k, message) == Some(ed25519_signature(s, message)),
{
}

fn public_key_name() -> (r: &'static str)
    ensures
        r@ == public_key_member(),
{
    "public_key"
}

fn private_key_name() -> (r: &'static str)
    ensures
        r@ == private_key_member(),
{
    "private_key"
}

proof fn member_names_differ()
    ensures
        public_key_member() != private_key_member(),
{
    reveal_strlit("public_key");
    reveal_strlit("private_key");
    assert(public_key_member().len() != private_key_member().len());
}

/// Law: identities made from secrets are equal exactly when the secrets are,
/// given that each private key decodes back to its secret (as `from_secret`
/// ensures).
pub proof fn identity_determines_secret(s1: Seq<u8>, s2: Seq<u8>)
    requires
        base58_bytes(keys_of_secret(s1).private_key) == Some(s1),
        base58_bytes(keys_of_secret(s2).private_key) == Some(s2),
    ensures
        (keys_of_secret(s1) == keys_of_secret(s2)) <==> (s1 == s2),
{
}

impl Identity {
    /// The identity made from the 32-byte secret key `secret`.
    pub fn from_secret(secret: &[u8]) -> (r: Identity)
        requires
            secret@.len() == 32,
        ensures
            r@ == keys_of_secret(secret@),
            keys_consistent(r@),
            base58_bytes(r@.private_key) == Some(secret@),
            base58_bytes(r@.public_key) == Some(ed25519_public_key(secret@)),
    {
        let public = public_key_of(secret);
        let public_key = encode_base58(public.as_slice());
        let private_key = encode_base58(secret);
        let r = Identity { public_key, private_key };
        assert(base58_bytes(r@.private_key) == Some(secret@));
        r
    }

    /// A fresh identity from a random secret key.
    pub fn generate() -> (r: Identity)
        ensures
            keys_consistent(r@),
            exists|s: Seq<u8>| s.len() == 32 && r@ == #[trigger] keys_of_secret(s)
                && base58_bytes(r@.private_key) == Some(s)
                && base58_bytes(r@.public_key) == Some(ed25519_public_key(s)),
    {
        let secret = random_secret_key();
        let r = Identity::from_secret(secret.as_slice());
        assert(r@ == keys_of_secret(secret@) && base58_bytes(r@.private_key) == Some(secret@));
        r
    }

    /// The text of the identity file that stores this identity; reading it back
    /// gives this identity.
    pub fn file_text(&self) -> (r: String)
        ensures
            r@ == identity_file_text(self@),
            stored_identity(r@) == Some(self@),
    {
        proof {
            member_names_differ();
        }
        write_json_pair_object(public_key_name(), self.public_key.as_str(), private_key_name(), self.private_key.as_str())
    }

    /// The identity stored in the identity file `text`; `None` where the text is
    /// not JSON or lacks one of the two keys as a string. `None` is the case in
    /// which the program stops: it has no identity to run with, and the file is
    /// left as it is.
    pub fn load(text: &str) -> (r: Option<Identity>)
        ensures
            match r {
                Some(id) => stored_identity(text@) == Some(id@),
                None => stored_identity(text@) is None,
            },
    {
        let public = read_json_string_member(text, public_key_name());
        let private = read_json_string_member(text, private_key_name());
        match (public, private) {
            (Some(Some(public_key)), Some(Some(private_key))) => Some(Identity { public_key, private_key }),
            _ => None,
        }
    }

    /// The node identity: the stored one when there is a stored identity file
    /// and `force` is off, otherwise a fresh one together with the text to store.
    /// `stored` is the identity file's text where the file exists; `None` comes
    /// back where that text holds no identity and `force` is off. `None` is the
    /// case in which the program stops without an identity: nothing is
    /// generated, so no new identity replaces the unreadable file.
    pub fn load_or_create(force: bool, stored: Option<String>) -> (r: Option<(Identity, Option<String>)>)
        ensures
            match stored {
                Some(text) if !force => match stored_identity(text@) {
                    Some(k) => r matches Some((id, save)) && id@ == k && save is None,
                    None => r is None,
                },
                _ => r matches Some((id, Some(save))) && keys_consistent(id@)
                    && save@ == identity_file_text(id@) && stored_identity(save@) == Some(id@),
            },
    {
        match stored {
            Some(text) => {
                if !force {
                    return match Identity::load(text.as_str()) {
                        Some(id) => Some((id, None)),
                        None => None,
                    };
                }
            },
            None => {},
        }
        let identity = Identity::generate();
        let save = identity.file_text();
        Some((identity, Some(save)))
    }

    /// Signs `message` with this identity's secret key; `None` where the private
    /// key is not the Base58 text of a 32-byte secret.
    pub fn sign(&self, message: &[u8]) -> (r: Option<Vec<u8>>)
        ensures
            match r {
                Some(sig) => signature_by(self@, message@) == Some(sig@) && sig@.len() == 64,
                None => signature_by(self@, message@) is None,
            },
    {
        match decode_base58(self.private_key.as_str()) {
            Some(secret) => {
                if secret.len() == 32 {
                    Some(sign_with(secret.as_slice(), message))
                } else {
                    None
                }
            },
            None => None,
        }
    }
}

} // verus!
