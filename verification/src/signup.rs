//! Sign-up forms for the homeserver's shared-secret registration endpoint.
use vstd::prelude::*;
use vstd::utf8::encode_utf8;

use crate::text::hex_lower;
use hmac::Mac;

verus! {

/// The key, shared with the homeserver, that authenticates a registration request: the
/// ASCII bytes of `pimDyz-wacwan-6qorno`.
pub open spec fn registration_key() -> Seq<u8> {
    seq![112u8, 105, 109, 68, 121, 122, 45, 119, 97, 99, 119, 97, 110, 45, 54, 113, 111, 114, 110, 111]
}

/// The text that the registration MAC covers: nonce, user name, password and the
/// admin flag `notadmin`, separated by NUL characters.
pub open spec fn mac_message(nonce: Seq<char>, username: Seq<char>, password: Seq<char>) -> Seq<char> {
    nonce + seq!['\0'] + username + seq!['\0'] + password + seq!['\0']
        + seq!['n', 'o', 't', 'a', 'd', 'm', 'i', 'n']
}

/// What HMAC-SHA1 computes from a key and a message (the `hmac` crate over `sha1`).
pub uninterp spec fn hmac_sha1_tag(key: Seq<u8>, message: Seq<u8>) -> Seq<u8>;

/// HMAC-SHA1 of `message` under `key`, through the `hmac` and `sha1` crates
/// (`Hmac::<Sha1>::new_from_slice`, `update`, `finalize`).
/// Trusted: the tag is the named result `hmac_sha1_tag` of the two byte strings, and it is
/// 20 bytes long, the output size of SHA-1. `new_from_slice` accepts keys of every length.
#[verifier::external_body]
fn hmac_sha1(key: &[u8], message: &[u8]) -> (tag: Vec<u8>)
    ensures
        tag@ == hmac_sha1_tag(key@, message@),
        tag@.len() == 20,
{
    let mut m = hmac::Hmac::<sha1::Sha1>::new_from_slice(key).unwrap();
    m.update(message);
    m.finalize().into_bytes().to_vec()
}

/// The form that a visitor fills in to sign up.
pub struct ExternalForm {
    pub username: String,
    pub password: String,
    pub confirm: String,
}

/// The request body that the registration endpoint takes.
pub struct InternalForm {
    pub nonce: String,
    pub username: String,
    pub password: String,
    pub admin: bool,
    pub mac: String,
}

/// A form is valid exactly when its confirmation is its password, character for character:
/// a confirmation that differs in length or in any character is refused.
pub proof fn lemma_valid_iff_confirmed(f: ExternalForm)
    ensures
        f.valid() <==> f.password@ == f.confirm@,
        f.password@.len() != f.confirm@.len() ==> !f.valid(),
        forall|i: int|
            0 <= i < f.password@.len() && 0 <= i < f.confirm@.len() && f.password@[i]
                != f.confirm@[i] ==> !f.valid(),
{
}

/// Validity does not depend on which of the two fields holds which text: swapping password
/// and confirmation keeps a form valid or invalid.
pub proof fn lemma_validity_symmetric(f: ExternalForm, g: ExternalForm)
    requires
        g.password@ == f.confirm@,
        g.confirm@ == f.password@,
    ensures
        f.valid() == g.valid(),
{
}

impl ExternalForm {
    /// A form with the given user name, password and password confirmation.
    pub fn new(username: String, password: String, confirm: String) -> (f: ExternalForm)
        ensures
            f.username@ == username@,
            f.password@ == password@,
            f.confirm@ == confirm@,
    {
        ExternalForm { username, password, confirm }
    }

    /// Whether the password and its confirmation agree.
    pub open spec fn valid(&self) -> bool {
        self.password@ == self.confirm@
    }

    /// A form is valid when the password was typed the same way twice.
    pub fn is_valid(&self) -> (r: bool)
        ensures
            r == self.valid(),
            r == (self.password@ == self.confirm@),
    {
        self.password == self.confirm
    }

    /// The registration MAC for this form and a nonce: the lower-case hex encoding of
    /// HMAC-SHA1 under the registration key over `mac_message`, encoded as UTF-8.
    pub fn mac(&self, nonce: String) -> (r: String)
        ensures
            r@ == hex_lower(
                hmac_sha1_tag(
                    registration_key(),
                    encode_utf8(mac_message(nonce@, self.username@, self.password@)),
                ),
            ),
            r@.len() == 40,
    {
        let mut message = nonce;
        message.append("\0");
        message.append(self.username.as_str());
        message.append("\0");
        message.append(self.password.as_str());
        message.append("\0");
        message.append("notadmin");
        proof {
            reveal_strlit("\0");
            reveal_strlit("notadmin");
            assert(message@ == mac_message(nonce@, self.username@, self.password@));
        }
        let key: Vec<u8> = vec![
            112u8, 105, 109, 68, 121, 122, 45, 119, 97, 99, 119, 97, 110, 45, 54, 113, 111, 114, 110, 111,
        ];
        assert(key@ == registration_key());
        let tag = hmac_sha1(key.as_slice(), message.as_str().as_bytes());
        crate::text::hex_encode(tag.as_slice())
    }

    /// The request body for this form, with the nonce and MAC given; never an admin.
    pub fn internal_form(&self, nonce: String, mac: String) -> (r: InternalForm)
        ensures
            r.nonce@ == nonce@,
            r.username@ == self.username@,
            r.password@ == self.password@,
            r.admin == false,
            r.mac@ == mac@,
    {
        InternalForm {
            nonce,
            username: self.username.clone(),
            password: self.password.clone(),
            admin: false,
            mac,
        }
    }

    /// The complete request body for a valid form and the nonce that the server handed
    /// out: `internal_form` with `mac` of that nonce.
    pub fn registration(&self, nonce: String) -> (r: InternalForm)
        requires
            self.valid(),
        ensures
            r.nonce@ == nonce@,
            r.username@ == self.username@,
            r.password@ == self.password@,
            r.admin == false,
            r.mac@ == hex_lower(
                hmac_sha1_tag(
                    registration_key(),
                    encode_utf8(mac_message(nonce@, self.username@, self.password@)),
                ),
            ),
    {
        let mac = self.mac(nonce.clone());
        self.internal_form(nonce, mac)
    }
}

} // verus!
