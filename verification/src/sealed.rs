use vstd::prelude::*;
use sodiumoxide::crypto::box_;
use crate::encoding::{base64_bytes, base64_text, encode};
use crate::error::{CmdipassError, ErrorKind};

verus! {

/// Length of a public key and of a secret key, in bytes.
pub const KEY_LENGTH: usize = 32;

/// Length of the nonce of a sealed message, in bytes.
pub const NONCE_LENGTH: usize = 24;

/// By how many bytes a sealed message is longer than its plaintext.
pub const MAC_LENGTH: usize = 16;

/// The public key that belongs to a secret key.
pub uninterp spec fn box_public_key(secret: Seq<u8>) -> Seq<u8>;

/// Text of the failure where the outside library could not seal a message for a public key.
pub const SEAL_FAILED: &'static str =
    "The message could not be sealed: the server's public key cannot be used.";

/// The sealed form of `message` under a nonce, the receiver's public key and the sender's
/// secret key, where the outside library can seal for that public key at all.
pub uninterp spec fn box_sealed(
    message: Seq<u8>,
    nonce: Seq<u8>,
    public: Seq<u8>,
    secret: Seq<u8>,
) -> Seq<u8>;

/// The plaintext of a sealed message under a nonce, the sender's public key and the
/// receiver's secret key, or `None` where it does not authenticate.
pub uninterp spec fn box_opened(
    sealed: Seq<u8>,
    nonce: Seq<u8>,
    public: Seq<u8>,
    secret: Seq<u8>,
) -> Option<Seq<u8>>;

/// Whether a public key is one that the outside library can seal for: the public key that
/// belongs to some secret key.
pub open spec fn usable(public: Seq<u8>) -> bool {
    exists|peer: Seq<u8>| peer.len() == KEY_LENGTH && #[trigger] box_public_key(peer) == public
}

/// Calls `sodiumoxide::init`. It says whether the outside library is ready for use.
#[verifier::external_body]
fn sodium_init() -> (ready: bool) {
    sodiumoxide::init().is_ok()
}

/// Calls `box_::SecretKey::public_key`. Trusted: the result is the public key of `secret`,
/// 32 bytes long.
#[verifier::external_body]
fn sodium_public_key(secret: &[u8]) -> (public: Vec<u8>)
    requires
        secret@.len() == KEY_LENGTH,
    ensures
        public@ == box_public_key(secret@),
        public@.len() == KEY_LENGTH,
{
    box_::SecretKey::from_slice(secret).unwrap().public_key().as_ref().to_vec()
}

/// Calls `box_::gen_keypair`. Trusted: both keys are 32 bytes long, and the first is the
/// public key of the second. Nothing else is promised of them.
#[verifier::external_body]
fn sodium_keypair() -> (pair: (Vec<u8>, Vec<u8>))
    ensures
        pair.0@.len() == KEY_LENGTH,
        pair.1@.len() == KEY_LENGTH,
        pair.0@ == box_public_key(pair.1@),
{
    let (public, secret) = box_::gen_keypair();
    (public.as_ref().to_vec(), secret.as_ref().to_vec())
}

/// Calls `box_::gen_nonce`. Trusted: the nonce is 24 bytes long. Nothing is promised of the
/// bytes.
#[verifier::external_body]
fn sodium_nonce() -> (nonce: Vec<u8>)
    ensures
        nonce@.len() == NONCE_LENGTH,
{
    box_::gen_nonce().as_ref().to_vec()
}

/// Calls `box_::seal`. Trusted: the result is 16 bytes longer than `message`; where it opens
/// under the very keys it was sealed with, it is the sealed form of `message`; for a public
/// key that belongs to some secret key it does open under those keys, to `message`; and
/// whoever holds the secret key that belongs to `public` opens it to `message` with the
/// sender's public key. For a public key that the outside library cannot use, nothing is
/// known of the bytes.
#[verifier::external_body]
fn sodium_seal(message: &[u8], nonce: &[u8], public: &[u8], secret: &[u8]) -> (sealed: Vec<u8>)
    requires
        nonce@.len() == NONCE_LENGTH,
        public@.len() == KEY_LENGTH,
        secret@.len() == KEY_LENGTH,
    ensures
        sealed@.len() == message@.len() + MAC_LENGTH,
        box_opened(sealed@, nonce@, public@, secret@) is Some ==> sealed@ == box_sealed(
            message@,
            nonce@,
            public@,
            secret@,
        ),
        usable(public@) ==> box_opened(sealed@, nonce@, public@, secret@) == Some(message@),
        forall|peer: Seq<u8>|
            peer.len() == KEY_LENGTH && box_public_key(peer) == public@ ==> #[trigger] box_opened(
                sealed@,
                nonce@,
                box_public_key(secret@),
                peer,
            ) == Some(message@),
{
    box_::seal(
        message,
        &box_::Nonce::from_slice(nonce).unwrap(),
        &box_::PublicKey::from_slice(public).unwrap(),
        &box_::SecretKey::from_slice(secret).unwrap(),
    )
}

/// Calls `box_::open`. Trusted: it succeeds exactly where the sealed message authenticates,
/// and then gives its plaintext.
#[verifier::external_body]
fn sodium_open(sealed: &[u8], nonce: &[u8], public: &[u8], secret: &[u8]) -> (opened: Option<
    Vec<u8>,
>)
    requires
        nonce@.len() == NONCE_LENGTH,
        public@.len() == KEY_LENGTH,
        secret@.len() == KEY_LENGTH,
    ensures
        opened is Some <==> box_opened(sealed@, nonce@, public@, secret@) is Some,
        opened matches Some(message) ==> box_opened(sealed@, nonce@, public@, secret@) == Some(
            message@,
        ),
{
    box_::open(
        sealed,
        &box_::Nonce::from_slice(nonce).unwrap(),
        &box_::PublicKey::from_slice(public).unwrap(),
        &box_::SecretKey::from_slice(secret).unwrap(),
    ).ok()
}

/// Copies a slice of `N` bytes into an array.
pub(crate) fn array_of<const N: usize>(bytes: &[u8]) -> (array: [u8; N])
    requires
        bytes@.len() == N,
    ensures
        array@ == bytes@,
{
    let mut array: [u8; N] = [0u8; N];
    let mut i: usize = 0;
    while i < N
        invariant
            i <= N,
            bytes@.len() == N,
            forall|j: int| 0 <= j < i ==> array@[j] == bytes@[j],
        decreases N - i,
    {
        array[i] = bytes[i];
        i += 1;
    }
    assert(array@ =~= bytes@);
    array
}

/// Copies a slice into an array of the same length; `None` where the lengths differ.
pub fn to_array<const N: usize>(bytes: &[u8]) -> (array: Option<[u8; N]>)
    ensures
        array is Some <==> bytes@.len() == N,
        array matches Some(a) ==> a@ == bytes@,
{
    if bytes.len() != N {
        None
    } else {
        Some(array_of::<N>(bytes))
    }
}

/// Whether two runs of bytes are the same.
fn same_bytes(left: &[u8], right: &[u8]) -> (same: bool)
    ensures
        same == (left@ == right@),
{
    if left.len() != right.len() {
        return false;
    }
    let mut i: usize = 0;
    while i < left.len()
        invariant
            i <= left@.len(),
            left@.len() == right@.len(),
            forall|j: int| 0 <= j < i ==> left@[j] == right@[j],
        decreases left@.len() - i,
    {
        if left[i] != right[i] {
            return false;
        }
        i += 1;
    }
    assert(left@ =~= right@);
    true
}

/// A secret key of the sealed envelope.
#[derive(Clone, Copy)]
pub struct SecretKey {
    bytes: [u8; 32],
}

/// A public key of the sealed envelope.
#[derive(Clone, Copy, Debug)]
pub struct PublicKey {
    bytes: [u8; 32],
}

/// The nonce of one sealed message.
#[derive(Clone, Copy, Debug)]
pub struct Nonce {
    bytes: [u8; 24],
}

impl View for SecretKey {
    type V = Seq<u8>;

    closed spec fn view(&self) -> Seq<u8> {
        self.bytes@
    }
}

impl View for PublicKey {
    type V = Seq<u8>;

    closed spec fn view(&self) -> Seq<u8> {
        self.bytes@
    }
}

impl View for Nonce {
    type V = Seq<u8>;

    closed spec fn view(&self) -> Seq<u8> {
        self.bytes@
    }
}

impl SecretKey {
    /// A secret key is 32 bytes long.
    pub proof fn lemma_length(self)
        ensures
            self@.len() == KEY_LENGTH,
    {
    }

    /// The key that these 32 bytes are.
    pub fn new(bytes: [u8; 32]) -> (key: SecretKey)
        ensures
            key@ == bytes@,
    {
        SecretKey { bytes }
    }

    /// The key that `bytes` are, where there are 32 of them.
    pub fn from_slice(bytes: &[u8]) -> (key: Option<SecretKey>)
        ensures
            key is Some <==> bytes@.len() == KEY_LENGTH,
            key matches Some(k) ==> k@ == bytes@,
    {
        match to_array::<32>(bytes) {
            Some(bytes) => Some(SecretKey { bytes }),
            None => None,
        }
    }

    pub fn as_bytes(&self) -> (bytes: &[u8])
        ensures
            bytes@ == self@,
            bytes@.len() == KEY_LENGTH,
    {
        self.bytes.as_slice()
    }

    /// The public key that belongs to this secret key.
    pub fn public_key(&self) -> (public: PublicKey)
        ensures
            public@ == box_public_key(self@),
    {
        let bytes = sodium_public_key(self.bytes.as_slice());
        PublicKey { bytes: array_of::<32>(bytes.as_slice()) }
    }
}

impl PublicKey {
    /// A public key is 32 bytes long.
    pub proof fn lemma_length(self)
        ensures
            self@.len() == KEY_LENGTH,
    {
    }

    /// The key that these 32 bytes are.
    pub fn new(bytes: [u8; 32]) -> (key: PublicKey)
        ensures
            key@ == bytes@,
    {
        PublicKey { bytes }
    }

    /// The key that `bytes` are, where there are 32 of them.
    pub fn from_slice(bytes: &[u8]) -> (key: Option<PublicKey>)
        ensures
            key is Some <==> bytes@.len() == KEY_LENGTH,
            key matches Some(k) ==> k@ == bytes@,
    {
        match to_array::<32>(bytes) {
            Some(bytes) => Some(PublicKey { bytes }),
            None => None,
        }
    }

    pub fn as_bytes(&self) -> (bytes: &[u8])
        ensures
            bytes@ == self@,
            bytes@.len() == KEY_LENGTH,
    {
        self.bytes.as_slice()
    }
}

impl Nonce {
    /// A nonce is 24 bytes long.
    pub proof fn lemma_length(self)
        ensures
            self@.len() == NONCE_LENGTH,
    {
    }

    /// The nonce that these 24 bytes are.
    pub fn new(bytes: [u8; 24]) -> (nonce: Nonce)
        ensures
            nonce@ == bytes@,
    {
        Nonce { bytes }
    }

    /// The nonce that `bytes` are, where there are 24 of them.
    pub fn from_slice(bytes: &[u8]) -> (nonce: Option<Nonce>)
        ensures
            nonce is Some <==> bytes@.len() == NONCE_LENGTH,
            nonce matches Some(n) ==> n@ == bytes@,
    {
        match to_array::<24>(bytes) {
            Some(bytes) => Some(Nonce { bytes }),
            None => None,
        }
    }

    pub fn as_bytes(&self) -> (bytes: &[u8])
        ensures
            bytes@ == self@,
            bytes@.len() == NONCE_LENGTH,
    {
        self.bytes.as_slice()
    }
}

/// Prepares the outside library; `false` where it cannot be used.
pub fn init() -> (ready: bool) {
    sodium_init()
}

/// Draws a fresh pair of keys. Nothing is known of them but that they belong together.
pub fn gen_keypair() -> (pair: (PublicKey, SecretKey))
    ensures
        pair.0@ == box_public_key(pair.1@),
{
    let (public, secret) = sodium_keypair();
    (
        PublicKey { bytes: array_of::<32>(public.as_slice()) },
        SecretKey { bytes: array_of::<32>(secret.as_slice()) },
    )
}

/// Draws a fresh nonce. Nothing is known of its bytes.
pub fn gen_nonce() -> (nonce: Nonce)
    ensures
        nonce@.len() == NONCE_LENGTH,
{
    let bytes = sodium_nonce();
    Nonce { bytes: array_of::<24>(bytes.as_slice()) }
}

/// Whether `sealed` is the sealed form of `message` for the holder of `public` from the
/// holder of `secret`: it is what the outside library gives, 16 bytes longer than the
/// message; it opens to `message` under the very keys it was sealed with; and whoever holds
/// the secret key that belongs to `public` opens it to `message` with the sender's public
/// key and the same nonce.
pub open spec fn seals(
    sealed: Seq<u8>,
    message: Seq<u8>,
    nonce: Seq<u8>,
    public: Seq<u8>,
    secret: Seq<u8>,
) -> bool {
    &&& sealed == box_sealed(message, nonce, public, secret)
    &&& sealed.len() == message.len() + MAC_LENGTH
    &&& box_opened(sealed, nonce, public, secret) == Some(message)
    &&& forall|peer: Seq<u8>|
        peer.len() == KEY_LENGTH && box_public_key(peer) == public ==> #[trigger] box_opened(
            sealed,
            nonce,
            box_public_key(secret),
            peer,
        ) == Some(message)
}

/// Decides on what the outside library gave as the sealed form of `message`, from what it
/// opened to under the very keys it was sealed with: it is kept exactly where it opened to
/// `message`, and else nothing is handed out and the failure is of class `Crypto`.
pub fn keep_sealed(sealed: Vec<u8>, opened: Option<Vec<u8>>, message: &[u8]) -> (result: Result<
    Vec<u8>,
    CmdipassError,
>)
    ensures
        result is Ok <==> (opened matches Some(own) && own@ == message@),
        result matches Ok(kept) ==> kept@ == sealed@,
        result matches Err(e) ==> e.has(ErrorKind::Crypto, SEAL_FAILED@),
{
    match opened {
        Some(own) => if same_bytes(own.as_slice(), message) {
            Ok(sealed)
        } else {
            Err(CmdipassError::new(ErrorKind::Crypto, SEAL_FAILED))
        },
        None => Err(CmdipassError::new(ErrorKind::Crypto, SEAL_FAILED)),
    }
}

/// Seals `message` for the holder of `public`, as the holder of `secret`, and opens the
/// result under the same keys to see that the outside library could seal for that public
/// key. For the public key of any secret key it can, and the sealed form is handed out.
/// Where it could not, nothing is handed out, and the failure is of class `Crypto`.
pub fn seal(message: &[u8], nonce: &Nonce, public: &PublicKey, secret: &SecretKey) -> (result:
    Result<Vec<u8>, CmdipassError>)
    ensures
        usable(public@) ==> result is Ok,
        result matches Ok(sealed) ==> seals(sealed@, message@, nonce@, public@, secret@),
        result matches Err(e) ==> e.has(ErrorKind::Crypto, SEAL_FAILED@),
{
    let sealed = sodium_seal(message, nonce.as_bytes(), public.as_bytes(), secret.as_bytes());
    let opened = sodium_open(
        sealed.as_slice(),
        nonce.as_bytes(),
        public.as_bytes(),
        secret.as_bytes(),
    );
    keep_sealed(sealed, opened, message)
}

/// Opens a sealed message from the holder of `public`, as the holder of `secret`; `None`
/// where it does not authenticate.
pub fn open(sealed: &[u8], nonce: &Nonce, public: &PublicKey, secret: &SecretKey) -> (opened:
    Option<Vec<u8>>)
    ensures
        opened is Some <==> box_opened(sealed@, nonce@, public@, secret@) is Some,
        opened matches Some(message) ==> box_opened(sealed@, nonce@, public@, secret@) == Some(
            message@,
        ),
{
    sodium_open(sealed, nonce.as_bytes(), public.as_bytes(), secret.as_bytes())
}

/// The base64 text of a public key.
pub fn serialize_public_key(public_key: &PublicKey) -> (text: String)
    ensures
        text@ == base64_text(public_key@),
        base64_bytes(text@) == Some(public_key@),
{
    encode(public_key.as_bytes())
}

/// The base64 text of a nonce.
pub fn serialize_nonce(nonce: &Nonce) -> (text: String)
    ensures
        text@ == base64_text(nonce@),
        base64_bytes(text@) == Some(nonce@),
{
    encode(nonce.as_bytes())
}

} // verus!
