use vstd::prelude::*;
use vstd::utf8::encode_utf8;
use crate::encoding::{
    base64_bytes, base64_text, decode, encode, random_bytes, text_lossy, text_view,
    utf8_lossy_text, NO_RANDOMNESS,
};
use crate::config_file::{
    lemma_readable_by_others_is_refused, load_config, owner_only, permissions_text, StoreDecision,
    StoreProbe,
};
use crate::error::{CmdipassError, ErrorKind, Failure};
use crate::keepass::{Entry, EntryView, KeePassBackend};
use crate::kphcrypto::{
    cbc_encryption, decrypt, decrypt_result, encrypt, CIPHER_FAILURE, KEY_LENGTH, NONCE_LENGTH,
};

verus! {

/// Text of the failure where the persisted key is not base64.
pub const BAD_STORED_KEY: &'static str = "The key in the config file is not valid base64.";

/// Text of the failure where the helper's nonce is not base64.
pub const BAD_NONCE: &'static str = "The nonce in the server's response is not valid base64.";

/// Text of the failure where a field of an entry is not base64.
pub const BAD_FIELD: &'static str = "A field of an entry in the server's response is not valid base64.";

/// Text of the failure where the helper reports success and gives no id.
pub const NO_ID: &'static str = "The server accepted the association and named no id for it.";

/// Text of the failure where the helper reports failure and gives no reason.
pub const NO_REASON: &'static str = "The server reported a failure and gave no error text.";

/// Text of the failure where an event comes at a step that did not ask for it.
pub const OUT_OF_ORDER: &'static str = "This event does not belong to this step of the setup.";

/// Text of the failure where the client is used before it holds an association.
pub const NOT_READY: &'static str = "No association with the server has been set up yet.";

/// Text of the failure where the helper declines to associate.
pub const ASSOCIATION_REJECTED: &'static str =
    "Association request did not succeed. User canceled, or protocol error.";

/// Text of the failure where the helper does not know the association, before the path.
pub const CONFIG_REJECTED_HEAD: &'static str =
    "Config rejected by keepasshttp. Make sure that the correct database is open, or delete your config file (";

/// The same text, after the path.
pub const CONFIG_REJECTED_TAIL: &'static str = ") and re-associate";

/// Text of the failure where the helper refuses a query, before the helper's own words.
pub const REJECTED_HEAD: &'static str = "Couldn't get logins. Server said: '";

/// The same text, after the helper's own words.
pub const REJECTED_TAIL: &'static str = "'";

/// Text of a failure of the transport, before the cause.
pub const TRANSPORT_HEAD: &'static str = "Error while trying to contact KeePassHttp: ";

/// The same text, after the cause.
pub const TRANSPORT_TAIL: &'static str =
    "\nMake sure that KeePass is running and the database is unlocked.";

/// The association with the helper: the shared key as base64, and the id that the helper
/// gave it.
#[derive(Debug)]
pub struct Config {
    pub key: String,
    pub id: String,
}

/// What an association says: the two texts.
pub struct ConfigView {
    pub key: Seq<char>,
    pub id: Seq<char>,
}

impl View for Config {
    type V = ConfigView;

    open spec fn view(&self) -> ConfigView {
        ConfigView { key: self.key@, id: self.id@ }
    }
}

/// The base64 text of what the cipher makes of `plain`.
pub open spec fn sealed_text(plain: Seq<u8>, key: Seq<u8>, nonce: Seq<u8>) -> Seq<char> {
    base64_text(cbc_encryption(key, nonce, plain))
}

/// The proof of knowing the key that every request carries: the nonce's own base64 text,
/// encrypted under the key and the nonce.
pub open spec fn verifier_text(key: Seq<u8>, nonce: Seq<u8>) -> Seq<char> {
    sealed_text(encode_utf8(base64_text(nonce)), key, nonce)
}

/// Whether a key and a nonce have the lengths that the cipher takes.
pub open spec fn material_fits(key: Seq<u8>, nonce: Seq<u8>) -> bool {
    key.len() == KEY_LENGTH && nonce.len() == NONCE_LENGTH
}

/// The plaintext of one encrypted field, as text: base64 is undone, the cipher is undone,
/// and the bytes are read as UTF-8 with replacement.
pub open spec fn opened_text(field: Seq<char>, key: Seq<u8>, nonce: Seq<u8>) -> Result<
    Seq<char>,
    Failure,
> {
    match base64_bytes(field) {
        None => Err(Failure { kind: ErrorKind::Protocol, text: BAD_FIELD@ }),
        Some(ciphertext) => match decrypt_result(ciphertext, key, nonce) {
            None => Err(Failure { kind: ErrorKind::Crypto, text: CIPHER_FAILURE@ }),
            Some(plain) => Ok(utf8_lossy_text(plain)),
        },
    }
}

/// Encrypts `plain` and encodes the ciphertext as base64. What comes out is opened to
/// `plain` again, read as text, under the same key and nonce.
pub fn seal_text(plain: &[u8], key: &[u8], nonce: &[u8]) -> (result: Result<String, CmdipassError>)
    ensures
        result is Ok <==> material_fits(key@, nonce@),
        result matches Ok(text) ==> {
            &&& text@ == sealed_text(plain@, key@, nonce@)
            &&& opened_text(text@, key@, nonce@) == Ok::<Seq<char>, Failure>(
                utf8_lossy_text(plain@),
            )
        },
        result matches Err(e) ==> e.has(ErrorKind::Crypto, CIPHER_FAILURE@),
{
    match encrypt(plain, key, nonce) {
        Ok(ciphertext) => Ok(encode(ciphertext.as_slice())),
        Err(e) => Err(e),
    }
}

/// Undoes `seal_text` on one field and reads the plaintext as text.
pub fn open_text(field: &str, key: &[u8], nonce: &[u8]) -> (result: Result<String, CmdipassError>)
    ensures
        result matches Ok(text) ==> opened_text(field@, key@, nonce@) == Ok::<Seq<char>, Failure>(
            text@,
        ),
        result matches Err(e) ==> opened_text(field@, key@, nonce@) == Err::<Seq<char>, Failure>(
            e@,
        ),
{
    match decode(field) {
        None => Err(CmdipassError::new(ErrorKind::Protocol, BAD_FIELD)),
        Some(ciphertext) => match decrypt(ciphertext.as_slice(), key, nonce) {
            Err(e) => Err(e),
            Ok(plain) => Ok(text_lossy(plain.as_slice())),
        },
    }
}

/// The request that asks the helper to associate with a new key.
#[derive(Debug)]
pub struct AssociateRequest {
    pub request_type: String,
    pub key: String,
    pub nonce: String,
    pub verifier: String,
}

impl AssociateRequest {
    /// Whether this is the request that introduces `key` under `nonce`.
    pub open spec fn is_for(&self, key: Seq<u8>, nonce: Seq<u8>) -> bool {
        &&& self.request_type@ == "associate"@
        &&& self.key@ == base64_text(key)
        &&& base64_bytes(self.key@) == Some(key)
        &&& self.nonce@ == base64_text(nonce)
        &&& self.verifier@ == verifier_text(key, nonce)
    }

    /// Whether this is the request that introduces some key of 32 bytes under some nonce of
    /// 16 bytes.
    pub open spec fn is_fresh(&self) -> bool {
        exists|key: Seq<u8>, nonce: Seq<u8>|
            material_fits(key, nonce) && #[trigger] self.is_for(key, nonce)
    }

    /// The request for a key of 32 bytes and a nonce of 16 bytes that the caller has drawn.
    pub fn with_material(key: &[u8], nonce: &[u8]) -> (result: Result<
        AssociateRequest,
        CmdipassError,
    >)
        ensures
            result is Ok <==> material_fits(key@, nonce@),
            result matches Ok(request) ==> request.is_for(key@, nonce@),
            result matches Err(e) ==> e.has(ErrorKind::Crypto, CIPHER_FAILURE@),
    {
        let nonce_b64 = encode(nonce);
        let verifier = seal_text(nonce_b64.as_str().as_bytes(), key, nonce)?;
        Ok(
            AssociateRequest {
                request_type: String::from_str("associate"),
                key: encode(key),
                nonce: nonce_b64,
                verifier,
            },
        )
    }

    /// Draws a fresh key and a fresh nonce, and phrases the request for them.
    pub fn new() -> (result: Result<AssociateRequest, CmdipassError>)
        ensures
            result matches Ok(request) ==> request.is_fresh(),
            result matches Err(e) ==> e.has(ErrorKind::Crypto, NO_RANDOMNESS@),
    {
        let key = random_bytes(KEY_LENGTH)?;
        let nonce = random_bytes(NONCE_LENGTH)?;
        let result = AssociateRequest::with_material(key.as_slice(), nonce.as_slice());
        proof {
            if result is Ok {
                assert(result->Ok_0.is_for(key@, nonce@));
            }
        }
        result
    }
}

/// What the helper answers to an `AssociateRequest`.
#[derive(Debug)]
pub struct AssociateResponse {
    pub success: bool,
    pub id: Option<String>,
}

/// The association that the helper's answer makes of the key that was introduced, or the
/// failure: a declined request, or an accepted one without an id.
pub open spec fn association_result(key: Seq<char>, success: bool, id: Option<Seq<char>>) -> Result<
    ConfigView,
    Failure,
> {
    if !success {
        Err(Failure { kind: ErrorKind::AssociationRejected, text: ASSOCIATION_REJECTED@ })
    } else {
        match id {
            Some(id) => Ok(ConfigView { key, id }),
            None => Err(Failure { kind: ErrorKind::Protocol, text: NO_ID@ }),
        }
    }
}

/// Reads the helper's answer to `request`: where it accepted and named an id, the
/// association is the request's key with that id.
pub fn associate(request: &AssociateRequest, response: &AssociateResponse) -> (result: Result<
    Config,
    CmdipassError,
>)
    ensures
        result matches Ok(config) ==> association_result(
            request.key@,
            response.success,
            text_view(response.id),
        ) == Ok::<ConfigView, Failure>(config@),
        result matches Err(e) ==> association_result(
            request.key@,
            response.success,
            text_view(response.id),
        ) == Err::<ConfigView, Failure>(e@),
{
    if response.success {
        match &response.id {
            Some(id) => Ok(Config { key: request.key.clone(), id: id.clone() }),
            None => Err(CmdipassError::new(ErrorKind::Protocol, NO_ID)),
        }
    } else {
        Err(CmdipassError::new(ErrorKind::AssociationRejected, ASSOCIATION_REJECTED))
    }
}

/// The request that asks the helper whether it knows an association.
#[derive(Debug)]
pub struct TestAssociateRequest {
    pub nonce: String,
    pub verifier: String,
    pub request_type: String,
    pub id: String,
}

/// The class of the failure of a request for `config` under `nonce`, if it fails: the stored
/// key is not base64, or the cipher refuses the key or the nonce.
pub open spec fn request_failure(config: ConfigView, nonce: Seq<u8>) -> Option<Failure> {
    match base64_bytes(config.key) {
        None => Some(Failure { kind: ErrorKind::Config, text: BAD_STORED_KEY@ }),
        Some(key) => if material_fits(key, nonce) {
            None
        } else {
            Some(Failure { kind: ErrorKind::Crypto, text: CIPHER_FAILURE@ })
        },
    }
}

/// Whether `failure` is one that a fresh request for `config` can end in: a stored key
/// that is no base64, a stored key of another length than the cipher takes, or a system
/// without randomness.
pub open spec fn drawing_fails_with(config: ConfigView, failure: Failure) -> bool {
    match base64_bytes(config.key) {
        None => failure == (Failure { kind: ErrorKind::Config, text: BAD_STORED_KEY@ }),
        Some(key) => failure == (Failure { kind: ErrorKind::Crypto, text: NO_RANDOMNESS@ }) || (
        key.len() != KEY_LENGTH && failure == (Failure {
            kind: ErrorKind::Crypto,
            text: CIPHER_FAILURE@,
        })),
    }
}

/// Whether the stored key of `config` is base64 of 32 bytes.
pub open spec fn key_fits(config: ConfigView) -> bool {
    base64_bytes(config.key) matches Some(key) && key.len() == KEY_LENGTH
}

/// Decodes the stored key.
fn stored_key(config: &Config) -> (result: Result<Vec<u8>, CmdipassError>)
    ensures
        result is Ok <==> base64_bytes(config.key@) is Some,
        result matches Ok(key) ==> base64_bytes(config.key@) == Some(key@),
        result matches Err(e) ==> e.has(ErrorKind::Config, BAD_STORED_KEY@),
{
    match decode(config.key.as_str()) {
        Some(key) => Ok(key),
        None => Err(CmdipassError::new(ErrorKind::Config, BAD_STORED_KEY)),
    }
}

impl TestAssociateRequest {
    /// Whether this is the request that tests `config` under `nonce`.
    pub open spec fn is_for(&self, config: ConfigView, nonce: Seq<u8>) -> bool {
        &&& self.request_type@ == "test-associate"@
        &&& self.id@ == config.id
        &&& self.nonce@ == base64_text(nonce)
        &&& base64_bytes(config.key) matches Some(key) && self.verifier@ == verifier_text(
            key,
            nonce,
        )
    }

    /// Whether this is the request that tests `config` under some nonce of 16 bytes.
    pub open spec fn is_fresh_for(&self, config: ConfigView) -> bool {
        exists|nonce: Seq<u8>| nonce.len() == NONCE_LENGTH && #[trigger] self.is_for(config, nonce)
    }

    /// The request for a nonce of 16 bytes that the caller has drawn.
    pub fn with_nonce(config: &Config, nonce: &[u8]) -> (result: Result<
        TestAssociateRequest,
        CmdipassError,
    >)
        ensures
            result is Ok <==> request_failure(config@, nonce@) is None,
            result matches Ok(request) ==> request.is_for(config@, nonce@),
            result matches Err(e) ==> request_failure(config@, nonce@) == Some(e@),
    {
        let key = stored_key(config)?;
        let nonce_b64 = encode(nonce);
        let verifier = seal_text(nonce_b64.as_str().as_bytes(), key.as_slice(), nonce)?;
        Ok(
            TestAssociateRequest {
                request_type: String::from_str("test-associate"),
                nonce: nonce_b64,
                verifier,
                id: config.id.clone(),
            },
        )
    }

    /// Draws a fresh nonce and phrases the request for it.
    pub fn new(config: &Config) -> (result: Result<TestAssociateRequest, CmdipassError>)
        ensures
            result matches Ok(request) ==> request.is_fresh_for(config@),
            result matches Err(e) ==> drawing_fails_with(config@, e@),
            !key_fits(config@) ==> result is Err,
    {
        stored_key(config)?;
        let nonce = random_bytes(NONCE_LENGTH)?;
        let result = TestAssociateRequest::with_nonce(config, nonce.as_slice());
        proof {
            if result is Ok {
                assert(result->Ok_0.is_for(config@, nonce@));
            }
        }
        result
    }
}

/// What the helper answers to a `TestAssociateRequest`.
#[derive(Debug)]
pub struct TestAssociateResponse {
    pub success: bool,
}

/// The text of the failure where the helper does not know the association kept at
/// `config_path`.
pub open spec fn config_rejected_text(config_path: Seq<char>) -> Seq<char> {
    CONFIG_REJECTED_HEAD@ + config_path + CONFIG_REJECTED_TAIL@
}

/// Reads the helper's answer to a `TestAssociateRequest`. Where it does not know the
/// association, the failure tells the user to remove the file at `config_path`.
pub fn test_associate(response: &TestAssociateResponse, config_path: &str) -> (result: Result<
    (),
    CmdipassError,
>)
    ensures
        result is Ok <==> response.success,
        result matches Err(e) ==> e.has(
            ErrorKind::ConfigRejected,
            config_rejected_text(config_path@),
        ),
{
    if response.success {
        Ok(())
    } else {
        let mut text = String::from_str(CONFIG_REJECTED_HEAD);
        text.append(config_path);
        text.append(CONFIG_REJECTED_TAIL);
        Err(CmdipassError::new(ErrorKind::ConfigRejected, text.as_str()))
    }
}

/// The request that asks the helper for the entries that match an address.
#[derive(Debug)]
pub struct GetLoginsRequest {
    pub request_type: String,
    pub id: String,
    pub nonce: String,
    pub verifier: String,
    pub url: String,
}

impl GetLoginsRequest {
    /// Whether this is the request that asks for `url` on behalf of `config` under `nonce`.
    pub open spec fn is_for(&self, config: ConfigView, url: Seq<char>, nonce: Seq<u8>) -> bool {
        &&& self.request_type@ == "get-logins"@
        &&& self.id@ == config.id
        &&& self.nonce@ == base64_text(nonce)
        &&& base64_bytes(config.key) matches Some(key) && self.verifier@ == verifier_text(
            key,
            nonce,
        ) && self.url@ == sealed_text(encode_utf8(url), key, nonce)
    }

    /// Whether this is the request that asks for `url` on behalf of `config` under some
    /// nonce of 16 bytes.
    pub open spec fn is_fresh_for(&self, config: ConfigView, url: Seq<char>) -> bool {
        exists|nonce: Seq<u8>|
            nonce.len() == NONCE_LENGTH && #[trigger] self.is_for(config, url, nonce)
    }

    /// The request for a nonce of 16 bytes that the caller has drawn.
    pub fn with_nonce(config: &Config, url: &str, nonce: &[u8]) -> (result: Result<
        GetLoginsRequest,
        CmdipassError,
    >)
        ensures
            result is Ok <==> request_failure(config@, nonce@) is None,
            result matches Ok(request) ==> request.is_for(config@, url@, nonce@),
            result matches Err(e) ==> request_failure(config@, nonce@) == Some(e@),
    {
        let key = stored_key(config)?;
        let nonce_b64 = encode(nonce);
        let verifier = seal_text(nonce_b64.as_str().as_bytes(), key.as_slice(), nonce)?;
        let sealed_url = seal_text(url.as_bytes(), key.as_slice(), nonce)?;
        Ok(
            GetLoginsRequest {
                request_type: String::from_str("get-logins"),
                nonce: nonce_b64,
                verifier,
                id: config.id.clone(),
                url: sealed_url,
            },
        )
    }

    /// Draws a fresh nonce and phrases the request for it.
    pub fn new(config: &Config, url: &str) -> (result: Result<GetLoginsRequest, CmdipassError>)
        ensures
            result matches Ok(request) ==> request.is_fresh_for(config@, url@),
            result matches Err(e) ==> drawing_fails_with(config@, e@),
            !key_fits(config@) ==> result is Err,
    {
        stored_key(config)?;
        let nonce = random_bytes(NONCE_LENGTH)?;
        let result = GetLoginsRequest::with_nonce(config, url, nonce.as_slice());
        proof {
            if result is Ok {
                assert(result->Ok_0.is_for(config@, url@, nonce@));
            }
        }
        result
    }
}

/// One entry as the helper sends it: each field encrypted on its own and encoded as base64.
#[derive(Debug)]
pub struct RawEntry {
    pub login: String,
    pub name: String,
    pub password: String,
    pub uuid: String,
}

impl View for RawEntry {
    type V = EntryView;

    open spec fn view(&self) -> EntryView {
        EntryView {
            login: self.login@,
            name: self.name@,
            password: self.password@,
            uuid: self.uuid@,
        }
    }
}

/// The entry that `raw` stands for under a key and a nonce: its fields are opened in the
/// order login, name, password, unique id, and the first failure ends the reading.
pub open spec fn opened_entry(raw: EntryView, key: Seq<u8>, nonce: Seq<u8>) -> Result<
    EntryView,
    Failure,
> {
    match opened_text(raw.login, key, nonce) {
        Err(kind) => Err(kind),
        Ok(login) => match opened_text(raw.name, key, nonce) {
            Err(kind) => Err(kind),
            Ok(name) => match opened_text(raw.password, key, nonce) {
                Err(kind) => Err(kind),
                Ok(password) => match opened_text(raw.uuid, key, nonce) {
                    Err(kind) => Err(kind),
                    Ok(uuid) => Ok(EntryView { login, name, password, uuid }),
                },
            },
        },
    }
}

/// The same, for a key and a nonce that are still base64 text: a key that is not base64 is a
/// failure of class `Config`, such a nonce one of class `Protocol`.
pub open spec fn decrypted_entry(raw: EntryView, key_b64: Seq<char>, iv_b64: Seq<char>) -> Result<
    EntryView,
    Failure,
> {
    match base64_bytes(key_b64) {
        None => Err(Failure { kind: ErrorKind::Config, text: BAD_STORED_KEY@ }),
        Some(key) => match base64_bytes(iv_b64) {
            None => Err(Failure { kind: ErrorKind::Protocol, text: BAD_NONCE@ }),
            Some(nonce) => opened_entry(raw, key, nonce),
        },
    }
}

impl RawEntry {
    /// Opens the four fields under a key and a nonce.
    pub fn open(&self, key: &[u8], nonce: &[u8]) -> (result: Result<Entry, CmdipassError>)
        ensures
            result matches Ok(entry) ==> opened_entry(self@, key@, nonce@) == Ok::<
                EntryView,
                Failure,
            >(entry@),
            result matches Err(e) ==> opened_entry(self@, key@, nonce@) == Err::<
                EntryView,
                Failure,
            >(e@),
    {
        let login = open_text(self.login.as_str(), key, nonce)?;
        let name = open_text(self.name.as_str(), key, nonce)?;
        let password = open_text(self.password.as_str(), key, nonce)?;
        let uuid = open_text(self.uuid.as_str(), key, nonce)?;
        Ok(Entry { login, name, password, uuid })
    }

    /// Opens the four fields under a key and a nonce that are given as base64 text.
    pub fn decrypt(&self, key_b64: &str, iv_b64: &str) -> (result: Result<Entry, CmdipassError>)
        ensures
            result matches Ok(entry) ==> decrypted_entry(self@, key_b64@, iv_b64@) == Ok::<
                EntryView,
                Failure,
            >(entry@),
            result matches Err(e) ==> decrypted_entry(self@, key_b64@, iv_b64@) == Err::<
                EntryView,
                Failure,
            >(e@),
    {
        match decode(key_b64) {
            None => Err(CmdipassError::new(ErrorKind::Config, BAD_STORED_KEY)),
            Some(key) => match decode(iv_b64) {
                None => Err(CmdipassError::new(ErrorKind::Protocol, BAD_NONCE)),
                Some(nonce) => self.open(key.as_slice(), nonce.as_slice()),
            },
        }
    }
}

/// What the helper answers to a `GetLoginsRequest`.
#[derive(Debug)]
pub struct GetLoginsResponse {
    pub count: u8,
    pub entries: Vec<RawEntry>,
    pub success: bool,
    pub error: Option<String>,
    pub nonce: String,
}

/// The text of the failure where the helper refuses a query with the words `reason`.
pub open spec fn rejected_text(reason: Seq<char>) -> Seq<char> {
    REJECTED_HEAD@ + reason + REJECTED_TAIL@
}

/// What the `i`th entry of an answer stands for under an association.
pub open spec fn entry_at(config: ConfigView, response: &GetLoginsResponse, i: int) -> Result<
    EntryView,
    Failure,
> {
    decrypted_entry(response.entries@[i]@, config.key, response.nonce@)
}

/// Whether `result` is what the answer `response` holds for the association `config`: the
/// opened entries in the answer's order where the helper reports success and every entry
/// can be opened; the failure of the first entry that cannot; and where the helper reports
/// a failure, that failure in its words.
pub open spec fn reads_logins(
    config: ConfigView,
    response: &GetLoginsResponse,
    result: Result<Vec<Entry>, CmdipassError>,
) -> bool {
    &&& result is Ok <==> response.success && forall|i: int|
        0 <= i < response.entries@.len() ==> (#[trigger] entry_at(config, response, i)) is Ok
    &&& result matches Ok(entries) ==> {
        &&& entries@.len() == response.entries@.len()
        &&& forall|i: int|
            0 <= i < entries@.len() ==> #[trigger] entry_at(config, response, i) == Ok::<
                EntryView,
                Failure,
            >(entries@[i]@)
    }
    &&& result matches Err(e) ==> if !response.success {
        match response.error {
            Some(reason) => e.has(ErrorKind::ServerRejection, rejected_text(reason@)),
            None => e.has(ErrorKind::Protocol, NO_REASON@),
        }
    } else {
        exists|i: int|
            {
                &&& 0 <= i < response.entries@.len()
                &&& #[trigger] entry_at(config, response, i) == Err::<EntryView, Failure>(e@)
                &&& forall|j: int| 0 <= j < i ==> (#[trigger] entry_at(config, response, j)) is Ok
            }
    }
}

/// Reads the helper's answer to a query. Where it reports success, every entry is opened
/// under the association's key and the answer's own nonce, in the answer's order; the first
/// entry that cannot be opened fails the whole. Where it reports failure, the failure
/// carries its words.
pub fn get_logins(config: &Config, response: &GetLoginsResponse) -> (result: Result<
    Vec<Entry>,
    CmdipassError,
>)
    ensures
        reads_logins(config@, response, result),
{
    if !response.success {
        return match &response.error {
            Some(reason) => {
                let mut text = String::from_str(REJECTED_HEAD);
                text.append(reason.as_str());
                text.append(REJECTED_TAIL);
                Err(CmdipassError::new(ErrorKind::ServerRejection, text.as_str()))
            },
            None => Err(CmdipassError::new(ErrorKind::Protocol, NO_REASON)),
        };
    }
    let mut entries: Vec<Entry> = Vec::new();
    let mut i: usize = 0;
    while i < response.entries.len()
        invariant
            response.success,
            i <= response.entries@.len(),
            entries@.len() == i,
            forall|j: int|
                0 <= j < i ==> #[trigger] entry_at(config@, response, j) == Ok::<
                    EntryView,
                    Failure,
                >(entries@[j]@),
        decreases response.entries@.len() - i,
    {
        match response.entries[i].decrypt(config.key.as_str(), response.nonce.as_str()) {
            Ok(entry) => {
                entries.push(entry);
            },
            Err(e) => {
                assert(entry_at(config@, response, i as int) == Err::<EntryView, Failure>(e@));
                return Err(e);
            },
        }
        i += 1;
    }
    Ok(entries)
}

/// The text of a failure of the transport whose cause reads `cause`.
pub open spec fn transport_text(cause: Seq<char>) -> Seq<char> {
    TRANSPORT_HEAD@ + cause + TRANSPORT_TAIL@
}

/// The failure that stands for a transport that could not be reached, or that answered with
/// another status than success: it names the cause and tells the user what to look at.
pub fn transport_failure(cause: &str) -> (error: CmdipassError)
    ensures
        error.has(ErrorKind::Transport, transport_text(cause@)),
{
    let mut text = String::from_str(TRANSPORT_HEAD);
    text.append(cause);
    text.append(TRANSPORT_TAIL);
    CmdipassError::new(ErrorKind::Transport, text.as_str())
}

/// Whether a status of HTTP reports success.
pub open spec fn is_success(status: u16) -> bool {
    200 <= status < 300
}

/// Decides on the status of an answer over HTTP: the body of a success, a failure of the
/// transport, which names the status, for anything else.
pub fn request(status: u16, reason: &str, body: String) -> (result: Result<String, CmdipassError>)
    ensures
        result is Ok <==> is_success(status),
        result matches Ok(text) ==> text@ == body@,
        result matches Err(e) ==> e.has(ErrorKind::Transport, transport_text(reason@)),
{
    if 200 <= status && status < 300 {
        Ok(body)
    } else {
        Err(transport_failure(reason))
    }
}

/// The client of the HTTP protocol on its way to an association: it looks at where the
/// association is kept, and then either loads it and lets the helper confirm it, or
/// introduces a fresh key and writes down what the helper makes of it.
pub enum Setup {
    Unprobed,
    Loading { path: String },
    Loaded { config: Config, path: String },
    Unassociated,
    Associated { config: Config },
    Ready { config: Config },
}

/// What a setup says at each step.
pub enum SetupView {
    Unprobed,
    Loading { path: Seq<char> },
    Loaded { config: ConfigView, path: Seq<char> },
    Unassociated,
    Associated { config: ConfigView },
    Ready { config: ConfigView },
}

impl View for Setup {
    type V = SetupView;

    open spec fn view(&self) -> SetupView {
        match *self {
            Setup::Unprobed => SetupView::Unprobed,
            Setup::Loading { path } => SetupView::Loading { path: path@ },
            Setup::Loaded { config, path } => SetupView::Loaded { config: config@, path: path@ },
            Setup::Unassociated => SetupView::Unassociated,
            Setup::Associated { config } => SetupView::Associated { config: config@ },
            Setup::Ready { config } => SetupView::Ready { config: config@ },
        }
    }
}

/// What happened outside, as the caller reports it to the client.
pub enum SetupEvent {
    /// The caller looked at the place where the association is kept, at `path`.
    Probed { probe: StoreProbe, path: String },
    /// The association that is kept was read.
    Loaded(Config),
    /// The helper answered the test of the association.
    Tested(TestAssociateResponse),
    /// The helper answered the request that introduced a key.
    Associated { request: AssociateRequest, response: AssociateResponse },
    /// The association was written to where it is kept.
    Persisted,
}

/// What an event says, as far as the setup reads it.
pub enum SetupEventView {
    Probed { probe: StoreProbe, path: Seq<char> },
    Loaded { config: ConfigView },
    Tested { success: bool },
    Associated { key: Seq<char>, success: bool, id: Option<Seq<char>> },
    Persisted,
}

impl View for SetupEvent {
    type V = SetupEventView;

    open spec fn view(&self) -> SetupEventView {
        match *self {
            SetupEvent::Probed { probe, path } => SetupEventView::Probed { probe, path: path@ },
            SetupEvent::Loaded(config) => SetupEventView::Loaded { config: config@ },
            SetupEvent::Tested(response) => SetupEventView::Tested { success: response.success },
            SetupEvent::Associated { request, response } => SetupEventView::Associated {
                key: request.key@,
                success: response.success,
                id: text_view(response.id),
            },
            SetupEvent::Persisted => SetupEventView::Persisted,
        }
    }
}

/// What the caller has to do next.
pub enum SetupAction {
    /// Look at the place where the association is kept, and report what is there.
    Probe,
    /// Read the association that is kept, and report it.
    Load,
    /// Send this request, and report the helper's answer.
    TestAssociate(TestAssociateRequest),
    /// Send this request, and report it together with the helper's answer.
    Associate(AssociateRequest),
    /// Write the association to where it is kept, and report that it is written.
    Persist,
    /// Nothing: queries can be made.
    Serve,
}

impl SetupAction {
    /// Whether the action sends anything to the helper.
    pub open spec fn sends(&self) -> bool {
        self is TestAssociate || self is Associate
    }
}

/// The client after an event, or the failure that ends the run.
///
/// What is found where the association is kept decides first: nothing, and the client has
/// to introduce a key; a file of its owner alone, and the client loads it; a file that
/// others can reach, and the run ends. A loaded association is ready once the helper knows
/// it; a new one is ready once it is written down. Every other event is out of order.
pub open spec fn set_up(setup: SetupView, event: SetupEventView) -> Result<SetupView, Failure> {
    match (setup, event) {
        (SetupView::Unprobed, SetupEventView::Probed { probe, path }) => match probe {
            StoreProbe::Absent => Ok(SetupView::Unassociated),
            StoreProbe::Present { mode } => if owner_only(mode) {
                Ok(SetupView::Loading { path })
            } else {
                Err(Failure { kind: ErrorKind::Config, text: permissions_text(mode, path) })
            },
        },
        (SetupView::Loading { path }, SetupEventView::Loaded { config }) => Ok(
            SetupView::Loaded { config, path },
        ),
        (SetupView::Loaded { config, path }, SetupEventView::Tested { success }) => if success {
            Ok(SetupView::Ready { config })
        } else {
            Err(Failure { kind: ErrorKind::ConfigRejected, text: config_rejected_text(path) })
        },
        (SetupView::Unassociated, SetupEventView::Associated { key, success, id }) => {
            match association_result(key, success, id) {
                Ok(config) => Ok(SetupView::Associated { config }),
                Err(failure) => Err(failure),
            }
        },
        (SetupView::Associated { config }, SetupEventView::Persisted) => Ok(
            SetupView::Ready { config },
        ),
        _ => Err(Failure { kind: ErrorKind::Protocol, text: OUT_OF_ORDER@ }),
    }
}

/// What the caller is told to do at a step, but for the fresh key and nonce in a request.
pub open spec fn offers(setup: SetupView, action: SetupAction) -> bool {
    match setup {
        SetupView::Unprobed => action is Probe,
        SetupView::Loading { .. } => action is Load,
        SetupView::Loaded { config, .. } => action matches SetupAction::TestAssociate(request)
            && request.is_fresh_for(config),
        SetupView::Unassociated => action matches SetupAction::Associate(request)
            && request.is_fresh(),
        SetupView::Associated { .. } => action is Persist,
        SetupView::Ready { .. } => action is Serve,
    }
}

impl Setup {
    /// The client at its start.
    pub fn new() -> (setup: Setup)
        ensures
            setup@ is Unprobed,
    {
        Setup::Unprobed
    }

    /// What the caller has to do at this step. A request carries fresh material, of which
    /// nothing is known; the failure is that of a stored key that is no key, or of a system
    /// without randomness.
    pub fn action(&self) -> (result: Result<SetupAction, CmdipassError>)
        ensures
            result matches Ok(action) ==> offers(self@, action),
            result matches Err(e) ==> match self@ {
                SetupView::Loaded { config, .. } => drawing_fails_with(config, e@),
                SetupView::Unassociated => e.has(ErrorKind::Crypto, NO_RANDOMNESS@),
                _ => false,
            },
            self@ matches SetupView::Loaded { config, .. } ==> (!key_fits(config)
                ==> result is Err),
    {
        match self {
            Setup::Unprobed => Ok(SetupAction::Probe),
            Setup::Loading { .. } => Ok(SetupAction::Load),
            Setup::Loaded { config, .. } => {
                let request = TestAssociateRequest::new(config)?;
                Ok(SetupAction::TestAssociate(request))
            },
            Setup::Unassociated => {
                let request = AssociateRequest::new()?;
                Ok(SetupAction::Associate(request))
            },
            Setup::Associated { .. } => Ok(SetupAction::Persist),
            Setup::Ready { .. } => Ok(SetupAction::Serve),
        }
    }

    /// The association, once there is one.
    pub fn config(&self) -> (config: Option<&Config>)
        ensures
            match self@ {
                SetupView::Loaded { config: c, .. } => config matches Some(r) && r@ == c,
                SetupView::Associated { config: c } => config matches Some(r) && r@ == c,
                SetupView::Ready { config: c } => config matches Some(r) && r@ == c,
                _ => config is None,
            },
    {
        match self {
            Setup::Loaded { config, .. } => Some(config),
            Setup::Associated { config } => Some(config),
            Setup::Ready { config } => Some(config),
            _ => None,
        }
    }

    /// Takes the client on by one event.
    pub fn advance(self, event: SetupEvent) -> (result: Result<Setup, CmdipassError>)
        ensures
            result matches Ok(next) ==> set_up(self@, event@) == Ok::<SetupView, Failure>(next@),
            result matches Err(e) ==> set_up(self@, event@) == Err::<SetupView, Failure>(e@),
    {
        match (self, event) {
            (Setup::Unprobed, SetupEvent::Probed { probe, path }) => {
                match load_config(&probe, path.as_str())? {
                    StoreDecision::Register => Ok(Setup::Unassociated),
                    StoreDecision::Load => Ok(Setup::Loading { path }),
                }
            },
            (Setup::Loading { path }, SetupEvent::Loaded(config)) => Ok(
                Setup::Loaded { config, path },
            ),
            (Setup::Loaded { config, path }, SetupEvent::Tested(response)) => {
                test_associate(&response, path.as_str())?;
                Ok(Setup::Ready { config })
            },
            (Setup::Unassociated, SetupEvent::Associated { request, response }) => {
                let config = associate(&request, &response)?;
                Ok(Setup::Associated { config })
            },
            (Setup::Associated { config }, SetupEvent::Persisted) => Ok(Setup::Ready { config }),
            _ => Err(CmdipassError::new(ErrorKind::Protocol, OUT_OF_ORDER)),
        }
    }

    /// The client that a finished setup leaves; a failure of class `Protocol` where the
    /// setup is not finished.
    pub fn finish(self) -> (result: Result<KeePassHttp, CmdipassError>)
        ensures
            result is Ok <==> self@ is Ready,
            result matches Ok(client) ==> self@ matches SetupView::Ready { config }
                && client.spec_config()@ == config,
            result matches Err(e) ==> e.has(ErrorKind::Protocol, NOT_READY@),
    {
        match self {
            Setup::Ready { config } => Ok(KeePassHttp::new(config)),
            _ => Err(CmdipassError::new(ErrorKind::Protocol, NOT_READY)),
        }
    }
}

/// A file that its group or the world can read ends the run with a failure of class
/// `Config`, and it does so at the first step: before that step the client offers nothing
/// to send, so nothing has gone to the helper.
pub proof fn lemma_open_store_ends_the_run_before_anything_is_sent(
    mode: u32,
    path: Seq<char>,
    action: SetupAction,
)
    requires
        mode & 0o044 != 0,
        offers(SetupView::Unprobed, action),
    ensures
        !action.sends(),
        set_up(
            SetupView::Unprobed,
            SetupEventView::Probed { probe: StoreProbe::Present { mode }, path },
        ) == Err::<SetupView, Failure>(
            Failure { kind: ErrorKind::Config, text: permissions_text(mode, path) },
        ),
{
    lemma_readable_by_others_is_refused(mode);
}

/// Nothing is sent to the helper before the place where the association is kept has been
/// looked at, and a kept association has been loaded.
pub proof fn lemma_nothing_is_sent_before_the_store_is_read(setup: SetupView, action: SetupAction)
    requires
        setup is Unprobed || setup is Loading,
        offers(setup, action),
    ensures
        !action.sends(),
{
}

/// A client is ready only for an association that the helper has confirmed in this run, or
/// that the helper has just made and that is written down.
pub proof fn lemma_ready_only_by_confirmation(setup: SetupView, event: SetupEventView)
    requires
        set_up(setup, event) matches Ok(next) && next is Ready,
    ensures
        (setup matches SetupView::Loaded { config, .. } && event == (SetupEventView::Tested {
            success: true,
        }) && set_up(setup, event) == Ok::<SetupView, Failure>(SetupView::Ready { config }))
            || (setup matches SetupView::Associated { config } && event is Persisted && set_up(
            setup,
            event,
        ) == Ok::<SetupView, Failure>(SetupView::Ready { config })),
{
}

/// The client of the HTTP protocol, once it holds an association.
#[derive(Debug)]
pub struct KeePassHttp {
    config: Config,
}

impl KeePassHttp {
    pub closed spec fn spec_config(&self) -> Config {
        self.config
    }

    /// The client for an association that was loaded or just made.
    pub fn new(config: Config) -> (client: KeePassHttp)
        ensures
            client.spec_config() == config,
    {
        KeePassHttp { config }
    }

    pub fn config(&self) -> (config: &Config)
        ensures
            *config == self.spec_config(),
    {
        &self.config
    }
}

impl KeePassBackend for KeePassHttp {
    type Query = GetLoginsRequest;

    type Answer = GetLoginsResponse;

    fn query(&self, search_string: &str) -> (result: Result<GetLoginsRequest, CmdipassError>)
        ensures
            result matches Ok(request) ==> request.is_fresh_for(
                self.spec_config()@,
                search_string@,
            ),
            result matches Err(e) ==> drawing_fails_with(self.spec_config()@, e@),
            !key_fits(self.spec_config()@) ==> result is Err,
    {
        GetLoginsRequest::new(&self.config, search_string)
    }

    fn get_entries(&self, answer: &GetLoginsResponse) -> (result: Result<Vec<Entry>, CmdipassError>)
        ensures
            reads_logins(self.spec_config()@, answer, result),
    {
        get_logins(&self.config, answer)
    }
}

} // verus!
