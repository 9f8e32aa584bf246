use vstd::prelude::*;
use vstd::utf8::{decode_utf8, valid_utf8};
use crate::encoding::{
    base64_bytes, base64_text, decode, encode, random_bytes, text_lossy, text_strict, text_view,
    utf8_lossy_text, NO_RANDOMNESS,
};
use crate::error::{CmdipassError, ErrorKind, Failure};
use crate::keepass::Entry;
use crate::keepassxcbrowser::{association, Config};
use crate::sealed::{
    array_of, box_opened, box_public_key, box_sealed, gen_nonce, open, seal, seals, usable,
    Nonce, PublicKey, SecretKey, KEY_LENGTH, NONCE_LENGTH, SEAL_FAILED,
};

verus! {

/// Length of the id that a client gives itself for one run, in bytes.
pub const CLIENT_ID_LENGTH: usize = 24;

/// Text of the failure where the helper's public key is not base64.
pub const BAD_PUBLIC_KEY: &'static str = "Could not parse server's public key: invalid base64";

/// Text of the failure where the helper's public key has another length than 32 bytes.
pub const BAD_PUBLIC_KEY_SIZE: &'static str = "Could not parse server's public key: incorrect size";

/// Text of the failure where the helper's nonce is not base64.
pub const BAD_NONCE: &'static str = "Failed to parse nonce from server: invalid base64";

/// Text of the failure where the helper's nonce has another length than 24 bytes.
pub const BAD_NONCE_SIZE: &'static str = "Failed to parse nonce from server: incorrect size";

/// Text of the failure where an answer holds neither a message nor an error.
pub const NO_MESSAGE: &'static str =
    "Neither message nor error was present in the response from the server. Protocol error?";

/// Text of the failure where an answer holds a message and no nonce to open it with.
pub const NO_NONCE: &'static str = "A message was present in the response from the server, but no nonce.";

/// Text of the failure where the message of an answer is not base64.
pub const BAD_MESSAGE: &'static str = "The message in the response from the server is not valid base64.";

/// Text of the failure where a message does not authenticate.
pub const VERIFICATION_FAILED: &'static str =
    "Verification of server message failed. Broken protocol implementation or interception attempt has occurred.";

/// Text of the failure where an opened message is not text.
pub const NOT_TEXT: &'static str = "The message from the server is not valid UTF-8.";

/// Between the action and the helper's own words, where the helper reports a failure.
pub const ACTION_FAILED: &'static str = " action failed: ";

/// The id that a client gives itself for one run.
#[derive(Clone, Copy, Debug)]
pub struct ClientId {
    bytes: [u8; 24],
}

impl View for ClientId {
    type V = Seq<u8>;

    closed spec fn view(&self) -> Seq<u8> {
        self.bytes@
    }
}

impl ClientId {
    /// The id that these 24 bytes are.
    pub fn from_bytes(bytes: [u8; 24]) -> (id: ClientId)
        ensures
            id@ == bytes@,
    {
        ClientId { bytes }
    }

    /// Draws a fresh id. Nothing is known of its bytes; the failure is that of a system
    /// without randomness.
    pub fn new() -> (result: Result<ClientId, CmdipassError>)
        ensures
            result matches Err(e) ==> e.has(ErrorKind::Crypto, NO_RANDOMNESS@),
    {
        let bytes = random_bytes(CLIENT_ID_LENGTH)?;
        Ok(ClientId { bytes: array_of::<24>(bytes.as_slice()) })
    }

    pub fn as_bytes(&self) -> (bytes: &[u8])
        ensures
            bytes@ == self@,
            bytes@.len() == CLIENT_ID_LENGTH,
    {
        self.bytes.as_slice()
    }

    /// The base64 text under which the id goes over the wire.
    pub fn serialize(&self) -> (text: String)
        ensures
            text@ == base64_text(self@),
    {
        encode(self.bytes.as_slice())
    }
}

/// What a nonce on the wire stands for: none where none was sent, and the class and text of
/// the failure where what was sent is no nonce.
pub open spec fn optional_nonce(text: Option<Seq<char>>) -> Result<
    Option<Seq<u8>>,
    Failure,
> {
    match text {
        None => Ok(None),
        Some(text) => match base64_bytes(text) {
            None => Err(Failure { kind: ErrorKind::Protocol, text: BAD_NONCE@ }),
            Some(bytes) => if bytes.len() == NONCE_LENGTH {
                Ok(Some(bytes))
            } else {
                Err(Failure { kind: ErrorKind::Protocol, text: BAD_NONCE_SIZE@ })
            },
        },
    }
}

/// What the nonce of an envelope on the wire stands for: none beside a failure in the
/// helper's own words, and else what `optional_nonce` makes of it.
pub open spec fn wire_nonce(error: Option<Seq<char>>, nonce: Option<Seq<char>>) -> Result<
    Option<Seq<u8>>,
    Failure,
> {
    if error is Some {
        Ok(None)
    } else {
        optional_nonce(nonce)
    }
}

/// The view of an optional nonce.
pub open spec fn nonce_view(nonce: Option<Nonce>) -> Option<Seq<u8>> {
    match nonce {
        Some(n) => Some(n@),
        None => None,
    }
}

/// Reads the nonce of an answer, which may be absent. A nonce that is not base64, or not 24
/// bytes long, is a failure of class `Protocol`.
pub fn deserialize_optional_nonce(text: &Option<String>) -> (result: Result<
    Option<Nonce>,
    CmdipassError,
>)
    ensures
        result matches Ok(nonce) ==> optional_nonce(text_view(*text)) == Ok::<
            Option<Seq<u8>>,
            Failure,
        >(nonce_view(nonce)),
        result matches Err(e) ==> optional_nonce(text_view(*text)) matches Err(f) && e@ == f,
{
    match text {
        None => Ok(None),
        Some(s) => match decode(s.as_str()) {
            None => Err(CmdipassError::new(ErrorKind::Protocol, BAD_NONCE)),
            Some(raw) => match Nonce::from_slice(raw.as_slice()) {
                Some(nonce) => Ok(Some(nonce)),
                None => Err(CmdipassError::new(ErrorKind::Protocol, BAD_NONCE_SIZE)),
            },
        },
    }
}

/// What the three payloads that go out sealed have in common.
pub trait Request {
    /// The action that the payload names.
    spec fn spec_action(&self) -> Seq<char>;

    /// The action that the helper is asked for.
    fn action(&self) -> (action: String)
        ensures
            action@ == self.spec_action(),
    ;
}

/// The request that opens every run: it tells the helper this client's public key and id,
/// in the clear.
#[derive(Debug)]
pub struct ChangePublicKeysRequest {
    pub action: String,
    pub public_key: PublicKey,
    pub nonce: Nonce,
    pub client_id: ClientId,
}

impl ChangePublicKeysRequest {
    /// Whether this is the request of the holder of `public_key` that calls itself
    /// `client_id`.
    pub open spec fn is_for(&self, public_key: Seq<u8>, client_id: Seq<u8>) -> bool {
        &&& self.action@ == "change-public-keys"@
        &&& self.public_key@ == public_key
        &&& self.client_id@ == client_id
    }

    /// The request with a nonce that the caller has drawn.
    pub fn with_nonce(our_public_key: &PublicKey, client_id: &ClientId, nonce: Nonce) -> (request:
        ChangePublicKeysRequest)
        ensures
            request.is_for(our_public_key@, client_id@),
            request.nonce@ == nonce@,
    {
        ChangePublicKeysRequest {
            action: String::from_str("change-public-keys"),
            public_key: *our_public_key,
            nonce,
            client_id: *client_id,
        }
    }

    /// The request with a fresh nonce.
    pub fn new(our_public_key: &PublicKey, client_id: &ClientId) -> (request:
        ChangePublicKeysRequest)
        ensures
            request.is_for(our_public_key@, client_id@),
    {
        let nonce = gen_nonce();
        ChangePublicKeysRequest::with_nonce(our_public_key, client_id, nonce)
    }
}

/// What the helper answers to a `ChangePublicKeysRequest`: its own public key, as base64.
#[derive(Debug)]
pub struct ChangePublicKeysResponse {
    pub public_key: String,
}

/// What the helper's public key on the wire stands for.
pub open spec fn server_public_key(text: Seq<char>) -> Result<Seq<u8>, Failure> {
    match base64_bytes(text) {
        None => Err(Failure { kind: ErrorKind::Protocol, text: BAD_PUBLIC_KEY@ }),
        Some(bytes) => if bytes.len() == KEY_LENGTH {
            Ok(bytes)
        } else {
            Err(Failure { kind: ErrorKind::Protocol, text: BAD_PUBLIC_KEY_SIZE@ })
        },
    }
}

/// Reads the helper's public key out of its answer. A key that is not base64, or not 32
/// bytes long, is a failure of class `Protocol`.
pub fn get_server_public_key(response: &ChangePublicKeysResponse) -> (result: Result<
    PublicKey,
    CmdipassError,
>)
    ensures
        result matches Ok(key) ==> server_public_key(response.public_key@) == Ok::<
            Seq<u8>,
            Failure,
        >(key@),
        result matches Err(e) ==> server_public_key(response.public_key@) matches Err(f) && e@ == f,
{
    match decode(response.public_key.as_str()) {
        None => Err(CmdipassError::new(ErrorKind::Protocol, BAD_PUBLIC_KEY)),
        Some(raw) => match PublicKey::from_slice(raw.as_slice()) {
            Some(key) => Ok(key),
            None => Err(CmdipassError::new(ErrorKind::Protocol, BAD_PUBLIC_KEY_SIZE)),
        },
    }
}

/// What one run shares with the helper: this client's secret key, the helper's public key
/// for this run, and the id that the client gave itself.
pub struct Session {
    our_secret_key: SecretKey,
    server_public_key: PublicKey,
    client_id: ClientId,
}

/// What a session says: the bytes of its two keys and of its id.
pub struct SessionView {
    pub our_secret_key: Seq<u8>,
    pub server_public_key: Seq<u8>,
    pub client_id: Seq<u8>,
}

impl View for Session {
    type V = SessionView;

    closed spec fn view(&self) -> SessionView {
        SessionView {
            our_secret_key: self.our_secret_key@,
            server_public_key: self.server_public_key@,
            client_id: self.client_id@,
        }
    }
}

impl Session {
    /// The session of the holder of `our_secret_key`, under the id `client_id`, with the
    /// helper whose answer to the exchange of keys is `response`.
    pub fn new(
        our_secret_key: SecretKey,
        client_id: ClientId,
        response: &ChangePublicKeysResponse,
    ) -> (result: Result<Session, CmdipassError>)
        ensures
            result matches Ok(session) ==> server_public_key(response.public_key@) == Ok::<
                Seq<u8>,
                Failure,
            >(session@.server_public_key) && session@.our_secret_key == our_secret_key@
                && session@.client_id == client_id@,
            result matches Err(e) ==> server_public_key(response.public_key@) matches Err(f)
                && e@ == f,
    {
        let server_public_key = get_server_public_key(response)?;
        Ok(Session { our_secret_key, server_public_key, client_id })
    }

    pub fn our_secret_key(&self) -> (key: &SecretKey)
        ensures
            key@ == self@.our_secret_key,
    {
        &self.our_secret_key
    }

    pub fn server_public_key(&self) -> (key: &PublicKey)
        ensures
            key@ == self@.server_public_key,
    {
        &self.server_public_key
    }

    pub fn client_id(&self) -> (id: &ClientId)
        ensures
            id@ == self@.client_id,
    {
        &self.client_id
    }
}

/// The payload that asks the helper to associate with this client's public key.
#[derive(Debug)]
pub struct AssociateRequest {
    pub action: String,
    pub our_public_key: PublicKey,
}

impl AssociateRequest {
    pub fn new(our_public_key: &PublicKey) -> (request: AssociateRequest)
        ensures
            request.action@ == "associate"@,
            request.our_public_key@ == our_public_key@,
    {
        AssociateRequest { action: String::from_str("associate"), our_public_key: *our_public_key }
    }
}

impl Request for AssociateRequest {
    open spec fn spec_action(&self) -> Seq<char> {
        self.action@
    }

    fn action(&self) -> (action: String) {
        self.action.clone()
    }
}

/// What the helper answers to an `AssociateRequest`: the id of the association.
#[derive(Debug)]
pub struct AssociateResponse {
    pub id: String,
}

/// The association that the helper's answer makes: the session's secret key under the id
/// that the helper gave.
pub fn associate(session: &Session, response: AssociateResponse) -> (config: Config)
    ensures
        config@ == association(session@.our_secret_key, response.id@),
{
    Config::new(session.our_secret_key, response.id)
}

/// The payload that asks the helper whether it knows an association.
#[derive(Debug)]
pub struct TestAssociateRequest {
    pub action: String,
    pub id: String,
    pub our_public_key: PublicKey,
}

impl TestAssociateRequest {
    /// The payload that tests the association `config`.
    pub fn new(config: &Config) -> (request: TestAssociateRequest)
        ensures
            request.action@ == "test-associate"@,
            request.id@ == config@.id,
            request.our_public_key@ == box_public_key(config@.our_secret_key),
    {
        TestAssociateRequest {
            action: String::from_str("test-associate"),
            id: String::from_str(config.id()),
            our_public_key: config.our_secret_key().public_key(),
        }
    }
}

impl Request for TestAssociateRequest {
    open spec fn spec_action(&self) -> Seq<char> {
        self.action@
    }

    fn action(&self) -> (action: String) {
        self.action.clone()
    }
}

/// What the helper answers to a `TestAssociateRequest`.
#[derive(Debug)]
pub struct TestAssociateResponse {
    pub id: String,
}

/// The session that the helper's confirmation leaves: the same one, now fit for queries.
/// That the answer could be opened at all is the confirmation; the id it names is not
/// compared.
pub fn test_associate(session: Session, response: &TestAssociateResponse) -> (ready: Session)
    ensures
        ready@ == session@,
{
    session
}

/// The payload that asks the helper for the entries that match an address.
#[derive(Debug)]
pub struct GetEntriesRequest {
    pub action: String,
    pub url: String,
}

impl GetEntriesRequest {
    pub fn new(search_string: &str) -> (request: GetEntriesRequest)
        ensures
            request.action@ == "get-logins"@,
            request.url@ == search_string@,
    {
        GetEntriesRequest {
            action: String::from_str("get-logins"),
            url: String::from_str(search_string),
        }
    }
}

impl Request for GetEntriesRequest {
    open spec fn spec_action(&self) -> Seq<char> {
        self.action@
    }

    fn action(&self) -> (action: String) {
        self.action.clone()
    }
}

/// What the helper answers to a `GetEntriesRequest`, once opened.
#[derive(Debug)]
pub struct GetEntriesResponse {
    pub entries: Vec<Entry>,
}

/// Hands out the entries of an opened answer, in its order.
pub fn get_entries(response: &GetEntriesResponse) -> (entries: Vec<Entry>)
    ensures
        entries@.len() == response.entries@.len(),
        forall|i: int| 0 <= i < entries@.len() ==> entries@[i]@ == response.entries@[i]@,
{
    let mut entries: Vec<Entry> = Vec::new();
    let mut i: usize = 0;
    while i < response.entries.len()
        invariant
            i <= response.entries@.len(),
            entries@.len() == i,
            forall|j: int| 0 <= j < i ==> entries@[j]@ == response.entries@[j]@,
        decreases response.entries@.len() - i,
    {
        let entry = &response.entries[i];
        entries.push(
            Entry {
                login: entry.login.clone(),
                name: entry.name.clone(),
                password: entry.password.clone(),
                uuid: entry.uuid.clone(),
            },
        );
        i += 1;
    }
    entries
}

/// The envelope in which a sealed payload goes to the helper.
#[derive(Debug)]
pub struct EncryptedRequest {
    pub action: String,
    pub message: String,
    pub nonce: Nonce,
    pub client_id: ClientId,
}

/// The envelope in which the helper answers: a failure in its own words, or a sealed
/// message with the nonce that opens it.
#[derive(Debug)]
pub struct EncryptedResponse {
    pub action: String,
    pub error: Option<String>,
    pub message: Option<String>,
    pub nonce: Option<Nonce>,
}

impl EncryptedResponse {
    /// The envelope for the four fields as they stand on the wire. Where the helper reports
    /// a failure in its own words, the nonce is not looked at. Else a nonce that is no
    /// nonce fails the whole envelope.
    pub fn from_wire(
        action: String,
        error: Option<String>,
        message: Option<String>,
        nonce: &Option<String>,
    ) -> (result: Result<EncryptedResponse, CmdipassError>)
        ensures
            result matches Ok(response) ==> {
                &&& response.action == action
                &&& response.error == error
                &&& response.message == message
                &&& wire_nonce(text_view(error), text_view(*nonce)) == Ok::<
                    Option<Seq<u8>>,
                    Failure,
                >(nonce_view(response.nonce))
            },
            result matches Err(e) ==> wire_nonce(text_view(error), text_view(*nonce)) == Err::<
                Option<Seq<u8>>,
                Failure,
            >(e@),
            error is Some ==> result is Ok,
            error is None ==> ((*nonce matches Some(text) && base64_bytes(text@) is None) ==> (
            result matches Err(e) && e.has(ErrorKind::Protocol, BAD_NONCE@))),
    {
        let nonce = if error.is_some() {
            None
        } else {
            deserialize_optional_nonce(nonce)?
        };
        Ok(EncryptedResponse { action, error, message, nonce })
    }
}

/// The text of what was read from the helper: the first `length` bytes of `buffer`, with
/// whatever is not valid UTF-8 replaced. `None` where `length` is more than was there to
/// read into.
pub fn raw_response(buffer: &[u8], length: usize) -> (text: Option<String>)
    ensures
        text is Some <==> length <= buffer@.len(),
        text matches Some(t) ==> t@ == utf8_lossy_text(buffer@.subrange(0, length as int)),
{
    if length <= buffer.len() {
        Some(text_lossy(vstd::slice::slice_subrange(buffer, 0, length)))
    } else {
        None
    }
}

/// The message of the envelope that carries `plaintext` for `session` under `nonce`.
pub open spec fn sealed_message(session: SessionView, plaintext: Seq<u8>, nonce: Seq<u8>) -> Seq<
    char,
> {
    base64_text(box_sealed(plaintext, nonce, session.server_public_key, session.our_secret_key))
}

/// Whether `request` is the envelope that carries `plaintext` for `session` under the
/// request's nonce, as `action`: its message is the base64 text of the sealed payload,
/// which is 16 bytes longer than the payload and which the helper, holding the secret key
/// of the session's server key, opens to `plaintext` again.
pub open spec fn carries(
    request: EncryptedRequest,
    session: SessionView,
    action: Seq<char>,
    plaintext: Seq<u8>,
) -> bool {
    let sealed = box_sealed(
        plaintext,
        request.nonce@,
        session.server_public_key,
        session.our_secret_key,
    );
    &&& request.action@ == action
    &&& request.client_id@ == session.client_id
    &&& request.message@ == sealed_message(session, plaintext, request.nonce@)
    &&& base64_bytes(request.message@) == Some(sealed)
    &&& seals(
        sealed,
        plaintext,
        request.nonce@,
        session.server_public_key,
        session.our_secret_key,
    )
}

/// Seals a payload, already written out as `plaintext`, under a nonce that the caller has
/// drawn, and puts it into its envelope. For a helper's key that is the public key of some
/// secret key this succeeds. Where the outside library cannot seal for the helper's public
/// key, which came unauthenticated, nothing is sent and the failure is of class `Crypto`.
pub fn encrypt_request_with(session: &Session, action: &str, plaintext: &[u8], nonce: Nonce) -> (result:
    Result<EncryptedRequest, CmdipassError>)
    ensures
        usable(session@.server_public_key) ==> result is Ok,
        result matches Ok(request) ==> request.nonce@ == nonce@ && carries(
            request,
            session@,
            action@,
            plaintext@,
        ),
        result matches Err(e) ==> e.has(ErrorKind::Crypto, SEAL_FAILED@),
{
    let encrypted_message = seal(
        plaintext,
        &nonce,
        &session.server_public_key,
        &session.our_secret_key,
    )?;
    let escaped_ciphertext = encode(encrypted_message.as_slice());
    Ok(
        EncryptedRequest {
            action: String::from_str(action),
            client_id: session.client_id,
            nonce,
            message: escaped_ciphertext,
        },
    )
}

/// Seals the payload `request`, already written out as `plaintext`, under a fresh nonce,
/// and puts it into an envelope that names the payload's action. For a helper's key that is
/// the public key of some secret key this succeeds.
pub fn encrypt_request<Req: Request>(session: &Session, request: &Req, plaintext: &[u8]) -> (result:
    Result<EncryptedRequest, CmdipassError>)
    ensures
        usable(session@.server_public_key) ==> result is Ok,
        result matches Ok(envelope) ==> carries(
            envelope,
            session@,
            request.spec_action(),
            plaintext@,
        ),
        result matches Err(e) ==> e.has(ErrorKind::Crypto, SEAL_FAILED@),
{
    let nonce = gen_nonce();
    let action = request.action();
    encrypt_request_with(session, action.as_str(), plaintext, nonce)
}

/// The text of the failure where the helper answers `action` with the words `reason`.
pub open spec fn action_failed_text(action: Seq<char>, reason: Seq<char>) -> Seq<char> {
    action + ACTION_FAILED@ + reason
}

/// What an envelope from the helper holds for `session`: the text of the opened message, or
/// the class and text of the failure. A failure in the helper's own words comes first; then
/// a message and a nonce must be there, the message must be base64, authenticate, and be
/// valid UTF-8.
pub open spec fn opened_response(
    session: SessionView,
    action: Seq<char>,
    error: Option<Seq<char>>,
    message: Option<Seq<char>>,
    nonce: Option<Seq<u8>>,
) -> Result<Seq<char>, Failure> {
    if error is Some {
        Err(Failure { kind: ErrorKind::ServerRejection, text: action_failed_text(action, error->0) })
    } else if message is None {
        Err(Failure { kind: ErrorKind::Protocol, text: NO_MESSAGE@ })
    } else if base64_bytes(message->0) is None {
        Err(Failure { kind: ErrorKind::Protocol, text: BAD_MESSAGE@ })
    } else if nonce is None {
        Err(Failure { kind: ErrorKind::Protocol, text: NO_NONCE@ })
    } else {
        match box_opened(
            base64_bytes(message->0)->0,
            nonce->0,
            session.server_public_key,
            session.our_secret_key,
        ) {
            None => Err(Failure { kind: ErrorKind::Crypto, text: VERIFICATION_FAILED@ }),
            Some(plaintext) => if valid_utf8(plaintext) {
                Ok(decode_utf8(plaintext))
            } else {
                Err(Failure { kind: ErrorKind::Protocol, text: NOT_TEXT@ })
            },
        }
    }
}

/// A message that does not authenticate under the session's keys is refused with the
/// failure of class `Crypto`, whatever else the envelope holds beside it; no payload comes
/// out of it.
pub proof fn lemma_unauthenticated_message_is_refused(
    session: SessionView,
    action: Seq<char>,
    message: Seq<char>,
    nonce: Seq<u8>,
)
    requires
        base64_bytes(message) matches Some(sealed) && box_opened(
            sealed,
            nonce,
            session.server_public_key,
            session.our_secret_key,
        ) is None,
    ensures
        opened_response(session, action, None, Some(message), Some(nonce)) == Err::<
            Seq<char>,
            Failure,
        >(Failure { kind: ErrorKind::Crypto, text: VERIFICATION_FAILED@ }),
{
}

/// Opens an envelope from the helper and hands out the text of the payload.
pub fn decrypt_response(session: &Session, encrypted_response: &EncryptedResponse) -> (result:
    Result<String, CmdipassError>)
    ensures
        result matches Ok(text) ==> opened_response(
            session@,
            encrypted_response.action@,
            text_view(encrypted_response.error),
            text_view(encrypted_response.message),
            nonce_view(encrypted_response.nonce),
        ) == Ok::<Seq<char>, Failure>(text@),
        result matches Err(e) ==> opened_response(
            session@,
            encrypted_response.action@,
            text_view(encrypted_response.error),
            text_view(encrypted_response.message),
            nonce_view(encrypted_response.nonce),
        ) matches Err(f) && e@ == f,
{
    if let Some(failure_details) = &encrypted_response.error {
        let mut text = encrypted_response.action.clone();
        text.append(ACTION_FAILED);
        text.append(failure_details.as_str());
        return Err(CmdipassError::new(ErrorKind::ServerRejection, text.as_str()));
    }
    let message = match &encrypted_response.message {
        Some(message) => message,
        None => {
            return Err(CmdipassError::new(ErrorKind::Protocol, NO_MESSAGE));
        },
    };
    let raw_ciphertext = match decode(message.as_str()) {
        Some(raw) => raw,
        None => {
            return Err(CmdipassError::new(ErrorKind::Protocol, BAD_MESSAGE));
        },
    };
    let nonce = match &encrypted_response.nonce {
        Some(nonce) => nonce,
        None => {
            return Err(CmdipassError::new(ErrorKind::Protocol, NO_NONCE));
        },
    };
    let opened = open(
        raw_ciphertext.as_slice(),
        nonce,
        &session.server_public_key,
        &session.our_secret_key,
    );
    match opened {
        None => Err(CmdipassError::new(ErrorKind::Crypto, VERIFICATION_FAILED)),
        Some(plaintext) => match text_strict(plaintext) {
            Some(text) => Ok(text),
            None => Err(CmdipassError::new(ErrorKind::Protocol, NOT_TEXT)),
        },
    }
}

} // verus!
