use vstd::prelude::*;
use crate::config_file::{load_config, owner_only, permissions_text, StoreDecision, StoreProbe};
use crate::error::{CmdipassError, ErrorKind, Failure};
use crate::keepass::{Entry, KeePassBackend};
use crate::protocol::{
    associate, get_entries, server_public_key, test_associate, AssociateRequest, AssociateResponse, ChangePublicKeysRequest,
    ChangePublicKeysResponse, ClientId, GetEntriesRequest, GetEntriesResponse, Session,
    SessionView, TestAssociateRequest, TestAssociateResponse,
};
use crate::config_file::lemma_readable_by_others_is_refused;
use crate::encoding::NO_RANDOMNESS;
use crate::sealed::{box_public_key, gen_keypair, init, SecretKey};

verus! {

/// The name under which this protocol's association is kept.
pub const BACKEND_TYPE: &'static str = "KeePassXC-Browser";

/// Text of the failure where an answer comes at a stage that did not ask for it.
pub const OUT_OF_ORDER: &'static str = "The server's response does not belong to this stage of the handshake.";

/// Text of the failure where the client is used before the helper has confirmed the
/// association.
pub const NOT_READY: &'static str = "The association has not been confirmed by the server yet.";

/// Text of the failure where the outside library for sealed messages cannot be used.
pub const NO_SODIUM: &'static str = "The library for sealed messages could not be initialized.";

/// The association with the helper: this client's secret key, and the id that the helper
/// gave the association.
pub struct Config {
    our_secret_key: SecretKey,
    id: String,
    backend_type: String,
}

/// What an association says.
pub struct ConfigView {
    pub our_secret_key: Seq<u8>,
    pub id: Seq<char>,
    pub backend_type: Seq<char>,
}

impl View for Config {
    type V = ConfigView;

    closed spec fn view(&self) -> ConfigView {
        ConfigView {
            our_secret_key: self.our_secret_key@,
            id: self.id@,
            backend_type: self.backend_type@,
        }
    }
}

/// The association of `secret_key` under `id`.
pub open spec fn association(secret_key: Seq<u8>, id: Seq<char>) -> ConfigView {
    ConfigView { our_secret_key: secret_key, id, backend_type: BACKEND_TYPE@ }
}

impl Config {
    pub fn new(secret_key: SecretKey, id: String) -> (config: Config)
        ensures
            config@ == association(secret_key@, id@),
    {
        Config { our_secret_key: secret_key, id, backend_type: String::from_str(BACKEND_TYPE) }
    }

    pub fn our_secret_key(&self) -> (key: &SecretKey)
        ensures
            key@ == self@.our_secret_key,
    {
        &self.our_secret_key
    }

    pub fn id(&self) -> (id: &str)
        ensures
            id@ == self@.id,
    {
        self.id.as_str()
    }

    pub fn backend_type(&self) -> (name: &str)
        ensures
            name@ == self@.backend_type,
    {
        self.backend_type.as_str()
    }
}

/// How far a client has come with the helper.
#[derive(Clone, Copy, Debug, PartialEq, Eq, Structural)]
pub enum Stage {
    /// Nothing is known of the helper.
    Unkeyed,
    /// The helper's public key for this run is known; no association is.
    KeysExchanged,
    /// An association is known; the helper has not confirmed it in this run.
    Associated,
    /// The helper has confirmed the association: queries can be made.
    Ready,
}

/// The place of a stage in the order in which stages are passed.
pub open spec fn stage_rank(stage: Stage) -> int {
    match stage {
        Stage::Unkeyed => 0,
        Stage::KeysExchanged => 1,
        Stage::Associated => 2,
        Stage::Ready => 3,
    }
}

/// The client on its way to the helper. Each step holds what is known at it, so that a
/// session is never without the secret key it was made for, and a confirmed session never
/// without its association. Before the keys are exchanged, the client looks at where the
/// association is kept, and loads it if one is there.
pub enum Handshake {
    Unprobed { our_secret_key: SecretKey, client_id: ClientId },
    Loading { client_id: ClientId },
    Unkeyed { our_secret_key: SecretKey, client_id: ClientId, association_id: Option<String> },
    KeysExchanged { session: Session },
    Associated { session: Session, config: Config, persisted: bool },
    Ready { session: Session, config: Config },
}

/// What a handshake says at each step.
pub enum HandshakeView {
    Unprobed { our_secret_key: Seq<u8>, client_id: Seq<u8> },
    Loading { client_id: Seq<u8> },
    Unkeyed { our_secret_key: Seq<u8>, client_id: Seq<u8>, association_id: Option<Seq<char>> },
    KeysExchanged { session: SessionView },
    Associated { session: SessionView, config: ConfigView, persisted: bool },
    Ready { session: SessionView, config: ConfigView },
}

impl View for Handshake {
    type V = HandshakeView;

    open spec fn view(&self) -> HandshakeView {
        match *self {
            Handshake::Unprobed { our_secret_key, client_id } => HandshakeView::Unprobed {
                our_secret_key: our_secret_key@,
                client_id: client_id@,
            },
            Handshake::Loading { client_id } => HandshakeView::Loading { client_id: client_id@ },
            Handshake::Unkeyed { our_secret_key, client_id, association_id } => {
                HandshakeView::Unkeyed {
                    our_secret_key: our_secret_key@,
                    client_id: client_id@,
                    association_id: match association_id {
                        Some(id) => Some(id@),
                        None => None,
                    },
                }
            },
            Handshake::KeysExchanged { session } => HandshakeView::KeysExchanged {
                session: session@,
            },
            Handshake::Associated { session, config, persisted } => HandshakeView::Associated {
                session: session@,
                config: config@,
                persisted,
            },
            Handshake::Ready { session, config } => HandshakeView::Ready {
                session: session@,
                config: config@,
            },
        }
    }
}

/// What happened outside, as the caller reports it to the client.
pub enum Event {
    /// The caller looked at the place where the association is kept, at `path`.
    Probed { probe: StoreProbe, path: String },
    /// The association that is kept was read.
    Loaded(Config),
    /// The helper answered the exchange of keys.
    PublicKeys(ChangePublicKeysResponse),
    /// The helper answered the request to associate, and its answer was opened.
    Association(AssociateResponse),
    /// The association was written to where it is kept.
    Persisted,
    /// The helper answered the test of the association, and its answer was opened.
    Confirmation(TestAssociateResponse),
}

/// What an event says, as far as the handshake reads it.
pub enum EventView {
    Probed { probe: StoreProbe, path: Seq<char> },
    Loaded { config: ConfigView },
    PublicKeys { public_key: Seq<char> },
    Association { id: Seq<char> },
    Persisted,
    Confirmation { id: Seq<char> },
}

impl View for Event {
    type V = EventView;

    open spec fn view(&self) -> EventView {
        match *self {
            Event::Probed { probe, path } => EventView::Probed { probe, path: path@ },
            Event::Loaded(config) => EventView::Loaded { config: config@ },
            Event::PublicKeys(response) => EventView::PublicKeys { public_key: response.public_key@ },
            Event::Association(response) => EventView::Association { id: response.id@ },
            Event::Persisted => EventView::Persisted,
            Event::Confirmation(response) => EventView::Confirmation { id: response.id@ },
        }
    }
}

/// What the caller has to do next.
pub enum Action {
    /// Look at the place where the association is kept, and report what is there.
    Probe,
    /// Read the association that is kept, and report it.
    Load,
    /// Send this request in the clear, and report the helper's public key.
    ExchangeKeys(ChangePublicKeysRequest),
    /// Seal and send this payload, and report the id that the helper gives.
    Associate(AssociateRequest),
    /// Write the association to where it is kept, and report that it is written.
    Persist,
    /// Seal and send this payload, and report the helper's confirmation.
    TestAssociate(TestAssociateRequest),
    /// Nothing: queries can be made.
    Serve,
}

impl Action {
    /// Whether the action sends anything to the helper.
    pub open spec fn sends(&self) -> bool {
        self is ExchangeKeys || self is Associate || self is TestAssociate
    }
}

/// The stage of a client.
pub open spec fn stage_of(handshake: HandshakeView) -> Stage {
    match handshake {
        HandshakeView::Unprobed { .. } => Stage::Unkeyed,
        HandshakeView::Loading { .. } => Stage::Unkeyed,
        HandshakeView::Unkeyed { .. } => Stage::Unkeyed,
        HandshakeView::KeysExchanged { .. } => Stage::KeysExchanged,
        HandshakeView::Associated { .. } => Stage::Associated,
        HandshakeView::Ready { .. } => Stage::Ready,
    }
}

/// The client after an event, or the failure that ends the run.
///
/// What is found where the association is kept decides first: nothing, and the client goes
/// on with its fresh key; a file of its owner alone, and the client loads it; a file that
/// others can reach, and the run ends. An exchange of keys makes the session; with an
/// association at hand the client is then associated, and else it has to ask for one. The
/// helper's id makes the association, which is then to be written down. Only a written
/// association is tested, and the helper's confirmation makes the client ready. Every other
/// event is out of order.
pub open spec fn advanced(handshake: HandshakeView, event: EventView) -> Result<
    HandshakeView,
    Failure,
> {
    match (handshake, event) {
        (
            HandshakeView::Unprobed { our_secret_key, client_id },
            EventView::Probed { probe, path },
        ) => match probe {
            StoreProbe::Absent => Ok(
                HandshakeView::Unkeyed { our_secret_key, client_id, association_id: None },
            ),
            StoreProbe::Present { mode } => if owner_only(mode) {
                Ok(HandshakeView::Loading { client_id })
            } else {
                Err(Failure { kind: ErrorKind::Config, text: permissions_text(mode, path) })
            },
        },
        (HandshakeView::Loading { client_id }, EventView::Loaded { config }) => Ok(
            HandshakeView::Unkeyed {
                our_secret_key: config.our_secret_key,
                client_id,
                association_id: Some(config.id),
            },
        ),
        (
            HandshakeView::Unkeyed { our_secret_key, client_id, association_id },
            EventView::PublicKeys { public_key },
        ) => match server_public_key(public_key) {
            Err(failure) => Err(failure),
            Ok(key) => {
                let session = SessionView { our_secret_key, server_public_key: key, client_id };
                match association_id {
                    Some(id) => Ok(
                        HandshakeView::Associated {
                            session,
                            config: association(our_secret_key, id),
                            persisted: true,
                        },
                    ),
                    None => Ok(HandshakeView::KeysExchanged { session }),
                }
            },
        },
        (HandshakeView::KeysExchanged { session }, EventView::Association { id }) => Ok(
            HandshakeView::Associated {
                session,
                config: association(session.our_secret_key, id),
                persisted: false,
            },
        ),
        (
            HandshakeView::Associated { session, config, persisted: false },
            EventView::Persisted,
        ) => Ok(HandshakeView::Associated { session, config, persisted: true }),
        (
            HandshakeView::Associated { session, config, persisted: true },
            EventView::Confirmation { id },
        ) => Ok(HandshakeView::Ready { session, config }),
        _ => Err(Failure { kind: ErrorKind::Protocol, text: OUT_OF_ORDER@ }),
    }
}

/// What the caller is told to do at a step, but for the fresh nonce in the request that
/// exchanges keys.
pub open spec fn offers(handshake: HandshakeView, action: Action) -> bool {
    match handshake {
        HandshakeView::Unprobed { .. } => action is Probe,
        HandshakeView::Loading { .. } => action is Load,
        HandshakeView::Unkeyed { our_secret_key, client_id, .. } => action
            matches Action::ExchangeKeys(request) && request.is_for(
            box_public_key(our_secret_key),
            client_id,
        ),
        HandshakeView::KeysExchanged { session } => action matches Action::Associate(request)
            && request.action@ == "associate"@ && request.our_public_key@ == box_public_key(
            session.our_secret_key,
        ),
        HandshakeView::Associated { persisted: false, .. } => action is Persist,
        HandshakeView::Associated { session, config, persisted: true } => action
            matches Action::TestAssociate(request) && request.action@ == "test-associate"@
            && request.id@ == config.id && request.our_public_key@ == box_public_key(
            config.our_secret_key,
        ),
        HandshakeView::Ready { .. } => action is Serve,
    }
}

impl Handshake {
    /// The client at its start, with a secret key and an id for this run that the caller
    /// has drawn. The key is used only where no association is kept.
    pub fn begin(our_secret_key: SecretKey, client_id: ClientId) -> (handshake: Handshake)
        ensures
            handshake@ == (HandshakeView::Unprobed {
                our_secret_key: our_secret_key@,
                client_id: client_id@,
            }),
    {
        Handshake::Unprobed { our_secret_key, client_id }
    }

    /// The client at its start, with a fresh secret key and a fresh id for this run, of
    /// which nothing is known.
    pub fn new() -> (result: Result<Handshake, CmdipassError>)
        ensures
            result matches Ok(handshake) ==> handshake@ is Unprobed,
            result matches Err(e) ==> e.has(ErrorKind::Crypto, NO_SODIUM@) || e.has(
                ErrorKind::Crypto,
                NO_RANDOMNESS@,
            ),
    {
        if !init() {
            return Err(CmdipassError::new(ErrorKind::Crypto, NO_SODIUM));
        }
        let (_our_public_key, our_secret_key) = gen_keypair();
        let client_id = ClientId::new()?;
        Ok(Handshake::Unprobed { our_secret_key, client_id })
    }

    pub fn stage(&self) -> (stage: Stage)
        ensures
            stage == stage_of(self@),
    {
        match self {
            Handshake::Unprobed { .. } => Stage::Unkeyed,
            Handshake::Loading { .. } => Stage::Unkeyed,
            Handshake::Unkeyed { .. } => Stage::Unkeyed,
            Handshake::KeysExchanged { .. } => Stage::KeysExchanged,
            Handshake::Associated { .. } => Stage::Associated,
            Handshake::Ready { .. } => Stage::Ready,
        }
    }

    /// The session, once the keys are exchanged.
    pub fn session(&self) -> (session: Option<&Session>)
        ensures
            match self@ {
                HandshakeView::KeysExchanged { session: s } => session matches Some(r) && r@ == s,
                HandshakeView::Associated { session: s, .. } => session matches Some(r) && r@ == s,
                HandshakeView::Ready { session: s, .. } => session matches Some(r) && r@ == s,
                _ => session is None,
            },
    {
        match self {
            Handshake::KeysExchanged { session } => Some(session),
            Handshake::Associated { session, .. } => Some(session),
            Handshake::Ready { session, .. } => Some(session),
            _ => None,
        }
    }

    /// The association, once there is one.
    pub fn config(&self) -> (config: Option<&Config>)
        ensures
            match self@ {
                HandshakeView::Associated { config: c, .. } => config matches Some(r) && r@ == c,
                HandshakeView::Ready { config: c, .. } => config matches Some(r) && r@ == c,
                _ => config is None,
            },
    {
        match self {
            Handshake::Associated { config, .. } => Some(config),
            Handshake::Ready { config, .. } => Some(config),
            _ => None,
        }
    }

    /// What the caller has to do at this step. The request that exchanges keys carries a
    /// fresh nonce, of which nothing is known.
    pub fn action(&self) -> (action: Action)
        ensures
            offers(self@, action),
    {
        match self {
            Handshake::Unprobed { .. } => Action::Probe,
            Handshake::Loading { .. } => Action::Load,
            Handshake::Unkeyed { our_secret_key, client_id, .. } => {
                let public_key = our_secret_key.public_key();
                Action::ExchangeKeys(ChangePublicKeysRequest::new(&public_key, client_id))
            },
            Handshake::KeysExchanged { session } => {
                let public_key = session.our_secret_key().public_key();
                Action::Associate(AssociateRequest::new(&public_key))
            },
            Handshake::Associated { config, persisted, .. } => {
                if *persisted {
                    Action::TestAssociate(TestAssociateRequest::new(config))
                } else {
                    Action::Persist
                }
            },
            Handshake::Ready { .. } => Action::Serve,
        }
    }

    /// Takes the client on by one event.
    pub fn advance(self, event: Event) -> (result: Result<Handshake, CmdipassError>)
        ensures
            result matches Ok(next) ==> advanced(self@, event@) == Ok::<HandshakeView, Failure>(
                next@,
            ),
            result matches Err(e) ==> advanced(self@, event@) == Err::<HandshakeView, Failure>(e@),
    {
        match (self, event) {
            (Handshake::Unprobed { our_secret_key, client_id }, Event::Probed { probe, path }) => {
                match load_config(&probe, path.as_str())? {
                    StoreDecision::Register => Ok(
                        Handshake::Unkeyed { our_secret_key, client_id, association_id: None },
                    ),
                    StoreDecision::Load => Ok(Handshake::Loading { client_id }),
                }
            },
            (Handshake::Loading { client_id }, Event::Loaded(config)) => Ok(
                Handshake::Unkeyed {
                    our_secret_key: *config.our_secret_key(),
                    client_id,
                    association_id: Some(String::from_str(config.id())),
                },
            ),
            (
                Handshake::Unkeyed { our_secret_key, client_id, association_id },
                Event::PublicKeys(response),
            ) => {
                let session = Session::new(our_secret_key, client_id, &response)?;
                match association_id {
                    Some(id) => Ok(
                        Handshake::Associated {
                            session,
                            config: Config::new(our_secret_key, id),
                            persisted: true,
                        },
                    ),
                    None => Ok(Handshake::KeysExchanged { session }),
                }
            },
            (Handshake::KeysExchanged { session }, Event::Association(response)) => {
                let config = associate(&session, response);
                Ok(Handshake::Associated { session, config, persisted: false })
            },
            (Handshake::Associated { session, config, persisted }, Event::Persisted) => {
                if persisted {
                    Err(CmdipassError::new(ErrorKind::Protocol, OUT_OF_ORDER))
                } else {
                    Ok(Handshake::Associated { session, config, persisted: true })
                }
            },
            (
                Handshake::Associated { session, config, persisted },
                Event::Confirmation(response),
            ) => {
                if persisted {
                    Ok(Handshake::Ready { session: test_associate(session, &response), config })
                } else {
                    Err(CmdipassError::new(ErrorKind::Protocol, OUT_OF_ORDER))
                }
            },
            _ => Err(CmdipassError::new(ErrorKind::Protocol, OUT_OF_ORDER)),
        }
    }
}

/// Begins a run: draws a fresh pair of keys, for the case that no association is kept, and
/// a fresh id for this run.
pub fn register() -> (result: Result<Handshake, CmdipassError>)
    ensures
        result matches Ok(handshake) ==> handshake@ is Unprobed,
        result matches Err(e) ==> e.has(ErrorKind::Crypto, NO_SODIUM@) || e.has(
            ErrorKind::Crypto,
            NO_RANDOMNESS@,
        ),
{
    Handshake::new()
}

/// The client of the socket protocol, once the helper has confirmed the association.
pub struct KeePassXCBrowser {
    session: Session,
}

impl KeePassXCBrowser {
    pub closed spec fn spec_session(&self) -> SessionView {
        self.session@
    }

    /// The client that a finished handshake leaves; a failure of class `Protocol` where the
    /// handshake is not finished.
    pub fn new(handshake: Handshake) -> (result: Result<KeePassXCBrowser, CmdipassError>)
        ensures
            result is Ok <==> stage_of(handshake@) == Stage::Ready,
            result matches Ok(client) ==> handshake@ matches HandshakeView::Ready { session, .. }
                && client.spec_session() == session,
            result matches Err(e) ==> e.has(ErrorKind::Protocol, NOT_READY@),
    {
        match handshake {
            Handshake::Ready { session, .. } => Ok(KeePassXCBrowser { session }),
            _ => Err(CmdipassError::new(ErrorKind::Protocol, NOT_READY)),
        }
    }

    pub fn session(&self) -> (session: &Session)
        ensures
            session@ == self.spec_session(),
    {
        &self.session
    }
}

impl KeePassBackend for KeePassXCBrowser {
    type Query = GetEntriesRequest;

    type Answer = GetEntriesResponse;

    fn query(&self, search_string: &str) -> (result: Result<GetEntriesRequest, CmdipassError>)
        ensures
            result matches Ok(request) && request.action@ == "get-logins"@ && request.url@
                == search_string@,
    {
        Ok(GetEntriesRequest::new(search_string))
    }

    fn get_entries(&self, answer: &GetEntriesResponse) -> (result: Result<Vec<Entry>, CmdipassError>)
        ensures
            result matches Ok(entries) && entries@.len() == answer.entries@.len() && forall|i: int|
                0 <= i < entries@.len() ==> entries@[i]@ == answer.entries@[i]@,
    {
        Ok(get_entries(answer))
    }
}

/// A file that its group or the world can read ends the run with a failure of class
/// `Config`, and it does so at the first step: before that step the client offers nothing
/// to send, so nothing has gone to the helper.
pub proof fn lemma_open_store_ends_the_run_before_anything_is_sent(
    our_secret_key: Seq<u8>,
    client_id: Seq<u8>,
    mode: u32,
    path: Seq<char>,
    action: Action,
)
    requires
        mode & 0o044 != 0,
        offers(HandshakeView::Unprobed { our_secret_key, client_id }, action),
    ensures
        !action.sends(),
        advanced(
            HandshakeView::Unprobed { our_secret_key, client_id },
            EventView::Probed { probe: StoreProbe::Present { mode }, path },
        ) == Err::<HandshakeView, Failure>(
            Failure { kind: ErrorKind::Config, text: permissions_text(mode, path) },
        ),
{
    lemma_readable_by_others_is_refused(mode);
}

/// Nothing is sent to the helper before the place where the association is kept has been
/// looked at, and a kept association has been loaded.
pub proof fn lemma_nothing_is_sent_before_the_store_is_read(
    handshake: HandshakeView,
    action: Action,
)
    requires
        handshake is Unprobed || handshake is Loading,
        offers(handshake, action),
    ensures
        !action.sends(),
{
}

/// No event takes a client back to an earlier stage.
pub proof fn lemma_advance_never_goes_back(handshake: HandshakeView, event: EventView)
    ensures
        advanced(handshake, event) matches Ok(next) ==> stage_rank(stage_of(handshake))
            <= stage_rank(stage_of(next)),
{
}

/// A client is ready only after the helper has confirmed an association that is written
/// down, and it is ready for that association and with the session it had.
pub proof fn lemma_ready_only_by_confirmation(handshake: HandshakeView, event: EventView)
    requires
        advanced(handshake, event) matches Ok(next) && stage_of(next) == Stage::Ready,
    ensures
        event is Confirmation,
        handshake matches HandshakeView::Associated { session, config, persisted } && persisted
            && advanced(handshake, event) == Ok::<HandshakeView, Failure>(
            HandshakeView::Ready { session, config },
        ),
{
}

/// Whenever an event makes a client associated, the association is for the secret key of
/// its session.
pub proof fn lemma_association_keeps_the_key(handshake: HandshakeView, event: EventView)
    requires
        !(handshake is Associated),
    ensures
        advanced(handshake, event) matches Ok(HandshakeView::Associated { session, config, .. })
            ==> config.our_secret_key == session.our_secret_key,
{
}

} // verus!
