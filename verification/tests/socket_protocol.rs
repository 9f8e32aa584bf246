use cmdipass::encoding::encode;
use cmdipass::error::ErrorKind;
use cmdipass::keepass::{Entry, KeePassBackend};
use cmdipass::config_file::StoreProbe;
use cmdipass::keepassxcbrowser::{
    register, Action, Config, Event, Handshake, KeePassXCBrowser, Stage,
};
use cmdipass::protocol::{
    associate, decrypt_response, deserialize_optional_nonce, encrypt_request, encrypt_request_with,
    get_entries, get_server_public_key, raw_response, test_associate, AssociateRequest,
    AssociateResponse, ChangePublicKeysRequest, ChangePublicKeysResponse, ClientId,
    EncryptedResponse, GetEntriesRequest, GetEntriesResponse, Request, Session,
    TestAssociateRequest, TestAssociateResponse,
};
use cmdipass::sealed::{open, seal, serialize_public_key, Nonce, SecretKey};

fn our_secret() -> SecretKey {
    SecretKey::new([11u8; 32])
}

fn server_secret() -> SecretKey {
    SecretKey::new([22u8; 32])
}

fn client_id() -> ClientId {
    ClientId::from_bytes([33u8; 24])
}

fn keys_of_the_server() -> ChangePublicKeysResponse {
    ChangePublicKeysResponse { public_key: serialize_public_key(&server_secret().public_key()) }
}

fn session() -> Session {
    Session::new(our_secret(), client_id(), &keys_of_the_server()).unwrap()
}

/// What the helper would send: `plaintext` sealed for the client under `nonce`.
fn sealed_answer(action: &str, plaintext: &str, nonce: [u8; 24]) -> EncryptedResponse {
    let sealed = seal(
        plaintext.as_bytes(),
        &Nonce::new(nonce),
        &our_secret().public_key(),
        &server_secret(),
    ).unwrap();
    EncryptedResponse::from_wire(
        action.to_string(),
        None,
        Some(encode(&sealed)),
        &Some(encode(&nonce)),
    ).unwrap()
}

#[test]
fn a_client_id_is_24_fresh_bytes() {
    let first = ClientId::new().unwrap();
    let second = ClientId::new().unwrap();
    assert_eq!(first.as_bytes().len(), 24);
    assert_ne!(first.as_bytes(), second.as_bytes());
    assert_eq!(client_id().serialize(), encode(&[33u8; 24]));
}

#[test]
fn the_exchange_of_keys_goes_in_the_clear() {
    let public = our_secret().public_key();
    let request = ChangePublicKeysRequest::new(&public, &client_id());
    assert_eq!(request.action, "change-public-keys");
    assert_eq!(request.public_key.as_bytes(), public.as_bytes());
    assert_eq!(request.client_id.as_bytes(), &[33u8; 24]);
    let other = ChangePublicKeysRequest::new(&public, &client_id());
    assert_ne!(request.nonce.as_bytes(), other.nonce.as_bytes());
    let fixed = ChangePublicKeysRequest::with_nonce(&public, &client_id(), Nonce::new([1u8; 24]));
    assert_eq!(fixed.nonce.as_bytes(), &[1u8; 24]);
}

#[test]
fn the_servers_public_key_is_read_from_base64() {
    let key = get_server_public_key(&keys_of_the_server()).unwrap();
    assert_eq!(key.as_bytes(), server_secret().public_key().as_bytes());
    let e = get_server_public_key(&ChangePublicKeysResponse { public_key: "???".into() }).unwrap_err();
    assert_eq!(e.kind(), ErrorKind::Protocol);
    let e = get_server_public_key(&ChangePublicKeysResponse { public_key: encode(&[1u8; 31]) })
        .unwrap_err();
    assert_eq!(e.kind(), ErrorKind::Protocol);
    assert_eq!(e.description(), "Could not parse server's public key: incorrect size");
    assert!(Session::new(our_secret(), client_id(), &ChangePublicKeysResponse { public_key: "".into() })
        .is_err());
}

#[test]
fn a_session_holds_both_keys_and_the_id() {
    let session = session();
    assert_eq!(session.our_secret_key().as_bytes(), &[11u8; 32]);
    assert_eq!(session.server_public_key().as_bytes(), server_secret().public_key().as_bytes());
    assert_eq!(session.client_id().as_bytes(), &[33u8; 24]);
}

#[test]
fn payloads_name_their_action() {
    let public = our_secret().public_key();
    let associate = AssociateRequest::new(&public);
    assert_eq!(associate.action(), "associate");
    assert_eq!(associate.our_public_key.as_bytes(), public.as_bytes());
    let config = Config::new(our_secret(), "abc".to_string());
    let test = TestAssociateRequest::new(&config);
    assert_eq!(test.action(), "test-associate");
    assert_eq!(test.id, "abc");
    assert_eq!(test.our_public_key.as_bytes(), public.as_bytes());
    let query = GetEntriesRequest::new("github.com");
    assert_eq!(query.action(), "get-logins");
    assert_eq!(query.url, "github.com");
}

#[test]
fn a_sealed_request_opens_at_the_server() {
    let session = session();
    let plaintext = "{\"action\":\"get-logins\",\"url\":\"github.com\"}";
    let request =
        encrypt_request_with(&session, "get-logins", plaintext.as_bytes(), Nonce::new([4u8; 24])).unwrap();
    assert_eq!(request.action, "get-logins");
    assert_eq!(request.client_id.as_bytes(), &[33u8; 24]);
    assert_eq!(request.nonce.as_bytes(), &[4u8; 24]);
    let expected = seal(
        plaintext.as_bytes(),
        &Nonce::new([4u8; 24]),
        &server_secret().public_key(),
        &our_secret(),
    )
    .unwrap();
    assert_eq!(request.message, encode(&expected));
    let payload = GetEntriesRequest::new("github.com");
    let fresh = encrypt_request(&session, &payload, plaintext.as_bytes()).unwrap();
    assert_eq!(fresh.action, "get-logins");
    assert_eq!(fresh.client_id.as_bytes(), &[33u8; 24]);
    assert!(!fresh.message.contains("github.com"));
    let sealed = cmdipass::encoding::decode(&fresh.message).unwrap();
    let opened = open(&sealed, &fresh.nonce, &our_secret().public_key(), &server_secret()).unwrap();
    assert_eq!(opened, plaintext.as_bytes().to_vec());
    assert_eq!(sealed.len(), plaintext.len() + 16);
    let config = Config::new(our_secret(), "abc".to_string());
    let test = encrypt_request(&session, &TestAssociateRequest::new(&config), b"{}").unwrap();
    assert_eq!(test.action, "test-associate");
}

#[test]
fn a_sealed_answer_is_opened_to_its_text() {
    let response = sealed_answer("test-associate", "{\"id\":\"abc\"}", [5u8; 24]);
    assert_eq!(decrypt_response(&session(), &response).unwrap(), "{\"id\":\"abc\"}");
}

#[test]
fn an_error_of_the_server_is_a_rejection() {
    let response = EncryptedResponse::from_wire(
        "get-logins".to_string(),
        Some("entry not found".to_string()),
        None,
        &None,
    ).unwrap();
    let e = decrypt_response(&session(), &response).unwrap_err();
    assert_eq!(e.kind(), ErrorKind::ServerRejection);
    assert_eq!(e.description(), "get-logins action failed: entry not found");
}

#[test]
fn an_error_of_the_server_comes_before_its_message() {
    let mut response = sealed_answer("get-logins", "{\"entries\":[]}", [5u8; 24]);
    response.error = Some("denied".to_string());
    let e = decrypt_response(&session(), &response).unwrap_err();
    assert_eq!(e.kind(), ErrorKind::ServerRejection);
    assert_eq!(e.description(), "get-logins action failed: denied");
}

#[test]
fn a_nonce_that_is_not_base64_is_a_protocol_failure() {
    let sealed =
        seal(b"{}", &Nonce::new([5u8; 24]), &our_secret().public_key(), &server_secret()).unwrap();
    let e = EncryptedResponse::from_wire(
        "get-logins".to_string(),
        None,
        Some(encode(&sealed)),
        &Some("not base64!".to_string()),
    ).unwrap_err();
    assert_eq!(e.kind(), ErrorKind::Protocol);
    assert_eq!(e.description(), "Failed to parse nonce from server: invalid base64");
}

#[test]
fn an_answer_read_from_the_wire_with_a_bad_nonce_is_a_protocol_failure() {
    let read = "{\"action\":\"get-logins\",\"message\":\"AAAA\",\"nonce\":\"!!!\"}";
    let text = raw_response(read.as_bytes(), read.len()).unwrap();
    let json: serde_json::Value = serde_json::from_str(&text).unwrap();
    let field = |name: &str| json.get(name).and_then(|value| value.as_str()).map(String::from);
    let e = EncryptedResponse::from_wire(
        field("action").unwrap(),
        field("error"),
        field("message"),
        &field("nonce"),
    ).unwrap_err();
    assert_eq!(e.kind(), ErrorKind::Protocol);
}

#[test]
fn an_error_of_the_server_comes_before_a_bad_nonce() {
    let response = EncryptedResponse::from_wire(
        "get-logins".to_string(),
        Some("entry not found".to_string()),
        Some("AAAA".to_string()),
        &Some("!!!".to_string()),
    ).unwrap();
    assert!(response.nonce.is_none());
    let e = decrypt_response(&session(), &response).unwrap_err();
    assert_eq!(e.kind(), ErrorKind::ServerRejection);
    assert_eq!(e.description(), "get-logins action failed: entry not found");
}

#[test]
fn a_request_for_a_server_key_that_cannot_be_used_is_not_sent() {
    let unusable = ChangePublicKeysResponse { public_key: encode(&[0u8; 32]) };
    let session = Session::new(our_secret(), client_id(), &unusable).unwrap();
    let payload = AssociateRequest::new(&our_secret().public_key());
    let e = encrypt_request(&session, &payload, b"{}").err().unwrap();
    assert_eq!(e.kind(), ErrorKind::Crypto);
}

#[test]
fn a_nonce_of_the_wrong_size_is_a_protocol_failure() {
    let e = deserialize_optional_nonce(&Some(encode(&[1u8; 23]))).unwrap_err();
    assert_eq!(e.kind(), ErrorKind::Protocol);
    assert_eq!(e.description(), "Failed to parse nonce from server: incorrect size");
    assert!(deserialize_optional_nonce(&None).unwrap().is_none());
    let nonce = deserialize_optional_nonce(&Some(encode(&[1u8; 24]))).unwrap().unwrap();
    assert_eq!(nonce.as_bytes(), &[1u8; 24]);
}

#[test]
fn an_answer_without_message_or_nonce_is_a_protocol_failure() {
    let empty = EncryptedResponse::from_wire("associate".to_string(), None, None, &None).unwrap();
    let e = decrypt_response(&session(), &empty).unwrap_err();
    assert_eq!(e.kind(), ErrorKind::Protocol);
    assert_eq!(
        e.description(),
        "Neither message nor error was present in the response from the server. Protocol error?"
    );
    let mut no_nonce = sealed_answer("associate", "{}", [5u8; 24]);
    no_nonce.nonce = None;
    assert_eq!(decrypt_response(&session(), &no_nonce).unwrap_err().kind(), ErrorKind::Protocol);
    let mut bad_message = sealed_answer("associate", "{}", [5u8; 24]);
    bad_message.message = Some("???".to_string());
    assert_eq!(decrypt_response(&session(), &bad_message).unwrap_err().kind(), ErrorKind::Protocol);
}

#[test]
fn a_message_that_does_not_authenticate_is_a_crypto_failure() {
    let response = sealed_answer("get-logins", "{\"entries\":[]}", [5u8; 24]);
    let mut sealed = cmdipass::encoding::decode(response.message.as_ref().unwrap()).unwrap();
    sealed[20] ^= 1;
    let tampered = EncryptedResponse { message: Some(encode(&sealed)), ..response };
    let e = decrypt_response(&session(), &tampered).unwrap_err();
    assert_eq!(e.kind(), ErrorKind::Crypto);
    assert_eq!(
        e.description(),
        "Verification of server message failed. Broken protocol implementation or interception attempt has occurred."
    );
    let other_nonce = EncryptedResponse { nonce: Some(Nonce::new([6u8; 24])), ..sealed_answer("a", "{}", [5u8; 24]) };
    assert_eq!(decrypt_response(&session(), &other_nonce).unwrap_err().kind(), ErrorKind::Crypto);
}

#[test]
fn a_message_that_is_not_text_is_a_protocol_failure() {
    let sealed = seal(&[0xff, 0xfe], &Nonce::new([5u8; 24]), &our_secret().public_key(), &server_secret())
        .unwrap();
    let response = EncryptedResponse::from_wire(
        "get-logins".to_string(),
        None,
        Some(encode(&sealed)),
        &Some(encode(&[5u8; 24])),
    ).unwrap();
    assert_eq!(decrypt_response(&session(), &response).unwrap_err().kind(), ErrorKind::Protocol);
}

#[test]
fn what_was_read_is_taken_as_the_whole_answer() {
    let mut buffer = vec![0u8; 64];
    buffer[..12].copy_from_slice(b"{\"id\":\"abc\"}");
    assert_eq!(raw_response(&buffer, 12), Some("{\"id\":\"abc\"}".to_string()));
    assert_eq!(raw_response(&buffer, 0), Some(String::new()));
    assert_eq!(raw_response(&buffer, 65), None);
    assert_eq!(raw_response(&[b'a', 0xff], 2), Some("a\u{fffd}".to_string()));
}

#[test]
fn association_and_confirmation_keep_the_session() {
    let config = associate(&session(), AssociateResponse { id: "abc".to_string() });
    assert_eq!(config.id(), "abc");
    assert_eq!(config.backend_type(), "KeePassXC-Browser");
    assert_eq!(config.our_secret_key().as_bytes(), &[11u8; 32]);
    let ready = test_associate(session(), &TestAssociateResponse { id: "abc".to_string() });
    assert_eq!(ready.client_id().as_bytes(), &[33u8; 24]);
    assert_eq!(ready.server_public_key().as_bytes(), server_secret().public_key().as_bytes());
}

#[test]
fn entries_of_an_opened_answer_are_handed_out_in_order() {
    let response = GetEntriesResponse {
        entries: vec![
            Entry { login: "a".into(), name: "A".into(), password: "1".into(), uuid: "U1".into() },
            Entry { login: "b".into(), name: "B".into(), password: "2".into(), uuid: "U2".into() },
        ],
    };
    let entries = get_entries(&response);
    assert_eq!(entries.len(), 2);
    assert_eq!(entries[0].login, "a");
    assert_eq!(entries[1].uuid, "U2");
    assert_eq!(entries[1].password, "2");
    assert_eq!(entries[1].name, "B");
}

fn path() -> String {
    "/home/u/.cmdipass".to_string()
}

/// A client that found no association where one would be kept.
fn unassociated() -> Handshake {
    Handshake::begin(our_secret(), client_id())
        .advance(Event::Probed { probe: StoreProbe::Absent, path: path() })
        .ok()
        .unwrap()
}

/// A client that found and loaded the association `abc`, made for another key than the
/// fresh one it began with.
fn loaded() -> Handshake {
    let fresh = SecretKey::new([99u8; 32]);
    let handshake = Handshake::begin(fresh, client_id())
        .advance(Event::Probed { probe: StoreProbe::Present { mode: 0o100600 }, path: path() })
        .ok()
        .unwrap();
    assert!(matches!(handshake.action(), Action::Load));
    handshake.advance(Event::Loaded(Config::new(our_secret(), "abc".to_string()))).ok().unwrap()
}

#[test]
fn a_kept_association_is_confirmed_and_then_serves() {
    let start = Handshake::begin(our_secret(), client_id());
    assert_eq!(start.stage(), Stage::Unkeyed);
    assert!(matches!(start.action(), Action::Probe));
    let handshake = loaded();
    assert_eq!(handshake.stage(), Stage::Unkeyed);
    assert!(handshake.session().is_none());
    match handshake.action() {
        Action::ExchangeKeys(request) => {
            assert_eq!(request.action, "change-public-keys");
            assert_eq!(request.public_key.as_bytes(), our_secret().public_key().as_bytes());
        },
        _ => panic!("the keys are exchanged first"),
    }
    let handshake = handshake.advance(Event::PublicKeys(keys_of_the_server())).ok().unwrap();
    assert_eq!(handshake.stage(), Stage::Associated);
    assert_eq!(handshake.config().unwrap().id(), "abc");
    assert_eq!(handshake.session().unwrap().our_secret_key().as_bytes(), &[11u8; 32]);
    let payload = match handshake.action() {
        Action::TestAssociate(request) => request,
        _ => panic!("a kept association is tested"),
    };
    assert_eq!(payload.id, "abc");

    let answer = sealed_answer("test-associate", "{\"id\":\"abc\"}", [5u8; 24]);
    let text = decrypt_response(handshake.session().unwrap(), &answer).unwrap();
    assert_eq!(text, "{\"id\":\"abc\"}");
    let handshake = handshake
        .advance(Event::Confirmation(TestAssociateResponse { id: "abc".to_string() }))
        .ok()
        .unwrap();
    assert_eq!(handshake.stage(), Stage::Ready);
    assert!(matches!(handshake.action(), Action::Serve));

    let client = KeePassXCBrowser::new(handshake).ok().unwrap();
    let query = client.query("github.com").unwrap();
    assert_eq!(query.url, "github.com");
    let refused = EncryptedResponse::from_wire(
        "get-logins".to_string(),
        Some("entry not found".to_string()),
        None,
        &None,
    ).unwrap();
    let e = decrypt_response(client.session(), &refused).unwrap_err();
    assert_eq!(e.kind(), ErrorKind::ServerRejection);
    assert_eq!(e.description(), "get-logins action failed: entry not found");

    let found = GetEntriesResponse {
        entries: vec![Entry { login: "a".into(), name: "A".into(), password: "1".into(), uuid: "U".into() }],
    };
    assert_eq!(client.get_entries(&found).unwrap()[0].login, "a");
}

#[test]
fn a_first_association_is_written_before_it_is_tested() {
    let handshake = unassociated();
    assert!(matches!(handshake.action(), Action::ExchangeKeys(_)));
    let handshake = handshake.advance(Event::PublicKeys(keys_of_the_server())).ok().unwrap();
    assert_eq!(handshake.stage(), Stage::KeysExchanged);
    assert!(handshake.config().is_none());
    match handshake.action() {
        Action::Associate(request) => {
            assert_eq!(request.action, "associate");
            assert_eq!(request.our_public_key.as_bytes(), our_secret().public_key().as_bytes());
        },
        _ => panic!("without an association, one is asked for"),
    }
    let handshake = handshake
        .advance(Event::Association(AssociateResponse { id: "new".to_string() }))
        .ok()
        .unwrap();
    assert_eq!(handshake.stage(), Stage::Associated);
    assert!(matches!(handshake.action(), Action::Persist));
    assert_eq!(handshake.config().unwrap().id(), "new");
    assert_eq!(handshake.config().unwrap().our_secret_key().as_bytes(), &[11u8; 32]);
    let handshake = handshake.advance(Event::Persisted).ok().unwrap();
    assert_eq!(handshake.stage(), Stage::Associated);
    assert!(matches!(handshake.action(), Action::TestAssociate(_)));
    let handshake = handshake
        .advance(Event::Confirmation(TestAssociateResponse { id: "new".to_string() }))
        .ok()
        .unwrap();
    assert_eq!(handshake.stage(), Stage::Ready);
}

#[test]
fn a_store_open_to_others_ends_the_run_before_anything_is_sent() {
    for mode in [0o644u32, 0o640, 0o604, 0o100666, 0o660, 0o606] {
        let handshake = Handshake::begin(our_secret(), client_id());
        assert!(matches!(handshake.action(), Action::Probe));
        let e = handshake
            .advance(Event::Probed { probe: StoreProbe::Present { mode }, path: path() })
            .err()
            .unwrap();
        assert_eq!(e.kind(), ErrorKind::Config);
        assert!(e.description().contains("'/home/u/.cmdipass' are too open."));
    }
}

#[test]
fn events_out_of_order_end_the_run() {
    let e = Handshake::begin(our_secret(), client_id())
        .advance(Event::PublicKeys(keys_of_the_server()))
        .err()
        .unwrap();
    assert_eq!(e.kind(), ErrorKind::Protocol);
    let e = unassociated().advance(Event::Persisted).err().unwrap();
    assert_eq!(e.kind(), ErrorKind::Protocol);
    let e = unassociated()
        .advance(Event::Confirmation(TestAssociateResponse { id: "x".to_string() }))
        .err()
        .unwrap();
    assert_eq!(e.kind(), ErrorKind::Protocol);
    let e = unassociated()
        .advance(Event::Loaded(Config::new(our_secret(), "abc".to_string())))
        .err()
        .unwrap();
    assert_eq!(e.kind(), ErrorKind::Protocol);
    let keyed = unassociated().advance(Event::PublicKeys(keys_of_the_server())).ok().unwrap();
    assert!(keyed.advance(Event::PublicKeys(keys_of_the_server())).is_err());
    let unwritten = unassociated()
        .advance(Event::PublicKeys(keys_of_the_server()))
        .ok()
        .unwrap()
        .advance(Event::Association(AssociateResponse { id: "new".to_string() }))
        .ok()
        .unwrap();
    let e = unwritten
        .advance(Event::Confirmation(TestAssociateResponse { id: "new".to_string() }))
        .err()
        .unwrap();
    assert_eq!(e.kind(), ErrorKind::Protocol);
    let e = KeePassXCBrowser::new(unassociated()).err().unwrap();
    assert_eq!(e.kind(), ErrorKind::Protocol);
    let e = unassociated()
        .advance(Event::PublicKeys(ChangePublicKeysResponse { public_key: "???".to_string() }))
        .err()
        .unwrap();
    assert_eq!(e.description(), "Could not parse server's public key: invalid base64");
}

#[test]
fn a_run_begins_with_fresh_keys_and_a_look_at_the_store() {
    let fresh = register().ok().unwrap();
    assert_eq!(fresh.stage(), Stage::Unkeyed);
    assert!(matches!(fresh.action(), Action::Probe));
    let first = match fresh
        .advance(Event::Probed { probe: StoreProbe::Absent, path: path() })
        .ok()
        .unwrap()
        .action()
    {
        Action::ExchangeKeys(request) => request.public_key,
        _ => panic!("the keys are exchanged first"),
    };
    let second = match Handshake::new()
        .ok()
        .unwrap()
        .advance(Event::Probed { probe: StoreProbe::Absent, path: path() })
        .ok()
        .unwrap()
        .action()
    {
        Action::ExchangeKeys(request) => request.public_key,
        _ => panic!("the keys are exchanged first"),
    };
    assert_ne!(first.as_bytes(), second.as_bytes());
}
