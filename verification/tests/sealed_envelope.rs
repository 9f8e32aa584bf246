use cmdipass::error::ErrorKind;
use cmdipass::sealed::{
    gen_keypair, gen_nonce, init, keep_sealed, open, seal, serialize_nonce, serialize_public_key,
    to_array, Nonce, PublicKey, SecretKey, SEAL_FAILED,
};
use sodiumoxide::crypto::box_;

fn secret(seed: u8) -> SecretKey {
    SecretKey::new([seed; 32])
}

#[test]
fn the_outside_library_is_ready() {
    assert!(init());
}

#[test]
fn what_one_side_seals_the_other_opens() {
    let ours = secret(1);
    let theirs = secret(2);
    let nonce = Nonce::new([9u8; 24]);
    let sealed = seal(b"{\"action\":\"associate\"}", &nonce, &theirs.public_key(), &ours).unwrap();
    assert_eq!(sealed.len(), 22 + 16);
    let opened = open(&sealed, &nonce, &ours.public_key(), &theirs).unwrap();
    assert_eq!(opened, b"{\"action\":\"associate\"}".to_vec());
}

#[test]
fn fresh_keys_belong_together() {
    let (public, secret) = gen_keypair();
    assert_eq!(secret.public_key().as_bytes(), public.as_bytes());
    let (other_public, _) = gen_keypair();
    assert_ne!(public.as_bytes(), other_public.as_bytes());
    let nonce = gen_nonce();
    assert_eq!(nonce.as_bytes().len(), 24);
    assert_ne!(gen_nonce().as_bytes(), nonce.as_bytes());
}

#[test]
fn sealing_agrees_with_the_outside_library() {
    let ours = secret(3);
    let theirs = secret(4);
    let nonce = Nonce::new([5u8; 24]);
    let public = theirs.public_key();
    let outside_secret = box_::SecretKey::from_slice(&[4u8; 32]).unwrap();
    assert_eq!(public.as_bytes(), outside_secret.public_key().as_ref());
    let sealed = seal(b"message", &nonce, &public, &ours).unwrap();
    let expected = box_::seal(
        b"message",
        &box_::Nonce::from_slice(&[5u8; 24]).unwrap(),
        &outside_secret.public_key(),
        &box_::SecretKey::from_slice(&[3u8; 32]).unwrap(),
    );
    assert_eq!(sealed, expected);
    assert_ne!(&sealed[16..], b"message");
}

#[test]
fn a_public_key_that_cannot_be_used_is_a_crypto_failure() {
    let ours = secret(1);
    let nonce = Nonce::new([9u8; 24]);
    let e = seal(b"message", &nonce, &PublicKey::new([0u8; 32]), &ours).unwrap_err();
    assert_eq!(e.kind(), ErrorKind::Crypto);
    assert_eq!(e.description(), SEAL_FAILED);
    let mut one = [0u8; 32];
    one[0] = 1;
    assert!(seal(b"message", &nonce, &PublicKey::new(one), &ours).is_err());
}

#[test]
fn what_is_sealed_opens_under_the_keys_it_was_sealed_with() {
    let ours = secret(1);
    let theirs = secret(2).public_key();
    let nonce = Nonce::new([9u8; 24]);
    let sealed = seal(b"message", &nonce, &theirs, &ours).unwrap();
    assert_eq!(open(&sealed, &nonce, &theirs, &ours), Some(b"message".to_vec()));
}

#[test]
fn every_flipped_byte_fails_to_open() {
    let ours = secret(1);
    let theirs = secret(2);
    let nonce = Nonce::new([9u8; 24]);
    let sealed = seal(b"a message of some length", &nonce, &theirs.public_key(), &ours).unwrap();
    for position in 0..sealed.len() {
        let mut tampered = sealed.clone();
        tampered[position] ^= 1;
        assert_eq!(open(&tampered, &nonce, &ours.public_key(), &theirs), None);
    }
}

#[test]
fn the_wrong_nonce_or_key_fails_to_open() {
    let ours = secret(1);
    let theirs = secret(2);
    let nonce = Nonce::new([9u8; 24]);
    let sealed = seal(b"message", &nonce, &theirs.public_key(), &ours).unwrap();
    assert_eq!(open(&sealed, &Nonce::new([8u8; 24]), &ours.public_key(), &theirs), None);
    assert_eq!(open(&sealed, &nonce, &ours.public_key(), &secret(7)), None);
    assert_eq!(open(&sealed, &nonce, &secret(7).public_key(), &theirs), None);
    assert_eq!(open(&sealed[..10], &nonce, &ours.public_key(), &theirs), None);
    assert_eq!(open(&[], &nonce, &ours.public_key(), &theirs), None);
}

#[test]
fn keys_and_nonces_have_fixed_lengths() {
    assert!(SecretKey::from_slice(&[0u8; 32]).is_some());
    assert!(SecretKey::from_slice(&[0u8; 31]).is_none());
    assert!(PublicKey::from_slice(&[0u8; 33]).is_none());
    assert_eq!(PublicKey::from_slice(&[6u8; 32]).unwrap().as_bytes(), &[6u8; 32]);
    assert!(Nonce::from_slice(&[0u8; 24]).is_some());
    assert!(Nonce::from_slice(&[0u8; 16]).is_none());
    assert_eq!(to_array::<4>(&[1, 2, 3, 4]), Some([1u8, 2, 3, 4]));
    assert_eq!(to_array::<4>(&[1, 2, 3]), None);
    assert_eq!(to_array::<0>(&[]), Some([]));
}

#[test]
fn keys_and_nonces_go_over_the_wire_as_base64() {
    assert_eq!(serialize_public_key(&PublicKey::new([0u8; 32])), "AAAAAAAAAAAAAAAAAAAAAAAAAAAAAAAAAAAAAAAAAAA=");
    assert_eq!(serialize_nonce(&Nonce::new([255u8; 24])), "////////////////////////////////");
}

#[test]
fn a_sealed_form_is_kept_only_where_it_opened_to_the_message() {
    assert_eq!(keep_sealed(vec![1, 2, 3], Some(b"m".to_vec()), b"m").unwrap(), vec![1, 2, 3]);
    let e = keep_sealed(vec![1, 2, 3], Some(b"n".to_vec()), b"m").unwrap_err();
    assert_eq!(e.kind(), ErrorKind::Crypto);
    assert_eq!(e.description(), SEAL_FAILED);
    assert!(keep_sealed(vec![1, 2, 3], Some(b"mm".to_vec()), b"m").is_err());
    assert!(keep_sealed(vec![1, 2, 3], None, b"m").is_err());
    assert_eq!(keep_sealed(vec![], Some(vec![]), b"").unwrap(), Vec::<u8>::new());
}
