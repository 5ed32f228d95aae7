use safe_nacl::padding_constants::{
    BOX_BOXZEROBYTES, BOX_ZEROBYTES, SECRETBOX_BOXZEROBYTES, SECRETBOX_ZEROBYTES,
};
use safe_nacl::safe_box::{
    safe_box, safe_box_keypair, safe_box_keypair_seed, safe_box_open, SafeBoxNonce,
};
use safe_nacl::safe_secretbox::{
    safe_secretbox, safe_secretbox_open, SafeSecretboxKey, SafeSecretboxNonce,
};
use safe_nacl::safe_sign::{
    safe_sign_attached, safe_sign_attached_open, safe_sign_keypair, safe_sign_keypair_seed,
    SIGN_LEN,
};
use safe_nacl::types::{SafeSecureSeed, SecureSeed};

/// A small deterministic generator of test inputs.
struct Lcg(u64);

impl Lcg {
    fn next(&mut self) -> u64 {
        self.0 = self.0.wrapping_mul(6364136223846793005).wrapping_add(1442695040888963407);
        self.0 >> 33
    }

    fn bytes(&mut self, len: usize) -> Vec<u8> {
        (0..len).map(|_| self.next() as u8).collect()
    }

    fn array<const N: usize>(&mut self) -> [u8; N] {
        let mut a = [0u8; N];
        for b in a.iter_mut() {
            *b = self.next() as u8;
        }
        a
    }
}

fn message_lengths() -> Vec<usize> {
    vec![0, 1, 15, 16, 17, 31, 32, 33, 64, 100, 1000]
}

#[test]
fn safe_box_prop_box_bijection() {
    let mut rng = Lcg(23);
    for len in message_lengths() {
        let our_seed: SecureSeed = rng.array();
        let their_seed: SecureSeed = rng.array();
        if our_seed == their_seed {
            continue;
        }
        let nonce: SafeBoxNonce = rng.array::<24>().into();
        let message = rng.bytes(len);

        let sender_seed: SafeSecureSeed = our_seed.into();
        let receiver_seed: SafeSecureSeed = their_seed.into();
        let (sender_pk, sender_sk) = safe_box_keypair_seed(&sender_seed);
        let (receiver_pk, receiver_sk) = safe_box_keypair_seed(&receiver_seed);

        let ciphertext = safe_box(&message, &nonce, &receiver_pk, &sender_sk);
        let plaintext = safe_box_open(&ciphertext, &nonce, &sender_pk, &receiver_sk)
            .expect("safe_box_open failed");

        assert_eq!(plaintext, message);
    }
}

#[test]
fn prop_secretbox_bijection() {
    let mut rng = Lcg(29);
    for len in message_lengths() {
        let key: SafeSecretboxKey = rng.array::<32>().into();
        let nonce: SafeSecretboxNonce = rng.array::<24>().into();
        let message = rng.bytes(len);

        let ciphertext = safe_secretbox(&message, &nonce, &key);
        let plaintext =
            safe_secretbox_open(&ciphertext, &nonce, &key).expect("safe_secretbox_open failed");

        assert_eq!(plaintext, message);
    }
}

#[test]
fn safe_sign_prop_box_bijection() {
    let mut rng = Lcg(31);
    for len in message_lengths() {
        let seed: SafeSecureSeed = rng.array::<32>().into();
        let unsigned_message = rng.bytes(len);

        let (signer_pk, signer_sk) = safe_sign_keypair_seed(&seed);

        let signed_message = safe_sign_attached(&unsigned_message, &signer_sk);
        let verified_message = safe_sign_attached_open(&signed_message, &signer_pk)
            .expect("safe_sign_attached_open failed");

        assert_eq!(verified_message, unsigned_message);
    }
}

#[test]
fn box_example_scenario() {
    let seed_a: SafeSecureSeed = [0x01u8; 32].into();
    let seed_b: SafeSecureSeed = [0x02u8; 32].into();
    let (pk_a, sk_a) = safe_box_keypair_seed(&seed_a);
    let (pk_b, sk_b) = safe_box_keypair_seed(&seed_b);
    let nonce: SafeBoxNonce = [0u8; 24].into();

    let ciphertext = safe_box(b"hello", &nonce, &pk_b, &sk_a);
    assert_eq!(ciphertext.len(), 5 + 16);
    assert_eq!(
        safe_box_open(&ciphertext, &nonce, &pk_a, &sk_b),
        Some(b"hello".to_vec())
    );

    let mut altered = [0u8; 24];
    altered[0] = 1;
    let altered_nonce: SafeBoxNonce = altered.into();
    assert_eq!(safe_box_open(&ciphertext, &altered_nonce, &pk_a, &sk_b), None);
}

#[test]
fn box_ciphertext_is_not_the_plaintext() {
    let (pk_a, sk_a) = safe_box_keypair_seed(&[0x01u8; 32].into());
    let (pk_b, _) = safe_box_keypair_seed(&[0x02u8; 32].into());
    let nonce: SafeBoxNonce = [0u8; 24].into();
    let message = vec![0u8; 48];
    let ciphertext = safe_box(&message, &nonce, &pk_b, &sk_a);
    assert_eq!(ciphertext.len(), 64);
    assert_ne!(&ciphertext[16..], message.as_slice());
    assert_ne!(pk_a.as_ref(), &[0x01u8; 32]);
}

#[test]
fn box_keypair_seed_keeps_seed_as_secret_key() {
    let seed: SecureSeed = [0x05u8; 32];
    let (pk, sk) = safe_box_keypair_seed(&seed.into());
    assert_eq!(sk.as_ref(), &seed);
    let (pk2, sk2) = safe_box_keypair_seed(&seed.into());
    assert_eq!(pk, pk2);
    assert_eq!(sk, sk2);
}

#[test]
fn box_tamper_ciphertext_bit() {
    let (pk_a, sk_a) = safe_box_keypair_seed(&[0x01u8; 32].into());
    let (pk_b, sk_b) = safe_box_keypair_seed(&[0x02u8; 32].into());
    let nonce: SafeBoxNonce = [9u8; 24].into();
    let ciphertext = safe_box(b"attack at dawn", &nonce, &pk_b, &sk_a);
    for i in 0..ciphertext.len() {
        for bit in 0..8 {
            let mut tampered = ciphertext.clone();
            tampered[i] ^= 1 << bit;
            assert_eq!(safe_box_open(&tampered, &nonce, &pk_a, &sk_b), None);
        }
    }
}

#[test]
fn box_open_wrong_key_fails() {
    let (_, sk_a) = safe_box_keypair_seed(&[0x01u8; 32].into());
    let (pk_b, sk_b) = safe_box_keypair_seed(&[0x02u8; 32].into());
    let (pk_c, _) = safe_box_keypair_seed(&[0x03u8; 32].into());
    let nonce: SafeBoxNonce = [0u8; 24].into();
    let ciphertext = safe_box(b"hello", &nonce, &pk_b, &sk_a);
    assert_eq!(safe_box_open(&ciphertext, &nonce, &pk_c, &sk_b), None);
}

#[test]
fn box_open_short_ciphertext_fails() {
    let (pk_a, _) = safe_box_keypair_seed(&[0x01u8; 32].into());
    let (_, sk_b) = safe_box_keypair_seed(&[0x02u8; 32].into());
    let nonce: SafeBoxNonce = [0u8; 24].into();
    assert_eq!(safe_box_open(&[], &nonce, &pk_a, &sk_b), None);
    assert_eq!(safe_box_open(&[0u8; 15], &nonce, &pk_a, &sk_b), None);
}

#[test]
fn box_random_keypair_round_trip() {
    let (pk_a, sk_a) = safe_box_keypair();
    let (pk_b, sk_b) = safe_box_keypair();
    let nonce: SafeBoxNonce = [3u8; 24].into();
    let ciphertext = safe_box(b"random keys", &nonce, &pk_b, &sk_a);
    assert_eq!(
        safe_box_open(&ciphertext, &nonce, &pk_a, &sk_b),
        Some(b"random keys".to_vec())
    );
}

#[test]
fn secretbox_tamper_ciphertext_and_nonce() {
    let key: SafeSecretboxKey = [0x42u8; 32].into();
    let nonce_bytes = [0x11u8; 24];
    let nonce: SafeSecretboxNonce = nonce_bytes.into();
    let ciphertext = safe_secretbox(b"secret", &nonce, &key);
    assert_eq!(ciphertext.len(), 6 + 16);
    assert_ne!(&ciphertext[16..], b"secret");
    for i in 0..ciphertext.len() {
        let mut tampered = ciphertext.clone();
        tampered[i] ^= 0x80;
        assert_eq!(safe_secretbox_open(&tampered, &nonce, &key), None);
    }
    for i in 0..24 {
        let mut altered = nonce_bytes;
        altered[i] ^= 1;
        assert_eq!(safe_secretbox_open(&ciphertext, &altered.into(), &key), None);
    }
}

#[test]
fn secretbox_open_wrong_key_or_short_input_fails() {
    let key: SafeSecretboxKey = [0x42u8; 32].into();
    let other: SafeSecretboxKey = [0x43u8; 32].into();
    let nonce: SafeSecretboxNonce = [0u8; 24].into();
    let ciphertext = safe_secretbox(b"secret", &nonce, &key);
    assert_eq!(safe_secretbox_open(&ciphertext, &nonce, &other), None);
    assert_eq!(safe_secretbox_open(&[], &nonce, &key), None);
    assert_eq!(safe_secretbox_open(&[1u8; 15], &nonce, &key), None);
}

#[test]
fn sign_layout_and_keys() {
    let seed: SecureSeed = [0x07u8; 32];
    let (pk, sk) = safe_sign_keypair_seed(&seed.into());
    assert_eq!(&sk.as_ref()[..32], &seed);
    assert_eq!(&sk.as_ref()[32..], pk.as_ref());
    let signed = safe_sign_attached(b"message", &sk);
    assert_eq!(signed.len(), 7 + SIGN_LEN);
    assert_eq!(&signed[SIGN_LEN..], b"message");
    assert_ne!(&signed[..SIGN_LEN], &[0u8; 64][..]);
}

#[test]
fn sign_tamper_signature_and_message() {
    let (pk, sk) = safe_sign_keypair_seed(&[0x07u8; 32].into());
    let signed = safe_sign_attached(b"message", &sk);
    for i in 0..signed.len() {
        let mut tampered = signed.clone();
        tampered[i] ^= 0x01;
        assert_eq!(safe_sign_attached_open(&tampered, &pk), None);
    }
}

#[test]
fn sign_verify_wrong_key_or_short_input_fails() {
    let (_, sk) = safe_sign_keypair_seed(&[0x07u8; 32].into());
    let (other_pk, _) = safe_sign_keypair_seed(&[0x08u8; 32].into());
    let signed = safe_sign_attached(b"message", &sk);
    assert_eq!(safe_sign_attached_open(&signed, &other_pk), None);
    let (pk, _) = safe_sign_keypair_seed(&[0x07u8; 32].into());
    assert_eq!(safe_sign_attached_open(&signed[..63], &pk), None);
    assert_eq!(safe_sign_attached_open(&[], &pk), None);
}

#[test]
fn sign_random_keypair_round_trip() {
    let (pk, sk) = safe_sign_keypair();
    let signed = safe_sign_attached(b"", &sk);
    assert_eq!(signed.len(), SIGN_LEN);
    assert_eq!(safe_sign_attached_open(&signed, &pk), Some(vec![]));
}

#[test]
fn sign_len_matches_primitive_library() {
    assert_eq!(SIGN_LEN, sodalite::SIGN_LEN);
    let (pk, _) = safe_sign_keypair_seed(&[0x07u8; 32].into());
    assert_ne!(pk.as_ref(), &[0x07u8; 32]);
}

#[test]
fn padding_constants_values() {
    assert_eq!(BOX_ZEROBYTES, 32);
    assert_eq!(BOX_BOXZEROBYTES, 16);
    assert_eq!(SECRETBOX_ZEROBYTES, 32);
    assert_eq!(SECRETBOX_BOXZEROBYTES, 16);
}

#[test]
fn box_random_keypair_public_key_matches_secret_key() {
    let (pk, sk) = safe_box_keypair();
    let seed: SecureSeed = *sk.as_ref();
    let (derived_pk, derived_sk) = safe_box_keypair_seed(&seed.into());
    assert_eq!(pk, derived_pk);
    assert_eq!(sk, derived_sk);
}

#[test]
fn sign_random_keypair_public_key_matches_secret_key() {
    let (pk, sk) = safe_sign_keypair();
    assert_eq!(&sk.as_ref()[32..], pk.as_ref());
    let mut seed: SecureSeed = [0u8; 32];
    seed.copy_from_slice(&sk.as_ref()[..32]);
    let (derived_pk, derived_sk) = safe_sign_keypair_seed(&seed.into());
    assert_eq!(pk, derived_pk);
    assert_eq!(sk, derived_sk);
}

#[test]
fn open_results_are_shorter_by_the_padding() {
    let key: SafeSecretboxKey = [0x42u8; 32].into();
    let nonce: SafeSecretboxNonce = [0u8; 24].into();
    let ciphertext = safe_secretbox(b"twelve bytes", &nonce, &key);
    let plaintext = safe_secretbox_open(&ciphertext, &nonce, &key).unwrap();
    assert_eq!(plaintext.len() + 16, ciphertext.len());

    let (pk, sk) = safe_sign_keypair_seed(&[0x09u8; 32].into());
    let signed = safe_sign_attached(b"abc", &sk);
    let verified = safe_sign_attached_open(&signed, &pk).unwrap();
    assert_eq!(verified.len() + SIGN_LEN, signed.len());
}
