use winternitz::Winternitz;
use winternitz::WotsError;
use winternitz::hash::hash_chain;

fn round_trip(w: u8, messages: &[&[u8]]) {
    let s = Winternitz::new(w).unwrap();
    for msg in messages {
        let sig = s.sign(msg);
        assert!(s.verify(msg, &sig));
    }
}

#[test]
fn round_trip_small_parameters() {
    let messages: [&[u8]; 4] = [
        b"",
        b"a",
        b"hello world",
        b"The quick brown fox jumps over the lazy dog",
    ];
    for w in [2u8, 4, 8] {
        round_trip(w, &messages);
    }
}

#[test]
fn round_trip_w16() {
    round_trip(16, &[b"hello world"]);
}

#[test]
fn tamper_rejection() {
    let s = Winternitz::new(4).unwrap();
    let msg: &[u8] = b"tamper me";
    let sig = s.sign(msg);
    // One flipped bit in each component.
    for i in 0..sig.len() {
        let mut bad = sig.clone();
        bad[i][0] ^= 1;
        assert!(!s.verify(msg, &bad));
    }
    // Every bit of one component.
    for byte in 0..32 {
        for bit in 0..8 {
            let mut bad = sig.clone();
            bad[3][byte] ^= 1u8 << bit;
            assert!(!s.verify(msg, &bad));
        }
    }
}

#[test]
fn message_binding() {
    let s = Winternitz::new(8).unwrap();
    let sig = s.sign(b"message one");
    assert!(!s.verify(b"message two", &sig));
    assert!(s.verify(b"message one", &sig));
}

#[test]
fn key_size_law() {
    for w in [1u8, 2, 3, 4, 5, 8, 16] {
        let s = Winternitz::new(w).unwrap();
        let n = 256 / (w as usize) + 1;
        assert_eq!(s.get_public_key().len(), n);
        assert_eq!(s.get_private_key().len(), n);
    }
}

#[test]
fn chain_consistency() {
    for w in [2u8, 4] {
        let s = Winternitz::new(w).unwrap();
        let l = (1u64 << w) - 1;
        let sk = s.get_private_key();
        let pk = s.get_public_key();
        assert_eq!(sk.len(), pk.len());
        for i in 0..sk.len() {
            assert_eq!(hash_chain(&sk[i], l), pk[i]);
        }
    }
}

#[test]
fn sign_deterministic() {
    let s = Winternitz::new(8).unwrap();
    let a = s.sign(b"same message");
    let b = s.sign(b"same message");
    assert_eq!(a, b);
}

#[test]
fn length_mismatch_rejection() {
    let s = Winternitz::new(8).unwrap();
    let msg: &[u8] = b"length check";
    let sig = s.sign(msg);

    let mut short = sig.clone();
    short.pop();
    assert!(!s.verify(msg, &short));

    let mut long = sig.clone();
    long.push(vec![0u8; 32]);
    assert!(!s.verify(msg, &long));

    let empty: Vec<Vec<u8>> = Vec::new();
    assert!(!s.verify(msg, &empty));
}

#[test]
fn invalid_parameter_rejection() {
    assert!(matches!(Winternitz::new(0), Err(WotsError::InvalidParameter)));
    assert!(matches!(Winternitz::new(64), Err(WotsError::InvalidParameter)));
    assert!(matches!(Winternitz::new(255), Err(WotsError::InvalidParameter)));
}

#[test]
fn documented_scenario_w8() {
    let s = Winternitz::new(8).unwrap();
    let sig = s.sign(b"test");
    assert_eq!(sig.len(), 33);
    for component in &sig {
        assert_eq!(component.len(), 32);
    }
    assert!(s.verify(b"test", &sig));
    assert!(!s.verify(b"Test", &sig));
}

#[test]
fn public_key_components_are_digest_sized() {
    for w in [1u8, 8, 16] {
        let s = Winternitz::new(w).unwrap();
        for component in s.get_public_key() {
            assert_eq!(component.len(), 32);
        }
        for component in s.get_private_key() {
            assert_eq!(component.len(), 32);
        }
    }
}

#[test]
fn hash_chain_zero_is_identity() {
    let input = b"seed material".to_vec();
    assert_eq!(hash_chain(&input, 0), input);
}

#[test]
fn hash_chain_single_step_is_sha256() {
    // The SHA-256 digest of "abc", from the function's published test vectors.
    let input = b"abc".to_vec();
    let expected =
        hex::decode("ba7816bf8f01cfea414140de5dae2223b00361a396177a9cb410ff61f20015ad").unwrap();
    let one = hash_chain(&input, 1);
    assert_eq!(one, expected);
    assert_ne!(one, input);
}

#[test]
fn hash_chain_links_compose() {
    let input = b"compose".to_vec();
    let two = hash_chain(&input, 2);
    assert_eq!(hash_chain(&two, 3), hash_chain(&input, 5));
}

#[test]
fn fresh_keys_differ() {
    let a = Winternitz::new(8).unwrap();
    let b = Winternitz::new(8).unwrap();
    assert_ne!(a.get_public_key(), b.get_public_key());
    assert_ne!(a.get_private_key(), b.get_private_key());
}
