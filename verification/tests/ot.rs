use oblivious_transfer::cipher::decrypt;
use oblivious_transfer::cipher::encrypt_once;
use oblivious_transfer::kdf::derive_key;
use oblivious_transfer::protocol::Receiver;
use oblivious_transfer::protocol::Sender;
use oblivious_transfer::protocol::oblivious_transfer;
use rand::SeedableRng;
use rand::rngs::StdRng;

#[test]
fn end_to_end_choice_0() {
    let mut rng = StdRng::seed_from_u64(0);
    let (guess0, _guess1) = oblivious_transfer(
        &mut rng,
        b"Super secret message 1".to_vec(),
        b"Super secret message 2".to_vec(),
        false,
    );
    assert_eq!(guess0, b"Super secret message 1".to_vec());
}

#[test]
fn end_to_end_choice_1() {
    let mut rng = StdRng::seed_from_u64(0);
    let (_guess0, guess1) = oblivious_transfer(
        &mut rng,
        b"Super secret message 1".to_vec(),
        b"Super secret message 2".to_vec(),
        true,
    );
    assert_eq!(guess1, b"Super secret message 2".to_vec());
}

#[test]
fn correctness_choice_0_various_messages() {
    let pairs: [(Vec<u8>, Vec<u8>); 3] = [
        (vec![], vec![1, 2, 3]),
        (vec![0xff, 0x00, 0x80], vec![]),
        (vec![42; 1000], vec![7; 3]),
    ];
    let mut seed: u64 = 1;
    for (m0, m1) in pairs {
        let mut rng = StdRng::seed_from_u64(seed);
        let (guess0, _) = oblivious_transfer(&mut rng, m0.clone(), m1, false);
        assert_eq!(guess0, m0);
        seed += 1;
    }
}

#[test]
fn correctness_choice_1_various_messages() {
    let pairs: [(Vec<u8>, Vec<u8>); 3] = [
        (vec![], vec![1, 2, 3]),
        (vec![0xff, 0x00, 0x80], vec![]),
        (vec![42; 3], vec![7; 1000]),
    ];
    let mut seed: u64 = 100;
    for (m0, m1) in pairs {
        let mut rng = StdRng::seed_from_u64(seed);
        let (_, guess1) = oblivious_transfer(&mut rng, m0, m1.clone(), true);
        assert_eq!(guess1, m1);
        seed += 1;
    }
}

#[test]
fn non_chosen_message_stays_secret() {
    // The receiver's single key never matches the key of the non-chosen
    // message: the wrong decryption does not recover that plaintext.
    let m0 = b"first plaintext of known content".to_vec();
    let m1 = b"second plaintext of known content".to_vec();
    let mut rng = StdRng::seed_from_u64(7);
    let (_, guess1) = oblivious_transfer(&mut rng, m0.clone(), m1.clone(), false);
    assert_ne!(guess1, m1);
    let mut rng = StdRng::seed_from_u64(8);
    let (guess0, _) = oblivious_transfer(&mut rng, m0.clone(), m1.clone(), true);
    assert_ne!(guess0, m0);
}

#[test]
fn four_message_exchange_matches_orchestrator() {
    // Driving the two roles by hand gives the same result as the
    // single-call exchange.
    let mut rng = StdRng::seed_from_u64(11);
    let sender = Sender::new(&mut rng, b"left".to_vec(), b"right".to_vec());
    let point_a = sender.public_point();
    let receiver = Receiver::new(&mut rng, &point_a, true);
    let point_b = receiver.public_point();
    let (ciphertext0, ciphertext1) = sender.derive_and_encrypt(&point_b);
    let (guess0, guess1) = receiver.decrypt_both(ciphertext0, ciphertext1);
    assert_eq!(guess1, b"right".to_vec());
    assert_ne!(guess0, b"left".to_vec());
}

#[test]
fn transcripts_are_fresh_across_runs() {
    // Necessary condition for obliviousness: the receiver's point is fresh
    // per run and does not repeat between choice 0 and choice 1 runs.
    let mut seen: Vec<[u8; 32]> = Vec::new();
    for seed in 0..16u64 {
        for choice in [false, true] {
            let mut rng = StdRng::seed_from_u64(seed);
            let sender = Sender::new(&mut rng, vec![1], vec![2]);
            let point_a = sender.public_point();
            let receiver = Receiver::new(&mut rng, &point_a, choice);
            let b_bytes = receiver.public_point().to_bytes();
            assert!(!seen.contains(&b_bytes));
            seen.push(b_bytes);
        }
    }
}

#[test]
fn kdf_is_deterministic() {
    let mut rng = StdRng::seed_from_u64(3);
    let sender = Sender::new(&mut rng, vec![], vec![]);
    let point = sender.public_point();
    assert_eq!(derive_key(&point), derive_key(&point));
}

#[test]
fn kdf_separates_points() {
    // Collision spot-check: distinct points give distinct keys, and no key
    // equals the point's own encoding.
    let mut keys: Vec<[u8; 32]> = Vec::new();
    for seed in 0..8u64 {
        let mut rng = StdRng::seed_from_u64(seed);
        let sender = Sender::new(&mut rng, vec![], vec![]);
        let point = sender.public_point();
        let key = derive_key(&point);
        assert_ne!(key, point.to_bytes());
        assert!(!keys.contains(&key));
        keys.push(key);
    }
}

#[test]
fn cipher_round_trips() {
    let key = [0xabu8; 32];
    let cases: [Vec<u8>; 4] = [
        vec![],
        vec![0x00],
        vec![0xff, 0xfe, 0x80, 0x00, 0x01],
        (0..=255u8).cycle().take(4096).collect(),
    ];
    for original in cases {
        let mut buffer = original.clone();
        encrypt_once(&key, &mut buffer);
        if !original.is_empty() {
            assert_ne!(buffer, original);
        }
        decrypt(&key, &mut buffer);
        assert_eq!(buffer, original);
    }
}

#[test]
fn cipher_keys_matter() {
    let mut buffer = b"attack at dawn".to_vec();
    encrypt_once(&[1u8; 32], &mut buffer);
    decrypt(&[2u8; 32], &mut buffer);
    assert_ne!(buffer, b"attack at dawn".to_vec());
}

#[test]
fn empty_messages_round_trip() {
    let mut rng = StdRng::seed_from_u64(5);
    let (guess0, guess1) = oblivious_transfer(&mut rng, vec![], vec![], false);
    assert_eq!(guess0, Vec::<u8>::new());
    assert_eq!(guess1, Vec::<u8>::new());
}
