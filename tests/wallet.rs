use blockchain_wallet::app::{wallet_from_entropy, App, Stamp};
use blockchain_wallet::codec::{decode, encode, DecodeError};
use blockchain_wallet::store::{load, parse_records, StoreError};
use blockchain_wallet::wallet::{derive_address, derive_wallet};

fn sample_seed(k: u8) -> [u8; 32] {
    let mut s = [0u8; 32];
    for (i, b) in s.iter_mut().enumerate() {
        *b = (i as u8).wrapping_mul(7).wrapping_add(k);
    }
    s
}

fn lines(v: &[&str]) -> Vec<String> {
    v.iter().map(|l| l.to_string()).collect()
}

#[test]
fn encode_is_lowercase_hex() {
    let mut seed = [0u8; 32];
    seed[0] = 0x01;
    seed[1] = 0xab;
    seed[31] = 0xff;
    let line = encode(&seed);
    assert_eq!(line.len(), 64);
    assert_eq!(&line[..4], "01ab");
    assert_eq!(&line[60..], "00ff");
    assert_eq!(encode(&[0u8; 32]), "0".repeat(64));
}

#[test]
fn decode_round_trip() {
    for k in [0u8, 1, 200, 255] {
        let s = sample_seed(k);
        assert_eq!(decode(&encode(&s)), Ok(s));
    }
}

#[test]
fn decode_trims_and_accepts_upper_case() {
    let s = sample_seed(3);
    let padded = format!(" \t{}\u{a0}\r\n", encode(&s).to_uppercase());
    assert_eq!(decode(&padded), Ok(s));
}

#[test]
fn decode_errors() {
    assert_eq!(decode("zz"), Err(DecodeError::InvalidEncoding));
    assert_eq!(decode("abc"), Err(DecodeError::InvalidEncoding));
    assert_eq!(decode("abcd"), Err(DecodeError::WrongLength));
    assert_eq!(decode(&"ab".repeat(33)), Err(DecodeError::WrongLength));
    assert_eq!(decode(""), Err(DecodeError::WrongLength));
    let mut bad = encode(&sample_seed(1));
    bad.replace_range(10..11, "g");
    assert_eq!(decode(&bad), Err(DecodeError::InvalidEncoding));
}

#[test]
fn load_missing_file_is_empty() {
    assert_eq!(load(None), Ok(Vec::new()));
}

#[test]
fn load_skips_blank_lines() {
    let a = encode(&sample_seed(1));
    let b = encode(&sample_seed(2));
    let with_blanks = lines(&["", &a, "   ", "\t", &b, ""]);
    let stripped = lines(&[&a, &b]);
    let expected = vec![sample_seed(1), sample_seed(2)];
    assert_eq!(parse_records(&with_blanks), Ok(expected.clone()));
    assert_eq!(parse_records(&stripped), Ok(expected));
}

#[test]
fn load_rejects_short_record() {
    let a = encode(&sample_seed(1));
    let file = lines(&[&a, "abcdef", &a]);
    assert_eq!(parse_records(&file), Err(StoreError::InvalidData));
    assert_eq!(load(Some(&file)), Err(StoreError::InvalidData));
}

#[test]
fn failed_load_keeps_seeds() {
    let mut app = App::new();
    let good = lines(&[&encode(&sample_seed(1))]);
    assert_eq!(app.load_seeds(Ok(Some(good))), Ok(()));
    assert_eq!(app.seeds(), &vec![sample_seed(1)]);
    let bad = lines(&[&encode(&sample_seed(1)), "00"]);
    assert_eq!(app.load_seeds(Ok(Some(bad))), Err(StoreError::InvalidData));
    assert_eq!(app.seeds(), &vec![sample_seed(1)]);
    assert_eq!(app.load_seeds(Err(StoreError::Io)), Err(StoreError::Io));
    assert_eq!(app.seeds(), &vec![sample_seed(1)]);
    assert_eq!(app.load_seeds(Ok(None)), Ok(()));
    assert!(app.seeds().is_empty());
}

#[test]
fn new_app_state() {
    let app = App::new();
    assert!(app.running());
    assert!(!app.button_pressed());
    assert!(app.seeds().is_empty());
    assert_eq!(app.keys_path(), "./keys.txt");
}

#[test]
fn quit_stops() {
    let mut app = App::new();
    app.quit();
    assert!(!app.running());
}

#[test]
fn poll_interval() {
    let mut app = App::new();
    assert!(app.poll_due(1000));
    assert!(!app.poll_due(1050));
    assert!(!app.poll_due(1099));
    assert!(app.poll_due(1100));
    assert!(!app.poll_due(500));
    assert!(app.poll_due(1200));
}

#[test]
fn watermark_stability() {
    let mut app = App::new();
    let t = Stamp { secs: 10, nanos: 5 };
    assert!(!app.observe_modified(None));
    assert!(app.observe_modified(Some(t)));
    assert!(!app.observe_modified(Some(t)));
    assert!(app.observe_modified(Some(Stamp { secs: 10, nanos: 6 })));
    assert!(!app.observe_modified(None));
}

#[test]
fn entropy_failure_generates_nothing() {
    let mut app = App::new();
    let mut file: Vec<String> = Vec::new();
    let w = wallet_from_entropy(None);
    assert!(w.is_none());
    if let Some(w) = w {
        file.push(w.record.clone());
        let _ = app.record_saved(w.seed, Ok(None));
    }
    assert!(app.seeds().is_empty());
    assert!(file.is_empty());
}

#[test]
fn failed_append_leaves_no_wallet() {
    let mut app = App::new();
    assert_eq!(app.record_saved(sample_seed(1), Err(StoreError::Io)), Err(StoreError::Io));
    assert!(app.seeds().is_empty());
    assert!(!app.button_pressed());
}

#[test]
fn append_then_load() {
    let mut app = App::new();
    let mut file: Vec<String> = Vec::new();
    for k in 0..5u8 {
        let w = wallet_from_entropy(Some(sample_seed(k))).unwrap();
        file.push(w.record.clone());
        assert_eq!(app.record_saved(w.seed, Ok(Some(Stamp { secs: k as u64, nanos: 0 }))), Ok(()));
    }
    assert_eq!(&parse_records(&file).unwrap(), app.seeds());
    assert_eq!(app.seeds().len(), 5);
}

#[test]
fn append_moves_watermark() {
    let mut app = App::new();
    let t = Stamp { secs: 7, nanos: 0 };
    assert_eq!(app.record_saved(sample_seed(1), Ok(Some(t))), Ok(()));
    assert!(app.button_pressed());
    assert!(!app.observe_modified(Some(t)));
}

#[test]
fn derivation_is_deterministic() {
    let s = sample_seed(9);
    assert_eq!(derive_address(&s), derive_address(&s));
    assert_ne!(derive_address(&s), derive_address(&sample_seed(10)));
    let w = derive_wallet(&s);
    assert_eq!(w.address, derive_address(&s));
    assert_eq!(w.private_key, encode(&s));
    assert_eq!(w.public_key.len(), 64);
    assert_ne!(w.public_key, w.private_key);
    assert!(w.address.starts_with('5'));
    assert_eq!(w.address.len(), 48);
}

#[test]
fn random_wallet_is_consistent() {
    let w = App::generate_random_wallet().expect("entropy source available");
    assert_eq!(decode(&w.record), Ok(w.seed));
    assert_eq!(w.address, derive_address(&w.seed));
}

#[test]
fn end_to_end_two_wallets() {
    let mut app = App::new();
    let mut file: Vec<String> = Vec::new();
    assert_eq!(app.load_seeds(Ok(Some(file.clone()))), Ok(()));
    let seeds = [sample_seed(21), sample_seed(42)];
    for (k, s) in seeds.iter().enumerate() {
        let w = wallet_from_entropy(Some(*s)).unwrap();
        assert_eq!(w.address, derive_address(s));
        file.push(w.record.clone());
        assert_eq!(app.record_saved(w.seed, Ok(Some(Stamp { secs: k as u64 + 1, nanos: 0 }))), Ok(()));
    }
    assert_eq!(app.seeds().len(), 2);
    assert_eq!(file.iter().filter(|l| !l.trim().is_empty()).count(), 2);
    assert_eq!(
        app.wallet_addresses(),
        vec![derive_address(&seeds[0]), derive_address(&seeds[1])]
    );
}
