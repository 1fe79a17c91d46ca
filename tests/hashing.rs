use atom_pw::codec::{decode_le, encode_le};
use atom_pw::config::{Argon2Config, ConfigError};
use atom_pw::hashing::{argon2_params_valid, bytes_equal, HashAlgorithm, HashEngine, HashVersion};

fn config() -> Argon2Config {
    Argon2Config {
        pepper: "pepper".to_string(),
        algorithm: "Argon2id".to_string(),
        version: 19,
        m_cost: 8,
        t_cost: 1,
        p_cost: 1,
        output_len: 32,
    }
}

fn engine() -> HashEngine {
    let c = config();
    assert_eq!(c.validate(), Ok(()));
    c.to_argon2()
}

#[test]
fn le_encoding_is_little_endian() {
    assert_eq!(encode_le(1), vec![1, 0, 0, 0, 0, 0, 0, 0]);
    assert_eq!(encode_le(0x0102_0304_0506_0708), vec![8, 7, 6, 5, 4, 3, 2, 1]);
    assert_eq!(encode_le(u64::MAX), vec![255; 8]);
}

#[test]
fn le_decoding_reads_back() {
    assert_eq!(decode_le(&[8, 7, 6, 5, 4, 3, 2, 1]), Some(0x0102_0304_0506_0708));
    assert_eq!(decode_le(&encode_le(12345)), Some(12345));
    assert_eq!(decode_le(&[1, 2, 3]), None);
    assert_eq!(decode_le(&[0; 9]), None);
}

#[test]
fn salt_is_unpadded_base64_of_le_id() {
    assert_eq!(HashEngine::salt(1), "AQAAAAAAAAA");
    assert_eq!(HashEngine::salt(0), "AAAAAAAAAAA");
    assert_eq!(HashEngine::salt(u64::MAX), "//////////8");
}

#[test]
fn hash_is_deterministic() {
    let e = engine();
    let a = e.hash("hunter2", 7).unwrap();
    let b = e.hash("hunter2", 7).unwrap();
    assert_eq!(a, b);
    assert_eq!(a.len(), 32);
    assert_ne!(a, b"hunter2".to_vec());
}

#[test]
fn hash_differs_by_password() {
    let e = engine();
    assert_ne!(e.hash("secret1", 1).unwrap(), e.hash("secret2", 1).unwrap());
}

#[test]
fn hash_differs_by_identifier() {
    let e = engine();
    assert_ne!(e.hash("secret1", 1).unwrap(), e.hash("secret1", 2).unwrap());
}

#[test]
fn hash_depends_on_pepper() {
    let mut c = config();
    c.pepper = "other pepper".to_string();
    let other = c.to_argon2();
    assert_ne!(engine().hash("secret1", 1).unwrap(), other.hash("secret1", 1).unwrap());
}

#[test]
fn output_len_is_configured() {
    let mut c = config();
    c.output_len = 16;
    assert_eq!(c.to_argon2().hash("pw", 3).unwrap().len(), 16);
}

#[test]
fn verify_pw_compares_stored_hash() {
    let e = engine();
    let stored = e.hash("right", 5).unwrap();
    assert_eq!(e.verify_pw(&stored, "right", 5), Some(true));
    assert_eq!(e.verify_pw(&stored, "wrong", 5), Some(false));
    assert_eq!(e.verify_pw(&stored, "right", 6), Some(false));
    assert_eq!(e.verify_pw(&[], "right", 5), Some(false));
}

#[test]
fn bytes_equal_compares_whole_strings() {
    assert!(bytes_equal(&[], &[]));
    assert!(bytes_equal(&[1, 2, 3], &[1, 2, 3]));
    assert!(!bytes_equal(&[1, 2, 3], &[1, 2, 4]));
    assert!(!bytes_equal(&[1, 2], &[1, 2, 3]));
}

#[test]
fn config_names_and_versions() {
    let e = engine();
    assert_eq!(e.params().algorithm, HashAlgorithm::Argon2id);
    assert_eq!(e.params().version, HashVersion::V0x13);
    assert_eq!(e.pepper(), "pepper");
    let mut c = config();
    c.algorithm = "Argon2d".to_string();
    c.version = 16;
    let e = c.to_argon2();
    assert_eq!(e.params().algorithm, HashAlgorithm::Argon2d);
    assert_eq!(e.params().version, HashVersion::V0x10);
    c.algorithm = "Argon2i".to_string();
    assert_eq!(c.to_argon2().params().algorithm, HashAlgorithm::Argon2i);
}

#[test]
fn config_unknown_algorithm() {
    let mut c = config();
    c.algorithm = "argon2id".to_string();
    assert_eq!(c.validate().unwrap_err(), ConfigError::UnknownAlgorithm);
    c.version = 3;
    assert_eq!(c.validate().unwrap_err(), ConfigError::UnknownAlgorithm);
}

#[test]
fn config_unknown_version() {
    let mut c = config();
    c.version = 18;
    assert_eq!(c.validate().unwrap_err(), ConfigError::UnknownVersion);
}

#[test]
fn config_invalid_params() {
    let mut c = config();
    c.t_cost = 0;
    assert_eq!(c.validate().unwrap_err(), ConfigError::InvalidParams);
    let mut c = config();
    c.m_cost = 15;
    c.p_cost = 2;
    assert_eq!(c.validate().unwrap_err(), ConfigError::InvalidParams);
    let mut c = config();
    c.output_len = 3;
    assert_eq!(c.validate().unwrap_err(), ConfigError::InvalidParams);
    let mut c = config();
    c.output_len = 9;
    assert_eq!(c.validate().unwrap_err(), ConfigError::InvalidParams);
    let mut c = config();
    c.output_len = 65;
    assert_eq!(c.validate().unwrap_err(), ConfigError::InvalidParams);
    let mut c = config();
    c.output_len = 64;
    assert_eq!(c.to_argon2().hash("pw", 1).unwrap().len(), 64);
    let mut c = config();
    c.output_len = 10;
    assert_eq!(c.to_argon2().hash("pw", 1).unwrap().len(), 10);
    let mut c = config();
    c.p_cost = u32::MAX;
    assert_eq!(c.validate().unwrap_err(), ConfigError::InvalidParams);
}

#[test]
fn params_bounds() {
    assert!(argon2_params_valid(8, 1, 1, 4));
    assert!(argon2_params_valid(19 * 1024, 2, 1, 32));
    assert!(!argon2_params_valid(7, 1, 1, 32));
    assert!(!argon2_params_valid(8, 1, 0, 32));
    assert!(!argon2_params_valid(u32::MAX, 1, 0x100_0000, 32));
    assert!(argon2_params_valid(u32::MAX, 1, 0xFF_FFFF, 32));
}

#[test]
fn salts_differ_by_identifier() {
    assert_ne!(HashEngine::salt(1), HashEngine::salt(2));
    assert_ne!(HashEngine::salt(1), HashEngine::salt(1 << 8));
    assert_eq!(HashEngine::salt(1 << 56), "AAAAAAAAAAE");
}
