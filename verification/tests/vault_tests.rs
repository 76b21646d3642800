use crypto_bro::checksum::sha256_checksum;
use crypto_bro::cipher::decrypt_aes256_cbc;
use crypto_bro::key_material::{decode_key, encode_key, KeyError};
use crypto_bro::vault::{
    join_path, pack, packed_name, select_by_index, unpack, unpacked_name, FileVaultError,
};

fn listing() -> Vec<String> {
    vec!["data/a.env".to_string(), "data/b.txt".to_string(), "data/c.env".to_string()]
}

fn token() -> String {
    let key: Vec<u8> = (100u8..132).collect();
    encode_key(&key)
}

#[test]
fn selection_counts_from_one() {
    let files = listing();
    assert_eq!(select_by_index(&files, "1"), Some("data/a.env".to_string()));
    assert_eq!(select_by_index(&files, "2\n"), Some("data/b.txt".to_string()));
    assert_eq!(select_by_index(&files, "  3  "), Some("data/c.env".to_string()));
    assert_eq!(select_by_index(&files, "+2"), Some("data/b.txt".to_string()));
    assert_eq!(select_by_index(&files, "003"), Some("data/c.env".to_string()));
}

#[test]
fn selection_out_of_range_picks_nothing() {
    let files = listing();
    for answer in ["0", "4", "-1", "", " ", "a", "1 2", "1.0", "18446744073709551615", "18446744073709551616"] {
        assert_eq!(select_by_index(&files, answer), None, "answer {:?}", answer);
    }
    assert_eq!(select_by_index(&Vec::new(), "1"), None);
    assert_eq!(select_by_index(&Vec::new(), "0"), None);
}

#[test]
fn packed_name_appends_the_suffix() {
    assert_eq!(packed_name("secrets.env"), "secrets.env.locked");
    assert_eq!(packed_name(""), ".locked");
    assert_eq!(packed_name("a.locked"), "a.locked.locked");
}

#[test]
fn suffix_stripping_scenario() {
    assert_eq!(unpacked_name("secrets.env.locked"), "secrets.env");
    assert_eq!(join_path("data/decrypted", &unpacked_name("secrets.env.locked")), "data/decrypted/secrets.env");
}

#[test]
fn unpacked_name_removes_one_suffix_only() {
    assert_eq!(unpacked_name("a.locked.locked"), "a.locked");
    assert_eq!(unpacked_name(".locked"), "");
    assert_eq!(unpacked_name("notes.txt"), "notes.txt");
    assert_eq!(unpacked_name("a.locked.txt"), "a.locked.txt");
    assert_eq!(unpacked_name("alocked"), "alocked");
    assert_eq!(unpacked_name("r\u{e9}sum\u{e9}.locked"), "r\u{e9}sum\u{e9}");
    assert_eq!(unpacked_name(""), "");
    assert_eq!(unpacked_name(&packed_name("x.env")), "x.env");
}

#[test]
fn join_path_puts_a_slash_between() {
    assert_eq!(join_path("data/encrypted", "a.env.locked"), "data/encrypted/a.env.locked");
    assert_eq!(join_path("", "a"), "/a");
}

#[test]
fn pack_seals_names_and_sums() {
    let token = token();
    let packed = pack("secrets.env", b"hello-secrets", &token, "data/encrypted").expect("packs");
    assert_eq!(packed.output_path, "data/encrypted/secrets.env.locked");
    assert_eq!(packed.envelope.len(), 32);
    assert_eq!(packed.checksum, sha256_checksum(&packed.envelope));
    let key = decode_key(&token).expect("decodes");
    assert_eq!(decrypt_aes256_cbc(&packed.envelope, &key), Ok(b"hello-secrets".to_vec()));
}

#[test]
fn unpack_restores_what_pack_sealed() {
    let token = token();
    let contents: Vec<u8> = (0..300).map(|i| (i % 251) as u8).collect();
    let packed = pack("secrets.env", &contents, &token, "data/encrypted").expect("packs");
    let plain = unpack("secrets.env.locked", &packed.envelope, &token, "data/decrypted").expect("unpacks");
    assert_eq!(plain.output_path, "data/decrypted/secrets.env");
    assert_eq!(plain.plaintext, contents);
    assert_eq!(plain.checksum, sha256_checksum(&contents));
}

#[test]
fn pack_refuses_a_bad_token() {
    assert_eq!(
        pack("a", b"x", "no token", "out"),
        Err(FileVaultError::InvalidKey(KeyError::MalformedToken))
    );
    assert_eq!(pack("a", b"x", "AAAA", "out"), Err(FileVaultError::InvalidKey(KeyError::WrongLength)));
}

#[test]
fn unpack_refuses_a_bad_token_before_the_envelope() {
    assert_eq!(
        unpack("a.locked", &[], "no token", "out"),
        Err(FileVaultError::InvalidKey(KeyError::MalformedToken))
    );
    assert_eq!(
        unpack("a.locked", &[], "AAAA", "out"),
        Err(FileVaultError::InvalidKey(KeyError::WrongLength))
    );
}

#[test]
fn unpack_reports_what_does_not_open() {
    let token = token();
    assert_eq!(unpack("a.locked", &[], &token, "out"), Err(FileVaultError::DecryptionFailed));
    assert_eq!(unpack("a.locked", &[0u8; 16], &token, "out"), Err(FileVaultError::DecryptionFailed));
    let packed = pack("a", b"hello-secrets", &token, "out").expect("packs");
    let other = encode_key(&[9u8; 32]);
    match unpack("a.locked", &packed.envelope, &other, "out") {
        Ok(plain) => assert_ne!(plain.plaintext, b"hello-secrets".to_vec()),
        Err(e) => assert_eq!(e, FileVaultError::DecryptionFailed),
    }
}
