use message_server::model::password::{to_upper_hex, PasswordHasher, SimpleHasher};

#[test]
fn hash_is_the_sha256_digest_in_upper_hex() {
    let hasher = SimpleHasher::default();
    assert_eq!(
        hasher.hash("password"),
        "5E884898DA28047151D0E56F8DC6292773603D0D6AABBDD62A11EF721D1542D8"
    );
    assert_eq!(
        hasher.hash("pw"),
        "30C952FAB122C3F9759F02A6D95C3758B246B4FEE239957B2D4FEE46E26170C4"
    );
}

#[test]
fn hash_of_the_empty_secret() {
    assert_eq!(
        SimpleHasher.hash(""),
        "E3B0C44298FC1C149AFBF4C8996FB92427AE41E4649B934CA495991B7852B855"
    );
}

#[test]
fn hash_takes_the_utf8_bytes_of_the_secret() {
    assert_eq!(
        SimpleHasher.hash("contraseña"),
        "EDF9CF90718610EE7DE53C0DCC250739239044DE9BA115BB0CA6026C3E4958A5"
    );
}

#[test]
fn hash_is_stable_and_64_characters_long() {
    for secret in ["a", "b", "a much longer secret, with spaces", "ü"] {
        let first = SimpleHasher.hash(secret);
        assert_eq!(first, SimpleHasher.hash(secret));
        assert_eq!(first.chars().count(), 64);
        assert_ne!(first, secret);
    }
    assert_ne!(SimpleHasher.hash("a"), SimpleHasher.hash("b"));
}

#[test]
fn upper_hex_writes_two_digits_a_byte() {
    assert_eq!(to_upper_hex(&[]), "");
    assert_eq!(to_upper_hex(&[0]), "00");
    assert_eq!(to_upper_hex(&[0x0a]), "0A");
    assert_eq!(to_upper_hex(&[0xa0]), "A0");
    assert_eq!(to_upper_hex(&[0x00, 0xff, 0x1a, 0x9c]), "00FF1A9C");
    assert_eq!(to_upper_hex(&[0x01, 0x23, 0x45, 0x67, 0x89, 0xab, 0xcd, 0xef]), "0123456789ABCDEF");
}
