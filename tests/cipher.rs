use stated_dialogues::cipher::{decrypt_string, encrypt_string, DecryptionError};

#[test]
fn cipher_test_encryption() {
    let passwd = "some password!".to_string();
    let plaintext = String::from("Hellow rodl!");

    let decryted_string = decrypt_string(&passwd, encrypt_string(&passwd, plaintext.clone()));

    assert_eq!(decryted_string.unwrap(), plaintext);
}

#[test]
fn cipher_test_encryption_data() {
    let passwd = "some password!".to_string();
    let plaintext = String::from("Hellow rodl!");

    let encrypted_data = encrypt_string(&passwd, plaintext.clone());

    let result = String::from_utf8(encrypted_data.data);
    if let Ok(result_str) = result {
        assert_ne!(result_str, plaintext);
    }
}

#[test]
fn cipher_test_encryption_acces_with_wrong_passwd() {
    let result = decrypt_string(
        &"Second password!".to_string(),
        encrypt_string(&"First password!".to_string(), String::from("Some string")),
    );
    let expected = DecryptionError::WrongPassword;

    assert_eq!(result, Err(expected));
}

#[test]
fn main_test_encryption() {
    let passwd = "some password!".to_string();
    let plaintext = String::from("Hellow rodl!");

    let decryted_string = decrypt_string(&passwd, encrypt_string(&passwd, plaintext.clone()));

    assert_eq!(decryted_string.unwrap(), plaintext);
}

#[test]
fn main_test_encryption_data() {
    let passwd = "some password!".to_string();
    let plaintext = String::from("Hellow rodl!");

    let encrypted_data = encrypt_string(&passwd, plaintext.clone());

    let result = String::from_utf8(encrypted_data.data);
    if let Ok(result_str) = result {
        assert_ne!(result_str, plaintext);
    }
}

#[test]
fn main_test_encryption_acces_with_wrong_passwd() {
    let result = decrypt_string(
        &"Second password!".to_string(),
        encrypt_string(&"First password!".to_string(), String::from("Some string")),
    );
    assert_eq!(result, Err(DecryptionError::WrongPassword));
}

#[test]
fn encryption_keeps_length_and_digest() {
    let e = encrypt_string(&"k".to_string(), "привет".to_string());
    assert_eq!(e.data.len(), "привет".len());
    assert_eq!(e.hash, md5::compute("привет").to_vec());
    assert_ne!(e.data, "привет".as_bytes().to_vec());
}

#[test]
fn nonces_differ_between_encryptions() {
    let a = encrypt_string(&"k".to_string(), "same".to_string());
    let b = encrypt_string(&"k".to_string(), "same".to_string());
    assert_ne!(a.nonce, b.nonce);
    assert_ne!(a.data, b.data);
}

#[test]
fn tampered_data_is_a_wrong_password() {
    let mut e = encrypt_string(&"k".to_string(), "text".to_string());
    e.data[0] ^= 1;
    assert_eq!(decrypt_string(&"k".to_string(), e), Err(DecryptionError::WrongPassword));
}

#[test]
fn empty_text_round_trips() {
    let e = encrypt_string(&"".to_string(), String::new());
    assert!(e.data.is_empty());
    assert_eq!(decrypt_string(&"".to_string(), e).unwrap(), "");
}

#[test]
fn bytes_that_are_not_utf8_give_an_encoding_error() {
    let passwd = "k".to_string();
    let plain = "abcd".to_string();
    let e = encrypt_string(&passwd, plain.clone());
    // The keystream is what turned the plain bytes into the encrypted ones.
    let keystream: Vec<u8> = e.data.iter().zip(plain.as_bytes()).map(|(c, p)| c ^ p).collect();
    let invalid = vec![0xff_u8, 0xfe, 0x80, 0x41];
    let forged = stated_dialogues::cipher::EncryptedData {
        data: invalid.iter().zip(&keystream).map(|(b, k)| b ^ k).collect(),
        nonce: e.nonce,
        hash: md5::compute(&invalid).to_vec(),
    };
    assert!(matches!(decrypt_string(&passwd, forged), Err(DecryptionError::EncodingError(_))));
}

#[test]
fn round_trip_of_non_ascii_text() {
    let passwd = "пароль".to_string();
    let text = "Привет, мир! 🌍".to_string();
    assert_eq!(decrypt_string(&passwd, encrypt_string(&passwd, text.clone())).unwrap(), text);
}
