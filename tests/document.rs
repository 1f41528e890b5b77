use encrypted_editor::document::{decrypt_text, encrypt_text, Document, FileError};

#[test]
fn round_trip_restores_content() {
    for text in ["", "a", "hello, world", "héllo ✓ 日本語", "line one\nline two\n"] {
        let mut doc = Document::default();
        doc.set_content(text.to_string());
        let bytes = doc.encrypted();
        let opened = Document::open("/tmp/doc1.enc".to_string(), &bytes).unwrap();
        assert_eq!(opened.content(), text);
        assert_eq!(opened.path().map(|p| p.as_str()), Some("/tmp/doc1.enc"));
        assert!(opened.is_saved());
        assert!(opened.is_registered_and_saved());
    }
}

#[test]
fn encrypted_bytes_exact() {
    assert_eq!(encrypt_text(""), vec![0x45, 0x4e, 0x43, 0x31]);
    // 'a' ^ 's' and 'b' ^ 'u', the first two key bytes
    assert_eq!(encrypt_text("ab"), vec![0x45, 0x4e, 0x43, 0x31, 0x61 ^ 0x73, 0x62 ^ 0x75]);
    assert_eq!(encrypt_text("s"), vec![0x45, 0x4e, 0x43, 0x31, 0x00]);
}

#[test]
fn key_repeats_over_long_text() {
    let text = "x".repeat(60);
    let bytes = encrypt_text(&text);
    let key = b"super-secure-encryption-key";
    assert_eq!(bytes.len(), 64);
    for (i, b) in bytes[4..].iter().enumerate() {
        assert_eq!(*b, b'x' ^ key[i % key.len()]);
    }
    assert_eq!(decrypt_text(&bytes), Ok(text));
}

#[test]
fn stored_bytes_hide_the_text() {
    let bytes = encrypt_text("secret");
    assert_ne!(&bytes[4..], b"secret");
}

#[test]
fn decrypt_multibyte_text() {
    let bytes = encrypt_text("héllo ✓");
    assert_eq!(decrypt_text(&bytes), Ok("héllo ✓".to_string()));
}

#[test]
fn foreign_file_fails_with_decrypt_error() {
    assert_eq!(decrypt_text(b"plain text file"), Err(FileError::Decrypt));
    assert_eq!(decrypt_text(b""), Err(FileError::Decrypt));
    assert_eq!(decrypt_text(b"ENC"), Err(FileError::Decrypt));
    assert_eq!(decrypt_text(b"ENC2abc"), Err(FileError::Decrypt));
}

#[test]
fn header_with_foreign_payload_fails_with_decrypt_error() {
    // decrypts to 0xff, which no text encrypts to
    let bytes = vec![0x45, 0x4e, 0x43, 0x31, 0xff ^ 0x73];
    assert_eq!(decrypt_text(&bytes), Err(FileError::Decrypt));
    assert!(matches!(
        Document::open("/tmp/x.enc".to_string(), &bytes),
        Err(FileError::Decrypt)
    ));
}

#[test]
fn header_only_is_empty_document() {
    let doc = Document::open("/tmp/e.enc".to_string(), &[0x45, 0x4e, 0x43, 0x31]).unwrap();
    assert_eq!(doc.content(), "");
}

#[test]
fn default_is_not_registered_and_saved() {
    let doc = Document::default();
    assert!(doc.path().is_none());
    assert!(doc.is_saved());
    assert!(!doc.is_registered());
    assert!(!doc.is_registered_and_saved());
    assert_eq!(doc.content(), "");
}

#[test]
fn set_path_registers_but_unsaves() {
    let mut doc = Document::default();
    doc.set_content("abc".to_string());
    doc.set_path("/tmp/doc1.enc".to_string());
    assert!(doc.is_registered());
    assert!(!doc.is_saved());
    assert_eq!(doc.content(), "abc");
}

#[test]
fn edit_unsaves_opened_document() {
    let bytes = encrypt_text("abc");
    let mut doc = Document::open("/tmp/doc1.enc".to_string(), &bytes).unwrap();
    assert!(doc.is_registered_and_saved());
    doc.set_content("abcd".to_string());
    assert!(!doc.is_registered_and_saved());
    assert!(doc.is_registered());
}

#[test]
fn snapshot_and_comparison() {
    let mut doc = Document::default();
    doc.set_content("abc".to_string());
    let snap = doc.snapshot();
    assert!(doc.same_path_and_content(&snap));
    doc.set_path("/tmp/a.enc".to_string());
    assert!(!doc.same_path_and_content(&snap));
    let snap2 = doc.snapshot();
    doc.set_content("abd".to_string());
    assert!(!doc.same_path_and_content(&snap2));
}
