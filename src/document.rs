use vstd::prelude::*;
use vstd::string::StringSliceAdditionalSpecFns;
use vstd::utf8::*;

verus! {

broadcast use group_utf8_lib;

/// Passphrase that keys the encryption of every document.
///
/// Not a secret: it only keeps the file from being read by other programs.
pub const KEY: &'static str = "super-secure-encryption-key";

/// What can go wrong while loading or storing a document.
#[derive(Clone, Copy, Debug, PartialEq, Eq, Structural)]
pub enum FileError {
    /// The file could not be read or written.
    Io,
    /// The bytes were not produced by this format's encryption.
    Decrypt,
    /// Opening was not let through by the unsaved-changes check.
    Blocked,
}

/// Bytes that open every encrypted document.
pub open spec fn magic() -> Seq<u8> {
    seq![0x45u8, 0x4eu8, 0x43u8, 0x31u8]
}

/// Length of the header.
pub const HEADER_LEN: usize = 4;

/// Byte-wise XOR of `data` with `key` repeated; an empty key leaves data as is.
pub open spec fn cipher(data: Seq<u8>, key: Seq<u8>) -> Seq<u8> {
    Seq::new(
        data.len(),
        |i: int|
            if key.len() == 0 {
                data[i]
            } else {
                data[i] ^ key[i % key.len() as int]
            },
    )
}

/// The key as bytes.
pub open spec fn key_bytes() -> Seq<u8> {
    KEY.spec_bytes()
}

/// The bytes stored on disk for a document whose text is `text`.
pub open spec fn encrypted_form(text: Seq<char>) -> Seq<u8> {
    magic() + cipher(encode_utf8(text), key_bytes())
}

/// Whether `data` starts with the format's header.
pub open spec fn has_header(data: Seq<u8>) -> bool {
    data.len() >= HEADER_LEN && data.subrange(0, HEADER_LEN as int) == magic()
}

/// The text held by the stored bytes `data`; bytes that no text encrypts
/// to give a decryption error.
pub open spec fn decrypted_text(data: Seq<u8>) -> Result<Seq<char>, FileError> {
    if !has_header(data) {
        Err(FileError::Decrypt)
    } else {
        let payload = cipher(data.subrange(HEADER_LEN as int, data.len() as int), key_bytes());
        if valid_utf8(payload) {
            Ok(decode_utf8(payload))
        } else {
            Err(FileError::Decrypt)
        }
    }
}

/// Applying the cipher twice with one key gives the data back.
pub proof fn lemma_cipher_involution(data: Seq<u8>, key: Seq<u8>)
    ensures
        cipher(cipher(data, key), key) == data,
{
    let once = cipher(data, key);
    let twice = cipher(once, key);
    assert forall|i: int| 0 <= i < data.len() implies twice[i] == data[i] by {
        if key.len() != 0 {
            let a = data[i];
            let k = key[i % key.len() as int];
            assert((a ^ k) ^ k == a) by (bit_vector);
        }
    }
    assert(twice =~= data);
}

/// Opening the bytes that saving a document stored gives its text back:
/// encryption and decryption, encoding and decoding, undo each other.
pub proof fn lemma_decrypt_encrypted(text: Seq<char>)
    ensures
        decrypted_text(encrypted_form(text)) == Ok::<Seq<char>, FileError>(text),
{
    let data = encrypted_form(text);
    let body = cipher(encode_utf8(text), key_bytes());
    assert(data.subrange(0, HEADER_LEN as int) =~= magic());
    assert(data.subrange(HEADER_LEN as int, data.len() as int) =~= body);
    lemma_cipher_involution(encode_utf8(text), key_bytes());
    encode_utf8_valid_utf8(text);
    encode_utf8_decode_utf8(text);
}

/// A new document has no path, so it never counts as registered and saved,
/// whatever its saved bit says.
pub proof fn lemma_default_not_registered_and_saved()
    ensures
        empty_document().path is None,
        !registered_and_saved(empty_document()),
{
}

/// Opening fails with a decryption error exactly on the bytes that are not
/// the stored form of any text; otherwise it gives the text they store.
pub proof fn lemma_decrypt_only_encrypted(data: Seq<u8>)
    ensures
        match decrypted_text(data) {
            Ok(t) => encrypted_form(t) == data,
            Err(e) => e == FileError::Decrypt && forall|t: Seq<char>|
                #[trigger] encrypted_form(t) != data,
        },
{
    match decrypted_text(data) {
        Ok(t) => {
            let body = data.subrange(HEADER_LEN as int, data.len() as int);
            let payload = cipher(body, key_bytes());
            decode_utf8_encode_utf8(payload);
            lemma_cipher_involution(body, key_bytes());
            assert(data =~= data.subrange(0, HEADER_LEN as int) + body);
        },
        Err(e) => {
            assert forall|t: Seq<char>| #[trigger] encrypted_form(t) != data by {
                if encrypted_form(t) == data {
                    lemma_decrypt_encrypted(t);
                }
            }
        },
    }
}

/// Relies on `std::str::from_utf8`: it accepts exactly the well-formed UTF-8
/// byte strings, and the text it hands back is made of those very bytes.
#[verifier::external_body]
fn text_from_utf8(bytes: &[u8]) -> (r: Option<String>)
    ensures
        r is Some <==> valid_utf8(bytes@),
        r matches Some(s) ==> encode_utf8(s@) == bytes@,
{
    std::str::from_utf8(bytes).ok().map(|s| s.to_string())
}

/// Appends `cipher(data[start..], key)` to `out`.
fn push_ciphered(data: &[u8], start: usize, key: &[u8], out: &mut Vec<u8>)
    requires
        start <= data@.len(),
    ensures
        final(out)@ == old(out)@ + cipher(data@.subrange(start as int, data@.len() as int), key@),
{
    let ghost src = data@.subrange(start as int, data@.len() as int);
    let ghost base = old(out)@;
    let mut i: usize = start;
    while i < data.len()
        invariant
            start <= i <= data@.len(),
            src == data@.subrange(start as int, data@.len() as int),
            out@ =~= base + cipher(src, key@).subrange(0, i - start),
        decreases data@.len() - i,
    {
        let b = if key.len() == 0 {
            data[i]
        } else {
            data[i] ^ key[(i - start) % key.len()]
        };
        out.push(b);
        i = i + 1;
    }
    assert(cipher(src, key@).subrange(0, i - start) =~= cipher(src, key@));
}

/// Decrypts stored bytes into text.
pub fn decrypt_text(data: &[u8]) -> (r: Result<String, FileError>)
    ensures
        match decrypted_text(data@) {
            Ok(t) => r matches Ok(s) && s@ == t,
            Err(e) => r == Err::<String, FileError>(e),
        },
{
    if data.len() < HEADER_LEN || data[0] != 0x45u8 || data[1] != 0x4eu8 || data[2] != 0x43u8
        || data[3] != 0x31u8 {
        proof {
            if data@.len() >= HEADER_LEN {
                assert(data@.subrange(0, HEADER_LEN as int)[0] == data@[0]);
                assert(data@.subrange(0, HEADER_LEN as int)[1] == data@[1]);
                assert(data@.subrange(0, HEADER_LEN as int)[2] == data@[2]);
                assert(data@.subrange(0, HEADER_LEN as int)[3] == data@[3]);
            }
        }
        return Err(FileError::Decrypt);
    }
    assert(data@.subrange(0, HEADER_LEN as int) =~= magic());
    let mut payload: Vec<u8> = Vec::new();
    push_ciphered(data, HEADER_LEN, KEY.as_bytes(), &mut payload);
    assert(payload@ =~= cipher(data@.subrange(HEADER_LEN as int, data@.len() as int), key_bytes()));
    match text_from_utf8(payload.as_slice()) {
        Some(s) => {
            proof {
                encode_utf8_decode_utf8(s@);
            }
            Ok(s)
        },
        None => Err(FileError::Decrypt),
    }
}

/// Encrypts text into the bytes to be stored.
pub fn encrypt_text(text: &str) -> (r: Vec<u8>)
    ensures
        r@ == encrypted_form(text@),
{
    let mut out: Vec<u8> = Vec::new();
    out.push(0x45u8);
    out.push(0x4eu8);
    out.push(0x43u8);
    out.push(0x31u8);
    assert(out@ =~= magic());
    let plain = text.as_bytes();
    push_ciphered(plain, 0, KEY.as_bytes(), &mut out);
    assert(plain@.subrange(0, plain@.len() as int) =~= plain@);
    out
}

/// The view of an optional owned string.
pub open spec fn path_view(p: Option<String>) -> Option<Seq<char>> {
    match p {
        Some(s) => Some(s@),
        None => None,
    }
}

/// The open document: its text, where it is stored, and whether that store
/// holds the text as it is now.
#[derive(Debug)]
pub struct Document {
    path: Option<String>,
    content: String,
    saved: bool,
}

/// What a document is, as plain values.
pub struct DocumentView {
    pub path: Option<Seq<char>>,
    pub content: Seq<char>,
    pub saved: bool,
}

impl View for Document {
    type V = DocumentView;

    closed spec fn view(&self) -> DocumentView {
        DocumentView { path: path_view(self.path), content: self.content@, saved: self.saved }
    }
}

/// Whether a document has a path and its store holds its text.
pub open spec fn registered_and_saved(d: DocumentView) -> bool {
    d.path is Some && d.saved
}

/// The view of the document that nothing has been written to yet.
pub open spec fn empty_document() -> DocumentView {
    DocumentView { path: None, content: Seq::empty(), saved: true }
}

impl Default for Document {
    /// An empty, unregistered document, with nothing to lose.
    fn default() -> (r: Document)
        ensures
            r@ == empty_document(),
    {
        Document { path: None, content: String::new(), saved: true }
    }
}

impl Document {
    /// Loads the document stored at `path`, whose bytes are `data`.
    pub fn open(path: String, data: &[u8]) -> (r: Result<Document, FileError>)
        ensures
            match decrypted_text(data@) {
                Ok(t) => r matches Ok(d) && d@ == (DocumentView {
                    path: Some(path@),
                    content: t,
                    saved: true,
                }),
                Err(e) => r matches Err(f) && f == e,
            },
    {
        match decrypt_text(data) {
            Ok(content) => Ok(Document { path: Some(path), content, saved: true }),
            Err(e) => Err(e),
        }
    }

    /// The bytes to store for this document.
    pub fn encrypted(&self) -> (r: Vec<u8>)
        ensures
            r@ == encrypted_form(self@.content),
    {
        encrypt_text(self.content.as_str())
    }

    /// Whether the document has a path and its store holds its text.
    pub fn is_registered_and_saved(&self) -> (r: bool)
        ensures
            r == registered_and_saved(self@),
    {
        self.path.is_some() && self.saved
    }

    /// Whether the document has a path.
    pub fn is_registered(&self) -> (r: bool)
        ensures
            r == self@.path is Some,
    {
        self.path.is_some()
    }

    /// Whether the store holds the text as it is now.
    pub fn is_saved(&self) -> (r: bool)
        ensures
            r == self@.saved,
    {
        self.saved
    }

    /// Where the document is stored, if anywhere.
    pub fn path(&self) -> (r: Option<&String>)
        ensures
            match r {
                Some(p) => self@.path == Some(p@),
                None => self@.path is None,
            },
    {
        match &self.path {
            Some(p) => Some(p),
            None => None,
        }
    }

    /// The text of the document.
    pub fn content(&self) -> (r: &String)
        ensures
            r@ == self@.content,
    {
        &self.content
    }

    /// Gives the document a path. Nothing is stored there yet, so the
    /// document is no longer saved.
    pub fn set_path(&mut self, path: String)
        ensures
            final(self)@ == (DocumentView { path: Some(path@), saved: false, ..old(self)@ }),
    {
        self.path = Some(path);
        self.saved = false;
    }

    /// Replaces the text; the change is not stored yet.
    pub fn set_content(&mut self, content: String)
        ensures
            final(self)@ == (DocumentView { content: content@, saved: false, ..old(self)@ }),
    {
        self.content = content;
        self.saved = false;
    }

    /// Records that the store now holds the text.
    pub(crate) fn mark_saved(&mut self)
        ensures
            final(self)@ == (DocumentView { saved: true, ..old(self)@ }),
    {
        self.saved = true;
    }

    /// A copy of the document, to be handed over to a save in flight.
    pub fn snapshot(&self) -> (r: Document)
        ensures
            r@ == self@,
    {
        let path = match &self.path {
            Some(p) => Some(p.clone()),
            None => None,
        };
        Document { path, content: self.content.clone(), saved: self.saved }
    }

    /// Whether `other` is stored at the same path and holds the same text.
    pub fn same_path_and_content(&self, other: &Document) -> (r: bool)
        ensures
            r == (self@.path == other@.path && self@.content == other@.content),
    {
        let same_path = match (&self.path, &other.path) {
            (Some(a), Some(b)) => a.eq(b),
            (None, None) => true,
            _ => false,
        };
        same_path && self.content.eq(&other.content)
    }
}

} // verus!
