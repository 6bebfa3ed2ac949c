use vstd::prelude::*;
use vstd::string::StringExecFns;

use crate::error::ContentError;
use crate::hexstr::{prefixed_hex_of, to_prefixed_hex};
use crate::kdf::{SALT_LEN, SECRET_LEN};
use crate::nonce::{nonce_of, CounterNonceSequence};
use crate::random::{new_salt, new_secret};
use crate::seal::{encrypt, encrypted, max_seal_len, TAG_LEN};

verus! {

/// The authority under which both attachment content types are defined.
pub const AUTHORITY_ID: &'static str = "xmtp.org";

/// Type name of an inline attachment.
pub const ATTACHMENT_TYPE_ID: &'static str = "attachment";

/// Type name of a remote attachment.
pub const REMOTE_ATTACHMENT_TYPE_ID: &'static str = "remoteStaticContent";

/// Text shown by clients that cannot render the content.
pub const FALLBACK: &'static str = "must say please.";

/// The value written for the content digest of a remote attachment. A
/// receiver cannot check it: no digest of the ciphertext is computed.
pub const CONTENT_DIGEST: &'static str = "todo";

/// The scheme of a remote attachment's location.
pub const SCHEME: &'static str = "https://";

/// Identifies the schema of an envelope's content.
pub struct ContentTypeId {
    pub authority_id: String,
    pub type_id: String,
    pub version_major: u32,
    pub version_minor: u32,
}

impl ContentTypeId {
    /// Authority, type name, major and minor version.
    pub open spec fn view(&self) -> (Seq<char>, Seq<char>, u32, u32) {
        (self.authority_id@, self.type_id@, self.version_major, self.version_minor)
    }
}

/// How an envelope's content was compressed.
#[derive(Debug, Clone, Copy, PartialEq, Eq, Structural)]
pub enum Compression {
    Deflate,
    Gzip,
}

/// A unit of message content together with what a receiver needs to read it.
pub struct Envelope {
    pub content_type: ContentTypeId,
    /// Key and value pairs; no key occurs twice.
    pub parameters: Vec<(String, String)>,
    pub fallback: Option<String>,
    pub compression: Option<Compression>,
    pub content: Vec<u8>,
}

/// The views of a list of string pairs.
pub open spec fn pairs_view(p: Seq<(String, String)>) -> Seq<(Seq<char>, Seq<char>)> {
    p.map_values(|kv: (String, String)| (kv.0@, kv.1@))
}

/// No key occurs twice among `p`.
pub open spec fn keys_unique(p: Seq<(Seq<char>, Seq<char>)>) -> bool {
    forall|i: int, j: int| 0 <= i < j < p.len() ==> p[i].0 != p[j].0
}

impl Envelope {
    /// The parameters as pairs of texts.
    pub open spec fn parameters_view(&self) -> Seq<(Seq<char>, Seq<char>)> {
        pairs_view(self.parameters@)
    }

    /// The parameters form a mapping: no key occurs twice.
    pub open spec fn wf(&self) -> bool {
        keys_unique(self.parameters_view())
    }

    /// The fallback text, if any.
    pub open spec fn fallback_view(&self) -> Option<Seq<char>> {
        match self.fallback {
            Some(f) => Some(f@),
            None => None,
        }
    }
}

/// `e` is the inline attachment of `content` with the given MIME type and
/// file name.
pub open spec fn is_attachment(
    e: Envelope,
    content: Seq<u8>,
    mime_type: Seq<char>,
    filename: Seq<char>,
) -> bool {
    &&& e.content_type@ == (AUTHORITY_ID@, ATTACHMENT_TYPE_ID@, 1u32, 0u32)
    &&& e.parameters_view() == seq![("mimeType"@, mime_type), ("filename"@, filename)]
    &&& e.fallback_view() == Some(FALLBACK@)
    &&& e.compression is None
    &&& e.content@ == content
}

/// The parameters of a remote attachment sealed with `secret`, `salt` and
/// the nonce of counter value zero.
pub open spec fn remote_parameters(secret: Seq<u8>, salt: Seq<u8>) -> Seq<(Seq<char>, Seq<char>)> {
    seq![
        ("contentDigest"@, CONTENT_DIGEST@),
        ("secret"@, prefixed_hex_of(secret)),
        ("salt"@, prefixed_hex_of(salt)),
        ("nonce"@, prefixed_hex_of(nonce_of(0))),
        ("scheme"@, SCHEME@),
    ]
}

/// `e` is the remote attachment of `plaintext` sealed with the key derived
/// from `secret` and `salt` and the nonce of counter value zero.
pub open spec fn is_remote_attachment(
    e: Envelope,
    plaintext: Seq<u8>,
    secret: Seq<u8>,
    salt: Seq<u8>,
) -> bool {
    &&& e.content_type@ == (AUTHORITY_ID@, REMOTE_ATTACHMENT_TYPE_ID@, 1u32, 0u32)
    &&& e.parameters_view() == remote_parameters(secret, salt)
    &&& e.fallback_view() == Some(FALLBACK@)
    &&& e.compression is None
    &&& e.content@ == encrypted(secret, salt, 0, plaintext)
}

/// A parameter whose value is the text `v`.
pub fn kv_str(k: &str, v: &str) -> (r: (String, String))
    ensures
        r.0@ == k@,
        r.1@ == v@,
{
    (k.to_owned(), v.to_owned())
}

/// A parameter whose value is the bytes `v` as `0x`-prefixed hexadecimal.
pub fn kv_bytes(k: &str, v: &[u8]) -> (r: (String, String))
    ensures
        r.0@ == k@,
        r.1@ == prefixed_hex_of(v@),
{
    (k.to_owned(), to_prefixed_hex(v))
}

fn content_type_id(type_id: &str) -> (r: ContentTypeId)
    ensures
        r@ == (AUTHORITY_ID@, type_id@, 1u32, 0u32),
{
    ContentTypeId {
        authority_id: String::from_str(AUTHORITY_ID),
        type_id: String::from_str(type_id),
        version_major: 1,
        version_minor: 0,
    }
}

/// The inline attachment of `buffer`, annotated with its MIME type and file
/// name. The bytes are carried unchanged.
pub fn new_attachment(buffer: &[u8], mime_type: &str, filename: &str) -> (r: Envelope)
    ensures
        is_attachment(r, buffer@, mime_type@, filename@),
        r.wf(),
{
    let mut parameters: Vec<(String, String)> = Vec::new();
    parameters.push(kv_str("mimeType", mime_type));
    parameters.push(kv_str("filename", filename));
    let r = Envelope {
        content_type: content_type_id(ATTACHMENT_TYPE_ID),
        parameters,
        fallback: Some(String::from_str(FALLBACK)),
        compression: None,
        content: vstd::slice::slice_to_vec(buffer),
    };
    assert(r.parameters_view() =~= seq![("mimeType"@, mime_type@), ("filename"@, filename@)]);
    proof {
        reveal_strlit("mimeType");
        reveal_strlit("filename");
        assert("mimeType"@[0] != "filename"@[0]);
    }
    r
}

/// The remote attachment of `attachment`, sealed in place with the key
/// derived from `secret` and `salt` and the nonce of counter value zero; the
/// secret, the salt and the nonce travel as `0x`-prefixed hexadecimal
/// parameters.
///
/// Fails with `PreconditionError` when the secret is not 32 bytes long, and
/// with `SealError` when the attachment is too long to seal under one nonce.
pub fn remote_attachment_from(mut attachment: Vec<u8>, secret: &[u8], salt: [u8; 16]) -> (r: Result<
    Envelope,
    ContentError,
>)
    ensures
        r is Ok <==> (secret@.len() == SECRET_LEN && attachment@.len() <= max_seal_len()),
        secret@.len() != SECRET_LEN ==> r == Err::<Envelope, ContentError>(
            ContentError::PreconditionError,
        ),
        secret@.len() == SECRET_LEN && attachment@.len() > max_seal_len() ==> r == Err::<
            Envelope,
            ContentError,
        >(ContentError::SealError),
        r matches Ok(e) ==> is_remote_attachment(e, attachment@, secret@, salt@),
        r matches Ok(e) ==> e.wf(),
        r matches Ok(e) ==> e.content@.len() == attachment@.len() + TAG_LEN,
{
    let mut sequence = CounterNonceSequence::new(0);
    let nonce = sequence.advance()?;
    encrypt(&mut attachment, secret, salt, 0)?;
    let mut parameters: Vec<(String, String)> = Vec::new();
    parameters.push(kv_str("contentDigest", CONTENT_DIGEST));
    parameters.push(kv_bytes("secret", secret));
    parameters.push(kv_bytes("salt", &salt));
    parameters.push(kv_bytes("nonce", &nonce));
    parameters.push(kv_str("scheme", SCHEME));
    let r = Envelope {
        content_type: content_type_id(REMOTE_ATTACHMENT_TYPE_ID),
        parameters,
        fallback: Some(String::from_str(FALLBACK)),
        compression: None,
        content: attachment,
    };
    assert(r.parameters_view() =~= remote_parameters(secret@, salt@));
    proof {
        reveal_strlit("contentDigest");
        reveal_strlit("secret");
        reveal_strlit("salt");
        reveal_strlit("nonce");
        reveal_strlit("scheme");
        assert("contentDigest"@[0] != "secret"@[0]);
        assert("contentDigest"@[0] != "salt"@[0]);
        assert("contentDigest"@[0] != "nonce"@[0]);
        assert("contentDigest"@[0] != "scheme"@[0]);
        assert("nonce"@[0] != "secret"@[0]);
        assert("nonce"@[0] != "salt"@[0]);
        assert("nonce"@[0] != "scheme"@[0]);
        assert("salt"@[1] != "scheme"@[1]);
        assert("secret"@[1] != "scheme"@[1]);
        assert("secret"@[1] != "salt"@[1]);
    }
    Ok(r)
}

/// The remote attachment of `attachment`, sealed under a fresh random secret
/// and salt. The content grows by the tag, and the secret, salt and nonce
/// parameters hold 32, 16 and 12 bytes as hexadecimal after the `0x` prefix.
///
/// Fails, with `SealError`, only when the attachment is too long to seal
/// under one nonce.
pub fn new_remote_attachment(attachment: Vec<u8>) -> (r: Result<Envelope, ContentError>)
    ensures
        r is Ok <==> attachment@.len() <= max_seal_len(),
        r is Err ==> r == Err::<Envelope, ContentError>(ContentError::SealError),
        r matches Ok(e) ==> e.wf() && exists|secret: Seq<u8>, salt: Seq<u8>|
            secret.len() == SECRET_LEN && salt.len() == SALT_LEN && #[trigger] is_remote_attachment(
                e,
                attachment@,
                secret,
                salt,
            ),
        r matches Ok(e) ==> e.content@.len() == attachment@.len() + TAG_LEN,
        r matches Ok(e) ==> e.parameters_view().len() == 5
            && e.parameters_view()[1].1.len() == 2 + 2 * 32
            && e.parameters_view()[2].1.len() == 2 + 2 * 16
            && e.parameters_view()[3].1.len() == 2 + 2 * 12,
{
    let secret = new_secret();
    let salt = new_salt();
    let r = remote_attachment_from(attachment, secret.as_slice(), salt);
    if let Ok(e) = &r {
        assert(is_remote_attachment(*e, attachment@, secret@, salt@));
    }
    r
}

} // verus!
