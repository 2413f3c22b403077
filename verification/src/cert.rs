//! The self-signed TLS identity the endpoint presents on the LAN.
//!
//! A fresh key pair and certificate are generated in memory at every start;
//! nothing is stored. Peers on the LAN trust the certificate by hand.

use vstd::prelude::*;
use vstd::string::*;
use vstd::utf8::*;
use crate::error::StartupError;
use crate::text::{ascii_holds_at, ascii_len, holds_at};

verus! {

/// `rcgen::Error`: why a generation attempt failed. Carried through, never
/// looked into.
#[verifier::external_type_specification]
#[verifier::external_body]
pub struct ExRcgenError(rcgen::Error);

/// The names the certificate is valid for, in order.
pub open spec fn san_set() -> Seq<Seq<char>> {
    seq!["localhost"@, "127.0.0.1"@, "0.0.0.0"@]
}

/// The first line of a PEM block with the given label, without line ending.
pub open spec fn begin_line(label: Seq<char>) -> Seq<char> {
    "-----BEGIN "@ + label + "-----"@
}

/// The last line of a PEM block with the given label, without line ending.
pub open spec fn end_line(label: Seq<char>) -> Seq<char> {
    "-----END "@ + label + "-----"@
}

/// `text` is framed as one PEM block with the given label and line ending:
/// it opens with the BEGIN line, closes with the END line, each followed by
/// the line ending, and the two do not overlap.
pub open spec fn framed_with(text: Seq<char>, label: Seq<char>, eol: Seq<char>) -> bool {
    let head = begin_line(label) + eol;
    let tail = end_line(label) + eol;
    &&& head.len() + tail.len() <= text.len()
    &&& holds_at(text, 0, head)
    &&& holds_at(text, text.len() - tail.len(), tail)
}

/// `text` is an ASCII text framed as one PEM block with the given label,
/// with LF or CRLF line endings.
pub open spec fn is_pem(text: Seq<char>, label: Seq<char>) -> bool {
    &&& is_ascii_chars(text)
    &&& (framed_with(text, label, "\n"@) || framed_with(text, label, "\r\n"@))
}

/// Label of a certificate block.
pub open spec fn certificate_label() -> Seq<char> {
    "CERTIFICATE"@
}

/// Label of a PKCS#8 private key block.
pub open spec fn private_key_label() -> Seq<char> {
    "PRIVATE KEY"@
}

proof fn lemma_markers_ascii()
    ensures
        is_ascii_chars("-----BEGIN "@),
        is_ascii_chars("-----END "@),
        is_ascii_chars("-----"@),
        is_ascii_chars("\n"@),
        is_ascii_chars("\r\n"@),
        "-----BEGIN "@.len() == 11,
        "-----END "@.len() == 9,
        "-----"@.len() == 5,
{
    reveal_strlit("-----BEGIN ");
    reveal_strlit("-----END ");
    reveal_strlit("-----");
    reveal_strlit("\n");
    reveal_strlit("\r\n");
}

/// One framing line: `opening`, the label, five dashes and the line ending.
fn framing_line(opening: &str, label: &str, eol: &str) -> (line: String)
    requires
        is_ascii_chars(opening@),
        is_ascii_chars(label@),
        is_ascii_chars(eol@),
    ensures
        line@ == opening@ + label@ + "-----"@ + eol@,
        is_ascii_chars(line@),
{
    proof {
        lemma_markers_ascii();
    }
    let line = String::from_str(opening).concat(label).concat("-----").concat(eol);
    proof {
        is_ascii_chars_concat(opening@ + label@, opening@, label@);
        is_ascii_chars_concat(opening@ + label@ + "-----"@, opening@ + label@, "-----"@);
        is_ascii_chars_concat(line@, opening@ + label@ + "-----"@, eol@);
    }
    line
}

/// Decides [`framed_with`] for ASCII arguments.
fn framed(text: &str, label: &str, eol: &str) -> (ok: bool)
    requires
        is_ascii_chars(text@),
        is_ascii_chars(label@),
        is_ascii_chars(eol@),
    ensures
        ok == framed_with(text@, label@, eol@),
{
    proof {
        lemma_markers_ascii();
    }
    let head = framing_line("-----BEGIN ", label, eol);
    let tail = framing_line("-----END ", label, eol);
    let n: usize = ascii_len(text);
    let h: usize = ascii_len(head.as_str());
    let t: usize = ascii_len(tail.as_str());
    if h > n || t > n - h {
        return false;
    }
    ascii_holds_at(text, 0, head.as_str()) && ascii_holds_at(text, n - t, tail.as_str())
}

/// A text that holds a non-ASCII label is not ASCII itself.
proof fn lemma_label_within(text: Seq<char>, label: Seq<char>, eol: Seq<char>)
    requires
        framed_with(text, label, eol),
        is_ascii_chars(text),
    ensures
        is_ascii_chars(label),
{
    lemma_markers_ascii();
    let head = begin_line(label) + eol;
    assert forall|j: int| 0 <= j < label.len() implies '\0' <= #[trigger] label[j] <= '\u{7f}' by {
        assert(head[11 + j] == label[j]);
        assert(text.subrange(0, head.len() as int)[11 + j] == text[11 + j]);
    }
}

/// Whether `text` is one PEM block with the given label.
pub fn is_pem_text(text: &str, label: &str) -> (ok: bool)
    ensures
        ok == is_pem(text@, label@),
{
    if !text.is_ascii() {
        return false;
    }
    if !label.is_ascii() {
        proof {
            if framed_with(text@, label@, "\n"@) {
                lemma_label_within(text@, label@, "\n"@);
            }
            if framed_with(text@, label@, "\r\n"@) {
                lemma_label_within(text@, label@, "\r\n"@);
            }
        }
        return false;
    }
    proof {
        lemma_markers_ascii();
    }
    framed(text, label, "\n") || framed(text, label, "\r\n")
}

/// A certificate and its private key, both PEM-encoded.
///
/// Every value of this type holds a certificate block and a private key
/// block: the constructor checks the framing, and nothing changes the texts
/// afterwards.
pub struct TlsIdentity {
    cert_pem: String,
    key_pem: String,
}

impl TlsIdentity {
    #[verifier::type_invariant]
    spec fn framed_as_pem(self) -> bool {
        &&& is_pem(self.cert_pem@, certificate_label())
        &&& is_pem(self.key_pem@, private_key_label())
    }

    /// The certificate text.
    pub closed spec fn cert_text(self) -> Seq<char> {
        self.cert_pem@
    }

    /// The private key text.
    pub closed spec fn key_text(self) -> Seq<char> {
        self.key_pem@
    }

    /// Takes the two texts as an identity if the first is a certificate
    /// block and the second a private key block, and not otherwise.
    pub fn from_pem(cert_pem: String, key_pem: String) -> (made: Option<TlsIdentity>)
        ensures
            made is Some <==> is_pem(cert_pem@, certificate_label()) && is_pem(
                key_pem@,
                private_key_label(),
            ),
            made matches Some(identity) ==> identity.cert_text() == cert_pem@
                && identity.key_text() == key_pem@,
    {
        if is_pem_text(cert_pem.as_str(), "CERTIFICATE") && is_pem_text(
            key_pem.as_str(),
            "PRIVATE KEY",
        ) {
            Some(TlsIdentity { cert_pem, key_pem })
        } else {
            None
        }
    }

    /// The PEM-encoded certificate.
    pub fn cert_pem(&self) -> (text: &str)
        ensures
            text@ == self.cert_text(),
            is_pem(text@, certificate_label()),
    {
        proof {
            use_type_invariant(self);
        }
        self.cert_pem.as_str()
    }

    /// The PEM-encoded private key.
    pub fn key_pem(&self) -> (text: &str)
        ensures
            text@ == self.key_text(),
            is_pem(text@, private_key_label()),
    {
        proof {
            use_type_invariant(self);
        }
        self.key_pem.as_str()
    }
}

/// The subject alternative names asked for: `localhost`, `127.0.0.1` and
/// `0.0.0.0`.
pub fn subject_alt_names() -> (names: Vec<String>)
    ensures
        names@.map_values(|name: String| name@) == san_set(),
{
    let mut names: Vec<String> = Vec::new();
    names.push(String::from_str("localhost"));
    names.push(String::from_str("127.0.0.1"));
    names.push(String::from_str("0.0.0.0"));
    names
}

/// Generates a key pair and a self-signed certificate for `names` and hands
/// both back PEM-encoded, certificate first.
///
/// Calls `rcgen::generate_simple_self_signed`, then `Certificate::pem` and
/// `KeyPair::serialize_pem` on its result. The key pair is drawn at random,
/// so nothing is claimed of the outcome; callers check the framing of what
/// comes back. The key pair is generated locally, never a remote one, which
/// is the one kind `serialize_pem` cannot serialize.
#[verifier::external_body]
fn self_signed_pem(names: Vec<String>) -> (minted: Result<(String, String), rcgen::Error>)
{
    match rcgen::generate_simple_self_signed(names) {
        Ok(issued) => Ok((issued.cert.pem(), issued.key_pair.serialize_pem())),
        Err(e) => Err(e),
    }
}

/// What a generation attempt amounts to: the identity, if the attempt
/// succeeded and gave a certificate block and a private key block, and
/// `CertGenerationFailed` in every other case.
pub fn identity_from(minted: Result<(String, String), rcgen::Error>) -> (made: Result<
    TlsIdentity,
    StartupError,
>)
    ensures
        made is Ok <==> (minted matches Ok(pair) && is_pem(pair.0@, certificate_label()) && is_pem(
            pair.1@,
            private_key_label(),
        )),
        made matches Ok(identity) ==> minted matches Ok(pair) && identity.cert_text() == pair.0@
            && identity.key_text() == pair.1@,
        made matches Err(e) ==> e == StartupError::CertGenerationFailed,
{
    match minted {
        Ok(pair) => {
            let (cert_pem, key_pem) = pair;
            match TlsIdentity::from_pem(cert_pem, key_pem) {
                Some(identity) => Ok(identity),
                None => Err(StartupError::CertGenerationFailed),
            }
        },
        Err(_) => Err(StartupError::CertGenerationFailed),
    }
}

/// Produces a fresh identity valid for `localhost`, `127.0.0.1` and
/// `0.0.0.0`. Whether generation succeeds is up to the cryptographic
/// backend; the only failure reported is `CertGenerationFailed`.
pub fn mint() -> (made: Result<TlsIdentity, StartupError>)
    ensures
        made matches Ok(identity) ==> is_pem(identity.cert_text(), certificate_label()) && is_pem(
            identity.key_text(),
            private_key_label(),
        ),
        made matches Err(e) ==> e == StartupError::CertGenerationFailed,
{
    identity_from(self_signed_pem(subject_alt_names()))
}

} // verus!
