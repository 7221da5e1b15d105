//! The metadata document of a Lightning Address, its serialized text and the
//! hash of that text.
//!
//! The pay-request document and the invoice both go through
//! [`generate_metadata`], so the hash embedded in an invoice is the hash of
//! the very text the payer fetched.

use vstd::prelude::*;
use vstd::string::*;

verus! {

/// The fixed third entry of every metadata document.
pub const ATTRIBUTION: &'static str = "powered by https://github.com/yfaming/thor";

/// The Lightning Address of a user: name, `@`, domain.
pub open spec fn identifier(domain: Seq<char>, username: Seq<char>) -> Seq<char> {
    username + "@"@ + domain
}

/// The metadata document of a user: three `(mime type, content)` entries, in
/// this order.
pub open spec fn metadata_entries(domain: Seq<char>, username: Seq<char>) -> Seq<
    (Seq<char>, Seq<char>),
> {
    seq![
        ("text/identifier"@, identifier(domain, username)),
        ("text/plain"@, "sats for "@ + identifier(domain, username)),
        ("text/plain"@, ATTRIBUTION@),
    ]
}

/// The JSON text of a list of string pairs, an array of two-element arrays,
/// or the message of the serializer's error.
pub uninterp spec fn json_text(entries: Seq<(Seq<char>, Seq<char>)>) -> Result<
    Seq<char>,
    Seq<char>,
>;

/// The lower-case hexadecimal SHA-256 digest of the UTF-8 bytes of a text.
pub uninterp spec fn sha256_hex(text: Seq<char>) -> Seq<char>;

/// The serialized metadata document of a user.
pub open spec fn metadata_text(domain: Seq<char>, username: Seq<char>) -> Result<
    Seq<char>,
    Seq<char>,
> {
    json_text(metadata_entries(domain, username))
}

/// Calls `serde_json::to_string` on the pairs, which serialize as an array of
/// two-element arrays of strings. Not proved: that the text, or the error
/// message, is the one `json_text` names for these pairs, that is, that it
/// depends on the pairs alone.
#[verifier::external_body]
fn to_json(entries: &Vec<(String, String)>) -> (r: Result<String, String>)
    ensures
        match r {
            Ok(text) => json_text(entries.deep_view()) == Ok::<Seq<char>, Seq<char>>(text@),
            Err(reason) => json_text(entries.deep_view()) == Err::<Seq<char>, Seq<char>>(reason@),
        },
{
    match serde_json::to_string(entries) {
        Ok(text) => Ok(text),
        Err(e) => Err(e.to_string()),
    }
}

/// Calls `bitcoin_hashes::Sha256::hash` on the bytes of the text and formats
/// the digest, which prints as lower-case hexadecimal. Not proved: that the
/// result is the digest `sha256_hex` names for this text.
#[verifier::external_body]
pub(crate) fn sha256_hex_digest(text: &str) -> (digest: String)
    ensures
        digest@ == sha256_hex(text@),
{
    format!("{}", bitcoin_hashes::Sha256::hash(text.as_bytes()))
}

/// The Lightning Address of a user.
fn build_identifier(domain: &str, username: &str) -> (s: String)
    ensures
        s@ == identifier(domain@, username@),
{
    let mut s = username.to_string();
    s.append("@");
    s.append(domain);
    s
}

/// The metadata document of a user.
pub fn build_metadata_entries(domain: &str, username: &str) -> (entries: Vec<(String, String)>)
    ensures
        entries.deep_view() == metadata_entries(domain@, username@),
{
    let mut description = "sats for ".to_string();
    description.append(build_identifier(domain, username).as_str());
    let mut entries: Vec<(String, String)> = Vec::new();
    entries.push(("text/identifier".to_string(), build_identifier(domain, username)));
    entries.push(("text/plain".to_string(), description));
    entries.push(("text/plain".to_string(), ATTRIBUTION.to_string()));
    entries
}

/// The serialized metadata document of a user: a function of domain and
/// user name alone. Fails only where the serializer does, with its message.
pub fn generate_metadata(domain: &str, username: &str) -> (r: Result<String, String>)
    ensures
        match r {
            Ok(text) => metadata_text(domain@, username@) == Ok::<Seq<char>, Seq<char>>(text@),
            Err(reason) => metadata_text(domain@, username@) == Err::<Seq<char>, Seq<char>>(
                reason@,
            ),
        },
{
    let entries = build_metadata_entries(domain, username);
    to_json(&entries)
}

} // verus!
