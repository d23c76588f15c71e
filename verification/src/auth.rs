use vstd::prelude::*;
use vstd::string::StringSliceAdditionalSpecFns;

verus! {

/// The SHA-256 digest of `bytes`, written as sixty-four hexadecimal digits
/// in lower case.
pub uninterp spec fn sha256_hex(bytes: Seq<u8>) -> Seq<char>;

/// Calls `sha256::digest` on a byte slice, which hashes the bytes with
/// SHA-256 and writes the digest in hexadecimal. The contract names that
/// text and claims nothing else of it.
#[verifier::external_body]
fn digest_bytes(input: &[u8]) -> (hex: String)
    ensures
        hex@ == sha256_hex(input@),
{
    sha256::digest(input)
}

/// True when both headers are there and each holds the digest expected of
/// it.
pub open spec fn headers_match(
    username: Option<Seq<char>>,
    password: Option<Seq<char>>,
    username_digest: Seq<char>,
    password_digest: Seq<char>,
) -> bool {
    username == Some(username_digest) && password == Some(password_digest)
}

/// What a header holds, as text.
pub open spec fn header_text(header: Option<String>) -> Option<Seq<char>> {
    match header {
        Some(value) => Some(value@),
        None => None,
    }
}

/// Compares the two headers of a request with the digests expected.
pub fn credentials_match(
    username: &Option<String>,
    password: &Option<String>,
    username_digest: &String,
    password_digest: &String,
) -> (ok: bool)
    ensures
        ok == headers_match(
            header_text(*username),
            header_text(*password),
            username_digest@,
            password_digest@,
        ),
{
    let name_ok = match username {
        Some(name) => *name == *username_digest,
        None => false,
    };
    let password_ok = match password {
        Some(pwd) => *pwd == *password_digest,
        None => false,
    };
    name_ok && password_ok
}

/// True when a request shows the staff's credentials: the header with the
/// user's name holds the digest of `restaurant`, and the header with the
/// password holds the digest of `paidy`.
pub fn is_auth(username: &Option<String>, password: &Option<String>) -> (ok: bool)
    ensures
        ok == headers_match(
            header_text(*username),
            header_text(*password),
            sha256_hex("restaurant".spec_bytes()),
            sha256_hex("paidy".spec_bytes()),
        ),
{
    let username_digest = digest_bytes("restaurant".as_bytes());
    let password_digest = digest_bytes("paidy".as_bytes());
    credentials_match(username, password, &username_digest, &password_digest)
}

} // verus!
