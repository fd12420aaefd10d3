//! AWS3-style request signer: builds the canonical string-to-sign for one
//! GET request, hashes it, authenticates the hash with the ephemeral secret
//! key, and assembles the three authentication headers.

use vstd::prelude::*;
use vstd::string::StringExecFns;
use vstd::string::StringSliceAdditionalSpecFns;
use vstd::utf8::encode_utf8;

use crate::error::ImdbApiError;

verus! {

/// AWS3-style authentication credentials: a short-lived triple issued by the
/// bootstrap endpoint, fetched fresh for every signed request and never
/// reused across two outbound requests.
#[derive(Debug, Clone)]
pub struct Credentials {
    pub access_key_id: String,
    pub secret_access_key: String,
    pub session_token: String,
}

/// Authentication headers returned by the signer. The three values are
/// mutually consistent: all were produced from one signing call, with one
/// date and one credential triple.
#[derive(Debug, Clone)]
pub struct AuthHeaders {
    pub x_amz_date: String,
    pub x_amz_security_token: String,
    pub x_amzn_authorization: String,
}

/// The exact canonical text block that is hashed and signed: the method
/// line, the path, an empty line, three `header:value` lines, and a final
/// blank line. Every byte of this layout is significant.
pub open spec fn canonical_string_to_sign(
    path: Seq<char>,
    date: Seq<char>,
    session_token: Seq<char>,
) -> Seq<char> {
    "GET\n"@ + path + "\n\nhost:api.imdbws.com\nx-amz-date:"@ + date
        + "\nx-amz-security-token:"@ + session_token + "\n\n"@
}

/// The SHA-256 digest of a byte sequence, as computed by the sha2 crate.
pub uninterp spec fn sha256_of(data: Seq<u8>) -> Seq<u8>;

/// The HMAC-SHA256 tag over `data` keyed by `key`, as computed by the hmac
/// crate.
pub uninterp spec fn hmac_sha256_of(key: Seq<u8>, data: Seq<u8>) -> Seq<u8>;

/// The standard Base64 rendering (with padding) of a byte sequence, as
/// computed by the base64 crate.
pub uninterp spec fn base64_standard_of(data: Seq<u8>) -> Seq<char>;

/// Whether the url crate accepts `s` as an absolute URL.
pub uninterp spec fn url_parses(s: Seq<char>) -> bool;

/// The path component (no query string) that the url crate extracts from a
/// URL it accepts.
pub uninterp spec fn url_path_of(s: Seq<char>) -> Seq<char>;

/// Relies on sha2::Sha256::digest: the 32-byte SHA-256 digest of the input,
/// a function of the input bytes alone.
#[verifier::external_body]
fn sha256_digest(data: &[u8]) -> (r: Vec<u8>)
    ensures
        r@ == sha256_of(data@),
        r@.len() == 32,
{
    <sha2::Sha256 as sha2::Digest>::digest(data).to_vec()
}

/// Relies on hmac::Hmac over sha2::Sha256: `new_from_slice` accepts a key of
/// any length (its `KeyInit` impl always returns `Ok`), and `update` then
/// `finalize` produce the 32-byte HMAC-SHA256 tag, a function of key and
/// message alone. The fallible initialization is surfaced unchanged.
#[verifier::external_body]
fn hmac_sha256_tag(key: &[u8], data: &[u8]) -> (r: Option<Vec<u8>>)
    ensures
        r is Some,
        r matches Some(tag) ==> tag@ == hmac_sha256_of(key@, data@) && tag@.len() == 32,
{
    match <hmac::Hmac<sha2::Sha256> as hmac::KeyInit>::new_from_slice(key) {
        Ok(mut mac) => {
            hmac::Mac::update(&mut mac, data);
            Some(hmac::Mac::finalize(mac).into_bytes().to_vec())
        }
        Err(_) => None,
    }
}

/// A character of the standard Base64 alphabet, or the padding character.
pub open spec fn is_base64_standard_char(c: char) -> bool {
    ||| ('A' <= c && c <= 'Z')
    ||| ('a' <= c && c <= 'z')
    ||| ('0' <= c && c <= '9')
    ||| c == '+'
    ||| c == '/'
    ||| c == '='
}

/// Text made only of standard Base64 alphabet and padding characters.
pub open spec fn is_base64_standard_text(s: Seq<char>) -> bool {
    forall|i: int| 0 <= i < s.len() ==> is_base64_standard_char(#[trigger] s[i])
}

/// Relies on the base64 crate's standard engine with padding: the encoding
/// is a function of the input alone, its length is four characters for
/// every started group of three input bytes, and it draws only on the
/// standard alphabet and the `=` padding character.
#[verifier::external_body]
fn base64_standard_encode(data: &[u8]) -> (r: String)
    ensures
        r@ == base64_standard_of(data@),
        r@.len() == 4 * ((data@.len() + 2) / 3),
        is_base64_standard_text(r@),
{
    base64::Engine::encode(&base64::engine::general_purpose::STANDARD, data)
}

/// Relies on url::Url::parse and url::Url::path: parsing is a function of
/// the input string alone; on success the path component (without the query
/// string) is returned, on failure the parse diagnostic.
#[verifier::external_body]
fn parse_url_path(url: &str) -> (r: Result<String, String>)
    ensures
        r is Ok <==> url_parses(url@),
        r matches Ok(p) ==> p@ == url_path_of(url@),
{
    match url::Url::parse(url) {
        Ok(u) => Ok(u.path().to_string()),
        Err(e) => Err(e.to_string()),
    }
}

/// Relies on chrono::Utc::now and DateTime::format: the current wall-clock
/// time rendered as an RFC-1123-style GMT string. The value depends on the
/// clock, so nothing is promised of it.
#[verifier::external_body]
fn current_gmt_date() -> (r: String) {
    chrono::Utc::now().format("%a, %d %b %Y %H:%M:%S GMT").to_string()
}

/// The Base64-encoded signature for one request: HMAC-SHA256 over the
/// SHA-256 digest of the canonical string, keyed by the secret access key.
pub open spec fn signature_of(path: Seq<char>, date: Seq<char>, creds: Credentials) -> Seq<char> {
    base64_standard_of(
        hmac_sha256_of(
            encode_utf8(creds.secret_access_key@),
            sha256_of(encode_utf8(canonical_string_to_sign(path, date, creds.session_token@))),
        ),
    )
}

/// The composite authorization string naming the access key id, the
/// algorithm, the signed-header list, and the Base64-encoded signature.
pub open spec fn authorization_header_of(access_key_id: Seq<char>, signature: Seq<char>) -> Seq<char> {
    "AWS3 AWSAccessKeyId="@ + access_key_id
        + ",Algorithm=HmacSHA256,SignedHeaders=Host;X-Amz-Date;X-Amz-Security-Token,Signature="@
        + signature
}

/// The header set that one signing call with this path, date, and credential
/// triple must produce. Pinning all three values to the same date and
/// credentials states the mutual-consistency invariant of the header set.
pub open spec fn signed_headers_ok(
    h: AuthHeaders,
    path: Seq<char>,
    date: Seq<char>,
    creds: Credentials,
) -> bool {
    &&& h.x_amz_date@ == date
    &&& h.x_amz_security_token@ == creds.session_token@
    &&& h.x_amzn_authorization@ == authorization_header_of(
        creds.access_key_id@,
        signature_of(path, date, creds),
    )
}

/// AWS3-style request signer.
pub struct Signer;

impl Signer {
    /// Build the canonical string-to-sign, byte for byte.
    pub fn string_to_sign(path: &str, date: &str, session_token: &str) -> (r: String)
        ensures
            r@ == canonical_string_to_sign(path@, date@, session_token@),
    {
        let mut s = String::new();
        s.append("GET\n");
        s.append(path);
        s.append("\n\nhost:api.imdbws.com\nx-amz-date:");
        s.append(date);
        s.append("\nx-amz-security-token:");
        s.append(session_token);
        s.append("\n\n");
        proof {
            assert(s@ =~= canonical_string_to_sign(path@, date@, session_token@));
        }
        s
    }

    /// Sign a request URL for the given date string. Apart from the date,
    /// signing is deterministic: the returned headers are pinned, value by
    /// value, to the path, the date, and the credential triple.
    pub fn sign_at(url: &str, date: &str, creds: &Credentials) -> (r: Result<
        AuthHeaders,
        ImdbApiError,
    >)
        ensures
            r is Ok <==> url_parses(url@),
            r matches Ok(h) ==> signed_headers_ok(h, url_path_of(url@), date@, *creds),
            r matches Ok(h) ==> signature_of(url_path_of(url@), date@, *creds).len() == 44,
            r matches Ok(h) ==> is_base64_standard_text(
                signature_of(url_path_of(url@), date@, *creds),
            ),
            r matches Err(e) ==> e is SigningError,
    {
        let path = match parse_url_path(url) {
            Ok(p) => p,
            Err(diag) => {
                return Err(ImdbApiError::SigningError(diag));
            },
        };
        let sts = Self::string_to_sign(path.as_str(), date, creds.session_token.as_str());
        let digest = sha256_digest(sts.as_str().as_bytes());
        let tag = match hmac_sha256_tag(
            creds.secret_access_key.as_str().as_bytes(),
            digest.as_slice(),
        ) {
            Some(t) => t,
            None => {
                return Err(ImdbApiError::AuthenticationError);
            },
        };
        let signature = base64_standard_encode(tag.as_slice());
        let mut authorization = String::new();
        authorization.append("AWS3 AWSAccessKeyId=");
        authorization.append(creds.access_key_id.as_str());
        authorization.append(
            ",Algorithm=HmacSHA256,SignedHeaders=Host;X-Amz-Date;X-Amz-Security-Token,Signature=",
        );
        authorization.append(signature.as_str());
        proof {
            assert(signature@ == signature_of(url_path_of(url@), date@, *creds));
            assert(authorization@ =~= authorization_header_of(
                creds.access_key_id@,
                signature_of(url_path_of(url@), date@, *creds),
            ));
        }
        Ok(
            AuthHeaders {
                x_amz_date: date.to_owned(),
                x_amz_security_token: creds.session_token.clone(),
                x_amzn_authorization: authorization,
            },
        )
    }

    /// Sign a request URL with the provided credentials, capturing the
    /// current wall-clock time as the request date. The date embedded in the
    /// returned `x_amz_date` header is the one the signature was computed
    /// over, so the three headers are mutually consistent.
    pub fn sign(url: &str, creds: &Credentials) -> (r: Result<AuthHeaders, ImdbApiError>)
        ensures
            r is Ok <==> url_parses(url@),
            r matches Ok(h) ==> signed_headers_ok(h, url_path_of(url@), h.x_amz_date@, *creds),
            r matches Ok(h) ==> signature_of(url_path_of(url@), h.x_amz_date@, *creds).len()
                == 44,
            r matches Ok(h) ==> is_base64_standard_text(
                signature_of(url_path_of(url@), h.x_amz_date@, *creds),
            ),
            r matches Err(e) ==> e is SigningError,
    {
        let date = current_gmt_date();
        Self::sign_at(url, date.as_str(), creds)
    }
}

/// Signing is deterministic: for one path, one date, and one credential
/// triple there is exactly one header set, so any two header sets produced
/// for the same inputs agree value for value. Since every `Ok` result of
/// `Signer::sign_at` satisfies `signed_headers_ok` for its inputs, and
/// `Signer::sign` differs only in reading the clock for the date, two calls
/// under a fixed date are referentially transparent: their results are
/// interchangeable.
pub proof fn lemma_sign_deterministic(
    h1: AuthHeaders,
    h2: AuthHeaders,
    path: Seq<char>,
    date: Seq<char>,
    creds: Credentials,
)
    requires
        signed_headers_ok(h1, path, date, creds),
        signed_headers_ok(h2, path, date, creds),
    ensures
        h1.x_amz_date@ == h2.x_amz_date@,
        h1.x_amz_security_token@ == h2.x_amz_security_token@,
        h1.x_amzn_authorization@ == h2.x_amzn_authorization@,
{
}

} // verus!
