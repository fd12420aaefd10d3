//! Identifier validation and the decision logic of the resource
//! orchestrator: URL template substitution, bootstrap request construction,
//! response classification, and credential envelope unwrapping.
//!
//! Network transport lives outside this crate: callers perform the HTTP
//! exchanges and hand the plain results (status codes and body text) to the
//! functions here.

use vstd::prelude::*;
use vstd::string::StrSliceExecFns;
use vstd::string::StringExecFns;

use crate::constants::APP_KEY;
use crate::constants::BASE_URI;
use crate::error::ImdbApiError;
use crate::signer::Credentials;

verus! {

pub open spec fn is_ascii_letter(c: char) -> bool {
    ('a' <= c && c <= 'z') || ('A' <= c && c <= 'Z')
}

pub open spec fn is_ascii_digit_char(c: char) -> bool {
    '0' <= c && c <= '9'
}

/// A well-formed IMDb identifier: exactly two ASCII letters followed by
/// exactly seven ASCII digits (nine characters in all).
pub open spec fn valid_imdb_id(s: Seq<char>) -> bool {
    &&& s.len() == 9
    &&& (forall|i: int| 0 <= i < 2 ==> is_ascii_letter(#[trigger] s[i]))
    &&& (forall|i: int| 2 <= i < 9 ==> is_ascii_digit_char(#[trigger] s[i]))
}

/// Validate an IMDb identifier.
pub fn validate_imdb_id(imdb_id: &str) -> (r: bool)
    ensures
        r == valid_imdb_id(imdb_id@),
{
    let n = imdb_id.unicode_len();
    if n != 9 {
        return false;
    }
    let mut i: usize = 0;
    while i < 9
        invariant
            0 <= i <= 9,
            imdb_id@.len() == 9,
            forall|j: int| 0 <= j < i && j < 2 ==> is_ascii_letter(#[trigger] imdb_id@[j]),
            forall|j: int| 2 <= j < i ==> is_ascii_digit_char(#[trigger] imdb_id@[j]),
        decreases 9 - i,
    {
        let c = imdb_id.get_char(i);
        if i < 2 {
            if !(('a' <= c && c <= 'z') || ('A' <= c && c <= 'Z')) {
                return false;
            }
        } else {
            if !('0' <= c && c <= '9') {
                return false;
            }
        }
        i = i + 1;
    }
    true
}

/// The placeholder that endpoint templates carry where an identifier must be
/// substituted.
pub open spec fn placeholder() -> Seq<char> {
    "{imdb_id}"@
}

/// `template` with every occurrence of the placeholder replaced by `id`,
/// scanning left to right.
pub open spec fn substituted(template: Seq<char>, id: Seq<char>) -> Seq<char>
    decreases template.len(),
{
    if template.len() == 0 {
        Seq::<char>::empty()
    } else if template.len() >= 9 && template.subrange(0, 9) == placeholder() {
        id + substituted(template.skip(9), id)
    } else {
        seq![template[0]] + substituted(template.skip(1), id)
    }
}

/// Whether the placeholder occurs in `template` starting at position `i`.
fn placeholder_at(template: &str, i: usize, n: usize) -> (r: bool)
    requires
        i < n,
        n == template@.len(),
    ensures
        r <==> (i + 9 <= n && template@.subrange(i as int, i as int + 9) == placeholder()),
{
    if n - i < 9 {
        return false;
    }
    let r = template.get_char(i) == '{' && template.get_char(i + 1) == 'i' && template.get_char(
        i + 2,
    ) == 'm' && template.get_char(i + 3) == 'd' && template.get_char(i + 4) == 'b'
        && template.get_char(i + 5) == '_' && template.get_char(i + 6) == 'i' && template.get_char(
        i + 7,
    ) == 'd' && template.get_char(i + 8) == '}';
    proof {
        reveal_strlit("{imdb_id}");
        let sub = template@.subrange(i as int, i as int + 9);
        if r {
            assert(sub =~= placeholder()) by {
                assert forall|j: int| 0 <= j < 9 implies sub[j] == placeholder()[j] by {
                    assert(sub[j] == template@[i + j]);
                }
            }
        } else {
            assert(sub == placeholder() ==> r) by {
                if sub == placeholder() {
                    assert(template@[i as int] == sub[0]);
                    assert(template@[i + 1] == sub[1]);
                    assert(template@[i + 2] == sub[2]);
                    assert(template@[i + 3] == sub[3]);
                    assert(template@[i + 4] == sub[4]);
                    assert(template@[i + 5] == sub[5]);
                    assert(template@[i + 6] == sub[6]);
                    assert(template@[i + 7] == sub[7]);
                    assert(template@[i + 8] == sub[8]);
                }
            }
        }
    }
    r
}

/// Replace every occurrence of the placeholder in `template` by `imdb_id`.
pub fn substitute_id(template: &str, imdb_id: &str) -> (r: String)
    ensures
        r@ == substituted(template@, imdb_id@),
{
    let n = template.unicode_len();
    let mut out = String::new();
    let mut i: usize = 0;
    proof {
        assert(template@.skip(0) =~= template@);
        assert(out@ + substituted(template@.skip(0), imdb_id@) =~= substituted(
            template@,
            imdb_id@,
        ));
    }
    while i < n
        invariant
            0 <= i <= n,
            n == template@.len(),
            substituted(template@, imdb_id@) == out@ + substituted(
                template@.skip(i as int),
                imdb_id@,
            ),
        decreases n - i,
    {
        let ghost prev_out = out@;
        let ghost rest = template@.skip(i as int);
        if placeholder_at(template, i, n) {
            out.append(imdb_id);
            proof {
                assert(rest.len() >= 9);
                assert(rest.subrange(0, 9) =~= template@.subrange(i as int, i as int + 9));
                assert(rest.skip(9) =~= template@.skip(i + 9));
                assert(substituted(rest, imdb_id@) == imdb_id@ + substituted(
                    template@.skip(i + 9),
                    imdb_id@,
                ));
                assert(out@ + substituted(template@.skip(i + 9), imdb_id@) =~= prev_out
                    + substituted(rest, imdb_id@));
            }
            i = i + 9;
        } else {
            let piece = template.substring_char(i, i + 1);
            out.append(piece);
            proof {
                assert(rest.len() > 0);
                if rest.len() >= 9 {
                    assert(rest.subrange(0, 9) =~= template@.subrange(i as int, i as int + 9));
                }
                assert(rest[0] == template@[i as int]);
                assert(substituted(rest, imdb_id@) == seq![template@[i as int]] + substituted(
                    rest.skip(1),
                    imdb_id@,
                ));
                assert(rest.skip(1) =~= template@.skip(i + 1));
                assert(piece@ =~= seq![template@[i as int]]);
                assert(out@ + substituted(template@.skip(i + 1), imdb_id@) =~= prev_out
                    + substituted(rest, imdb_id@));
            }
            i = i + 1;
        }
    }
    proof {
        assert(template@.skip(n as int) =~= Seq::<char>::empty());
        assert(out@ + substituted(Seq::<char>::empty(), imdb_id@) =~= out@);
    }
    out
}

/// The absolute resource URL for one endpoint template and identifier: the
/// fixed API origin followed by the template with the identifier substituted.
pub fn build_resource_url(endpoint: &str, imdb_id: &str) -> (r: String)
    ensures
        r@ == BASE_URI@ + substituted(endpoint@, imdb_id@),
{
    let mut url = String::new();
    url.append(BASE_URI);
    let path = substitute_id(endpoint, imdb_id);
    url.append(path.as_str());
    proof {
        assert(url@ =~= BASE_URI@ + substituted(endpoint@, imdb_id@));
    }
    url
}

/// The fixed, unauthenticated bootstrap URL that issues temporary
/// credentials.
pub fn bootstrap_url() -> (r: String)
    ensures
        r@ == BASE_URI@ + "/authentication/credentials/temporary/ios82?="@,
{
    let mut url = String::new();
    url.append(BASE_URI);
    url.append("/authentication/credentials/temporary/ios82?=");
    proof {
        assert(url@ =~= BASE_URI@ + "/authentication/credentials/temporary/ios82?="@);
    }
    url
}

/// The JSON body of the credential bootstrap request: a single fixed
/// application key.
pub fn bootstrap_body() -> (r: String)
    ensures
        r@ == "{\"appKey\": \""@ + APP_KEY@ + "\"}"@,
{
    let mut body = String::new();
    body.append("{\"appKey\": \"");
    body.append(APP_KEY);
    body.append("\"}");
    proof {
        assert(body@ =~= "{\"appKey\": \""@ + APP_KEY@ + "\"}"@);
    }
    body
}

pub open spec fn is_success_status(status: u16) -> bool {
    200 <= status < 300
}

pub open spec fn is_redirect_status(status: u16) -> bool {
    300 <= status < 400
}

/// Decide the unauthenticated existence check from the HTTP status alone: a
/// success status and every redirection status count as "exists"; anything
/// else does not.
pub fn status_indicates_existence(status: u16) -> (r: bool)
    ensures
        r == (is_success_status(status) || is_redirect_status(status)),
{
    200 <= status && status < 400
}

/// The human-facing page URL probed by the existence check. Only a valid
/// identifier yields a URL; on anything else no request is to be made and
/// the title is reported as absent.
pub fn existence_check_url(imdb_id: &str) -> (r: Option<String>)
    ensures
        r is Some <==> valid_imdb_id(imdb_id@),
        r matches Some(u) ==> u@ == "https://www.imdb.com/title/"@ + imdb_id@ + "/"@,
{
    if validate_imdb_id(imdb_id) {
        let mut url = String::new();
        url.append("https://www.imdb.com/title/");
        url.append(imdb_id);
        url.append("/");
        proof {
            assert(url@ =~= "https://www.imdb.com/title/"@ + imdb_id@ + "/"@);
        }
        Some(url)
    } else {
        None
    }
}

/// Whether serde_json accepts `s` as a JSON document; parsing is a function
/// of the input string alone.
pub uninterp spec fn json_parses(s: Seq<char>) -> bool;

/// The three credential strings under the top-level `resource` entry of the
/// JSON document `s` (the `accessKeyId`, `secretAccessKey`, and
/// `sessionToken` fields, in that order), if `s` parses as JSON and carries
/// all three as strings; absent on any other text. serde_json's reading of a
/// document is a function of its text alone.
pub uninterp spec fn cred_fields_of(s: Seq<char>) -> Option<(Seq<char>, Seq<char>, Seq<char>)>;

/// Whether the JSON document `s` parses and its top level carries a
/// `resource` entry.
pub uninterp spec fn has_resource_entry(s: Seq<char>) -> bool;

/// The JSON text that serde_json renders for the top-level `resource` entry
/// of the document `s`.
pub uninterp spec fn resource_text_of(s: Seq<char>) -> Seq<char>;

/// Relies on serde_json::from_str for serde_json::Value, Value::get, and
/// Value::as_str: navigation through a parsed document is a function of the
/// body text alone, and yields the three credential strings exactly when the
/// `resource` envelope carries all of them as strings.
#[verifier::external_body]
fn extract_credential_fields(body: &str) -> (r: Option<(String, String, String)>)
    ensures
        r is Some <==> cred_fields_of(body@) is Some,
        r matches Some(t) ==> (cred_fields_of(body@) matches Some(f) && t.0@ == f.0 && t.1@ == f.1
            && t.2@ == f.2),
        r is Some ==> json_parses(body@),
{
    let v: serde_json::Value = serde_json::from_str(body).ok()?;
    let resource = v.get("resource")?;
    let access_key_id = resource.get("accessKeyId")?.as_str()?;
    let secret_access_key = resource.get("secretAccessKey")?.as_str()?;
    let session_token = resource.get("sessionToken")?.as_str()?;
    Some((access_key_id.to_string(), secret_access_key.to_string(), session_token.to_string()))
}

/// Relies on serde_json::from_str for serde_json::Value, Value::get, and
/// serde_json::to_string: rendering the `resource` entry back to JSON text
/// is a function of the body text alone, and serializing a Value cannot
/// fail (its maps are keyed by strings), so a parsing body always yields a
/// text.
#[verifier::external_body]
fn extract_resource_text(body: &str) -> (r: Option<String>)
    ensures
        r is Some <==> json_parses(body@),
        r matches Some(t) ==> t@ == (if has_resource_entry(body@) {
            resource_text_of(body@)
        } else {
            "null"@
        }),
{
    let v: serde_json::Value = serde_json::from_str(body).ok()?;
    match v.get("resource") {
        Some(entry) => serde_json::to_string(entry).ok(),
        None => Some("null".to_string()),
    }
}

/// Assemble a credential triple from the three envelope fields. Exactly the
/// responses that carry all three string fields yield credentials; a missing
/// field is an authentication failure, and nothing downstream (no signing,
/// no resource request) is reached with a partial triple.
pub fn credentials_from_fields(
    access_key_id: Option<String>,
    secret_access_key: Option<String>,
    session_token: Option<String>,
) -> (r: Result<Credentials, ImdbApiError>)
    ensures
        r is Ok <==> (access_key_id is Some && secret_access_key is Some && session_token is Some),
        r matches Ok(c) ==> {
            &&& c.access_key_id == access_key_id->0
            &&& c.secret_access_key == secret_access_key->0
            &&& c.session_token == session_token->0
        },
        r matches Err(e) ==> e is AuthenticationError,
{
    match (access_key_id, secret_access_key, session_token) {
        (Some(access_key_id), Some(secret_access_key), Some(session_token)) => Ok(
            Credentials { access_key_id, secret_access_key, session_token },
        ),
        _ => Err(ImdbApiError::AuthenticationError),
    }
}

/// Classify the credential bootstrap response. Success requires a success
/// HTTP status and a JSON body whose `resource` envelope carries the three
/// string fields; exactly then the three strings are returned, verbatim.
/// Every other outcome is an authentication failure with no further detail.
pub fn parse_credentials_response(status: u16, body: &str) -> (r: Result<
    Credentials,
    ImdbApiError,
>)
    ensures
        r is Ok <==> (is_success_status(status) && cred_fields_of(body@) is Some),
        r matches Ok(c) ==> (cred_fields_of(body@) matches Some(f) && c.access_key_id@ == f.0
            && c.secret_access_key@ == f.1 && c.session_token@ == f.2),
        r matches Err(e) ==> e is AuthenticationError,
{
    if !(200 <= status && status < 300) {
        return Err(ImdbApiError::AuthenticationError);
    }
    match extract_credential_fields(body) {
        Some((access_key_id, secret_access_key, session_token)) => credentials_from_fields(
            Some(access_key_id),
            Some(secret_access_key),
            Some(session_token),
        ),
        None => Err(ImdbApiError::AuthenticationError),
    }
}

/// Classify the signed resource response. A non-success status yields
/// `ApiError` carrying that status, and the body is not touched; on a
/// success status the body must parse as JSON, and the JSON text of the
/// value under the top-level `resource` key is returned — the text `null`
/// where the key is absent, preserving the service's null-passthrough
/// convention.
pub fn parse_resource_response(status: u16, body: &str) -> (r: Result<String, ImdbApiError>)
    ensures
        !is_success_status(status) ==> (r matches Err(e) && e == ImdbApiError::ApiError(status)),
        is_success_status(status) ==> (r is Ok <==> json_parses(body@)),
        is_success_status(status) && !json_parses(body@) ==> (r matches Err(e)
            && e is DecodeError),
        r matches Ok(t) ==> t@ == (if has_resource_entry(body@) {
            resource_text_of(body@)
        } else {
            "null"@
        }),
{
    if !(200 <= status && status < 300) {
        return Err(ImdbApiError::ApiError(status));
    }
    match extract_resource_text(body) {
        Some(text) => Ok(text),
        None => Err(ImdbApiError::DecodeError("response body is not valid JSON".to_owned())),
    }
}

} // verus!

