use vstd::prelude::*;
use crate::config::Config;
use crate::error::{OdooError, OdooErrorV, http_status_error};
use crate::json::{Json, JsonV};
use crate::text::{concat_str, trim_end_char, trim_end_str};

verus! {

/// Whether a character may stand in an HTTP header value: a tab, or any character but
/// the ASCII control characters (non-ASCII characters are encoded as bytes >= 0x80,
/// which are accepted).
pub open spec fn header_char_ok(c: char) -> bool {
    c == '\t' || (c as u32 >= 32 && c as u32 != 127)
}

pub open spec fn header_text_ok(s: Seq<char>) -> bool {
    forall|i: int| 0 <= i < s.len() ==> header_char_ok(#[trigger] s[i])
}

/// Calls `reqwest::header::HeaderValue::from_str(text)` (the `http` crate's) and keeps
/// only whether it succeeded, or the error's `Display` text.
/// Claimed, from that crate's source: the text is accepted exactly when each of its UTF-8
/// bytes is a tab or at least 32 and not 127, and the error reads
/// `failed to parse header value`.
#[verifier::external_body]
fn check_header_value(text: &str) -> (r: Result<(), String>)
    ensures
        r is Ok <==> header_text_ok(text@),
        r matches Err(e) ==> e@ == "failed to parse header value"@,
{
    match reqwest::header::HeaderValue::from_str(text) {
        Ok(_) => Ok(()),
        Err(e) => Err(e.to_string()),
    }
}

/// What the HTTP client is built from: the `Authorization` and `X-Odoo-Database` header
/// values and the base URL that endpoint paths are appended to.
pub struct ClientSettings {
    pub authorization: String,
    pub database: String,
    pub base_url: String,
}

pub struct ClientSettingsV {
    pub authorization: Seq<char>,
    pub database: Seq<char>,
    pub base_url: Seq<char>,
}

impl View for ClientSettings {
    type V = ClientSettingsV;

    open spec fn view(&self) -> ClientSettingsV {
        ClientSettingsV {
            authorization: self.authorization@,
            database: self.database@,
            base_url: self.base_url@,
        }
    }
}

/// The client settings for `url`, `api_key` and `db`, or why they cannot be made.
pub open spec fn client_settings_spec(url: Seq<char>, api_key: Seq<char>, db: Seq<char>) -> Result<
    ClientSettingsV,
    OdooErrorV,
> {
    let bearer = "Bearer "@ + api_key;
    if !header_text_ok(bearer) {
        Err(OdooErrorV::Auth("invalid API key header: "@ + "failed to parse header value"@))
    } else if !header_text_ok(db) {
        Err(OdooErrorV::Auth("invalid database header: "@ + "failed to parse header value"@))
    } else {
        Ok(
            ClientSettingsV {
                authorization: bearer,
                database: db,
                base_url: trim_end_char(url, '/'),
            },
        )
    }
}

/// The settings for the HTTP client of `config`: the bearer token and the database name as
/// header values (refused where a header cannot hold them), and the Odoo URL without its
/// trailing slashes.
pub fn client_settings(config: &Config) -> (r: Result<ClientSettings, OdooError>)
    ensures
        match r {
            Ok(s) => client_settings_spec(config.odoo_url@, config.odoo_api_key@, config.odoo_db@)
                == Ok::<ClientSettingsV, OdooErrorV>(s@),
            Err(e) => client_settings_spec(config.odoo_url@, config.odoo_api_key@, config.odoo_db@)
                == Err::<ClientSettingsV, OdooErrorV>(e@),
        },
{
    let authorization = concat_str("Bearer ", config.odoo_api_key.as_str());
    match check_header_value(authorization.as_str()) {
        Ok(()) => {},
        Err(e) => {
            return Err(OdooError::Auth(concat_str("invalid API key header: ", e.as_str())));
        },
    }
    match check_header_value(config.odoo_db.as_str()) {
        Ok(()) => {},
        Err(e) => {
            return Err(OdooError::Auth(concat_str("invalid database header: ", e.as_str())));
        },
    }
    let base_url = trim_end_str(config.odoo_url.as_str(), '/');
    Ok(ClientSettings { authorization, database: config.odoo_db.clone(), base_url })
}

/// The JSON/2 endpoint of `method` on `model`.
pub open spec fn endpoint(base_url: Seq<char>, model: Seq<char>, method: Seq<char>) -> Seq<char> {
    base_url + "/json/2/"@ + model + "/"@ + method
}

/// The URL that a call of `method` on `model` is posted to.
pub fn endpoint_url(base_url: &str, model: &str, method: &str) -> (r: String)
    ensures
        r@ == endpoint(base_url@, model@, method@),
{
    let a = concat_str(base_url, "/json/2/");
    let b = concat_str(a.as_str(), model);
    let c = concat_str(b.as_str(), "/");
    concat_str(c.as_str(), method)
}

/// What a reply means, given its status and its body as JSON (or why the body could not
/// be read as JSON).
pub open spec fn reply_outcome(status: u16, body: Result<JsonV, Seq<char>>) -> Result<
    JsonV,
    OdooErrorV,
> {
    if status == 200 {
        match body {
            Ok(v) => Ok(v),
            Err(m) => Err(OdooErrorV::Http(m)),
        }
    } else {
        match body {
            Ok(v) => Err(http_status_error(status, v)),
            Err(_) => Err(http_status_error(status, JsonV::Object(seq![]))),
        }
    }
}

/// The result of a call, from the reply's status and its body: a 200 reply gives its
/// JSON, any other status the error it stands for (an unreadable error body counts as an
/// empty object).
pub fn call_outcome(status: u16, body: Result<Json, String>) -> (r: Result<Json, OdooError>)
    ensures
        match (r, body) {
            (Ok(v), Ok(b)) => reply_outcome(status, Ok(b@)) == Ok::<JsonV, OdooErrorV>(v@),
            (Err(e), Ok(b)) => reply_outcome(status, Ok(b@)) == Err::<JsonV, OdooErrorV>(e@),
            (Err(e), Err(m)) => reply_outcome(status, Err(m@)) == Err::<JsonV, OdooErrorV>(e@),
            (Ok(_), Err(_)) => false,
        },
{
    if status == 200 {
        match body {
            Ok(v) => Ok(v),
            Err(m) => Err(OdooError::Http(m)),
        }
    } else {
        match body {
            Ok(v) => Err(OdooError::from_http_status(status, &v)),
            Err(_) => {
                let empty = Json::empty_object();
                Err(OdooError::from_http_status(status, &empty))
            },
        }
    }
}

/// The base URL is the configured URL with its trailing slashes cut: a prefix of it that
/// does not end in `/`.
pub proof fn lemma_base_url_shape(url: Seq<char>)
    ensures
        trim_end_char(url, '/').is_prefix_of(url),
        trim_end_char(url, '/').len() == 0 || trim_end_char(url, '/').last() != '/',
    decreases url.len(),
{
    if url.len() > 0 && url.last() == '/' {
        lemma_base_url_shape(url.drop_last());
    }
}

/// Only a reply with status 200 and a JSON body succeeds, and it answers that body.
pub proof fn lemma_only_200_succeeds(status: u16, body: Result<JsonV, Seq<char>>)
    ensures
        reply_outcome(status, body) is Ok <==> (status == 200 && body is Ok),
        status == 200 && body is Ok ==> reply_outcome(status, body) == Ok::<JsonV, OdooErrorV>(
            body->Ok_0,
        ),
{
}

/// A failed reply is read as the error its status stands for, with an unreadable body
/// counting as an empty object; a 200 reply whose body cannot be read is a transport error
/// with the reader's message.
pub proof fn lemma_failed_replies(status: u16, body: Result<JsonV, Seq<char>>)
    ensures
        body matches Ok(b) ==> (status != 200 ==> reply_outcome(status, body) == Err::<
            JsonV,
            OdooErrorV,
        >(http_status_error(status, b))),
        status != 200 && body is Err ==> reply_outcome(status, body) == Err::<JsonV, OdooErrorV>(
            http_status_error(status, JsonV::Object(seq![])),
        ),
        body matches Err(m) ==> (status == 200 ==> reply_outcome(status, body) == Err::<
            JsonV,
            OdooErrorV,
        >(OdooErrorV::Http(m))),
{
}

/// The client is set up exactly when the bearer token and the database name can stand in
/// HTTP headers; then it sends `Bearer <api key>` and the database name as given, and posts
/// to the configured URL without its trailing slashes; otherwise the refusal is an
/// authentication error that says which header is at fault (the token is checked first).
pub proof fn lemma_client_settings(url: Seq<char>, api_key: Seq<char>, db: Seq<char>)
    ensures
        client_settings_spec(url, api_key, db) is Ok <==> (header_text_ok("Bearer "@ + api_key)
            && header_text_ok(db)),
        client_settings_spec(url, api_key, db) matches Ok(s) ==> {
            &&& s.authorization == "Bearer "@ + api_key
            &&& s.database == db
            &&& s.base_url.is_prefix_of(url)
            &&& (s.base_url.len() == 0 || s.base_url.last() != '/')
            &&& forall|i: int| s.base_url.len() <= i < url.len() ==> url[i] == '/'
        },
        !header_text_ok("Bearer "@ + api_key) ==> client_settings_spec(url, api_key, db) == Err::<
            ClientSettingsV,
            OdooErrorV,
        >(OdooErrorV::Auth("invalid API key header: failed to parse header value"@)),
        header_text_ok("Bearer "@ + api_key) && !header_text_ok(db) ==> client_settings_spec(
            url,
            api_key,
            db,
        ) == Err::<ClientSettingsV, OdooErrorV>(
            OdooErrorV::Auth("invalid database header: failed to parse header value"@),
        ),
{
    lemma_base_url_shape(url);
    lemma_trim_end_rest(url);
    reveal_strlit("invalid API key header: ");
    reveal_strlit("invalid database header: ");
    reveal_strlit("failed to parse header value");
    reveal_strlit("invalid API key header: failed to parse header value");
    reveal_strlit("invalid database header: failed to parse header value");
    assert("invalid API key header: "@ + "failed to parse header value"@
        =~= "invalid API key header: failed to parse header value"@);
    assert("invalid database header: "@ + "failed to parse header value"@
        =~= "invalid database header: failed to parse header value"@);
}

/// What the trailing-slash cut removes is slashes only.
proof fn lemma_trim_end_rest(url: Seq<char>)
    ensures
        trim_end_char(url, '/').len() <= url.len(),
        forall|i: int| trim_end_char(url, '/').len() <= i < url.len() ==> url[i] == '/',
    decreases url.len(),
{
    if url.len() > 0 && url.last() == '/' {
        lemma_trim_end_rest(url.drop_last());
        assert forall|i: int| trim_end_char(url, '/').len() <= i < url.len() implies url[i]
            == '/' by {
            if i < url.len() - 1 {
                assert(url[i] == url.drop_last()[i]);
            }
        }
    }
}

/// A call is posted under the base URL, to `/json/2/`, then the model, a slash, and the
/// method: the model and the method stand each in its own place.
pub proof fn lemma_endpoint_shape(base_url: Seq<char>, model: Seq<char>, method: Seq<char>)
    ensures
        (base_url + "/json/2/"@).is_prefix_of(endpoint(base_url, model, method)),
        endpoint(base_url, model, method).subrange(
            (base_url.len() + "/json/2/"@.len()) as int,
            (base_url.len() + "/json/2/"@.len() + model.len()) as int,
        ) == model,
        ("/"@ + method).is_suffix_of(endpoint(base_url, model, method)),
        endpoint(base_url, model, method).len() == base_url.len() + "/json/2/"@.len() + model.len()
            + 1 + method.len(),
{
    reveal_strlit("/");
    let e = endpoint(base_url, model, method);
    let p = base_url + "/json/2/"@;
    assert(e.subrange(0, p.len() as int) =~= p);
    assert(e.subrange(p.len() as int, (p.len() + model.len()) as int) =~= model);
    let t = "/"@ + method;
    assert(e.subrange(e.len() - t.len(), e.len() as int) =~= t);
}

} // verus!
