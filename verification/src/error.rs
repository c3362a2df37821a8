use vstd::prelude::*;
use crate::json::{Json, JsonV};
use crate::text::{concat_str, decimal, decimal_string};

verus! {

/// What went wrong with a request to Odoo.
#[derive(Debug, PartialEq)]
pub enum OdooError {
    Auth(String),
    AccessDenied(String),
    NotFound(String),
    Validation(String),
    OdooApi { name: String, message: String },
    /// The transport failed; the text is the HTTP client's own description.
    Http(String),
    ReadOnly,
}

/// The mathematical value of an `OdooError`.
pub enum OdooErrorV {
    Auth(Seq<char>),
    AccessDenied(Seq<char>),
    NotFound(Seq<char>),
    Validation(Seq<char>),
    OdooApi { name: Seq<char>, message: Seq<char> },
    Http(Seq<char>),
    ReadOnly,
}

impl View for OdooError {
    type V = OdooErrorV;

    open spec fn view(&self) -> OdooErrorV {
        match self {
            OdooError::Auth(m) => OdooErrorV::Auth(m@),
            OdooError::AccessDenied(m) => OdooErrorV::AccessDenied(m@),
            OdooError::NotFound(m) => OdooErrorV::NotFound(m@),
            OdooError::Validation(m) => OdooErrorV::Validation(m@),
            OdooError::OdooApi { name, message } => OdooErrorV::OdooApi {
                name: name@,
                message: message@,
            },
            OdooError::Http(m) => OdooErrorV::Http(m@),
            OdooError::ReadOnly => OdooErrorV::ReadOnly,
        }
    }
}

/// The string under `key` in `body`, or `default` where there is none.
pub open spec fn str_field_or(body: JsonV, key: Seq<char>, default: Seq<char>) -> Seq<char> {
    match body.get(key) {
        Some(v) => match v.as_str() {
            Some(s) => s,
            None => default,
        },
        None => default,
    }
}

/// The error that an Odoo reply with HTTP status `status` and JSON body `body` stands for.
pub open spec fn http_status_error(status: u16, body: JsonV) -> OdooErrorV {
    let default_message = str_field_or(body, "message"@, "unknown error"@);
    if status == 401 {
        OdooErrorV::Auth(default_message)
    } else if status == 403 {
        OdooErrorV::AccessDenied(default_message)
    } else if status == 404 {
        OdooErrorV::NotFound(default_message)
    } else if status == 422 {
        OdooErrorV::Validation(default_message)
    } else if status == 500 {
        OdooErrorV::OdooApi {
            name: str_field_or(body, "name"@, "odoo.exceptions.ServerError"@),
            message: str_field_or(body, "message"@, "Internal Server Error"@),
        }
    } else {
        OdooErrorV::OdooApi { name: "HTTP "@ + decimal(status as nat), message: default_message }
    }
}

/// The human-readable text of an error.
pub open spec fn error_message(e: OdooErrorV) -> Seq<char> {
    match e {
        OdooErrorV::Auth(m) => "Authentication failed: "@ + m,
        OdooErrorV::AccessDenied(m) => "Access denied: "@ + m,
        OdooErrorV::NotFound(m) => "Not found: "@ + m,
        OdooErrorV::Validation(m) => "Validation error: "@ + m,
        OdooErrorV::OdooApi { name, message } => "Odoo API error ("@ + name + "): "@ + message,
        OdooErrorV::Http(m) => "HTTP error: "@ + m,
        OdooErrorV::ReadOnly => "Read-only mode: write operations are blocked"@,
    }
}

/// The detail that an error carries: its message (for `OdooApi`, the message beside the
/// name).
pub open spec fn error_detail(e: OdooErrorV) -> Seq<char> {
    match e {
        OdooErrorV::Auth(m) => m,
        OdooErrorV::AccessDenied(m) => m,
        OdooErrorV::NotFound(m) => m,
        OdooErrorV::Validation(m) => m,
        OdooErrorV::OdooApi { message, .. } => message,
        OdooErrorV::Http(m) => m,
        OdooErrorV::ReadOnly => Seq::empty(),
    }
}

/// How an Odoo error reply is read: 401 is an authentication failure, 403 a denied access,
/// 404 a missing record, 422 a validation error, and any other status an Odoo API error
/// (named by the body's `name` for 500, by `HTTP <status>` otherwise). The body's `message`
/// string, when there is one, is the error's detail; without one the detail is
/// `Internal Server Error` for 500 and `unknown error` otherwise.
pub proof fn lemma_status_errors(status: u16, body: JsonV, msg: Seq<char>, name: Seq<char>)
    ensures
        status == 401 ==> http_status_error(status, body) is Auth,
        status == 403 ==> http_status_error(status, body) is AccessDenied,
        status == 404 ==> http_status_error(status, body) is NotFound,
        status == 422 ==> http_status_error(status, body) is Validation,
        status != 401 && status != 403 && status != 404 && status != 422 ==> http_status_error(
            status,
            body,
        ) is OdooApi,
        body.get("message"@) == Some(JsonV::Str(msg)) ==> error_detail(
            http_status_error(status, body),
        ) == msg,
        !(body.get("message"@) matches Some(JsonV::Str(_))) ==> error_detail(
            http_status_error(status, body),
        ) == (if status == 500 {
            "Internal Server Error"@
        } else {
            "unknown error"@
        }),
        status == 500 && body.get("name"@) == Some(JsonV::Str(name)) ==> http_status_error(
            status,
            body,
        )->name == name,
        status == 500 && !(body.get("name"@) matches Some(JsonV::Str(_))) ==> http_status_error(
            status,
            body,
        )->name == "odoo.exceptions.ServerError"@,
        status != 401 && status != 403 && status != 404 && status != 422 && status != 500
            ==> http_status_error(status, body)->name == "HTTP "@ + decimal(status as nat),
{
}

/// The text of an error ends with its detail (for `OdooApi`, after its name), so nothing the
/// server said is lost; the read-only refusal reads `Read-only mode: write operations are
/// blocked`.
pub proof fn lemma_error_text(e: OdooErrorV)
    ensures
        !(e is ReadOnly) ==> error_detail(e).is_suffix_of(error_message(e)),
        e matches OdooErrorV::OdooApi { name, message } ==> error_message(e).subrange(
            "Odoo API error ("@.len() as int,
            ("Odoo API error ("@.len() + name.len()) as int,
        ) == name,
        e is ReadOnly ==> error_message(e) == "Read-only mode: write operations are blocked"@,
{
    let m = error_message(e);
    let d = error_detail(e);
    if !(e is ReadOnly) {
        assert(m.subrange(m.len() - d.len(), m.len() as int) =~= d);
    }
    if let OdooErrorV::OdooApi { name, message } = e {
        assert(m.subrange(
            "Odoo API error ("@.len() as int,
            ("Odoo API error ("@.len() + name.len()) as int,
        ) =~= name);
    }
}

/// The string under `key` in `body`, or `default`.
fn str_field_or_default(body: &Json, key: &str, default: &str) -> (r: String)
    ensures
        r@ == str_field_or(body@, key@, default@),
{
    match body.get(key) {
        Some(v) => match v.as_str() {
            Some(s) => s.clone(),
            None => String::from_str(default),
        },
        None => String::from_str(default),
    }
}

impl OdooError {
    /// The error for an Odoo reply with a status other than 200.
    pub fn from_http_status(status: u16, body: &Json) -> (r: OdooError)
        ensures
            r@ == http_status_error(status, body@),
    {
        let default_message = str_field_or_default(body, "message", "unknown error");
        if status == 401 {
            OdooError::Auth(default_message)
        } else if status == 403 {
            OdooError::AccessDenied(default_message)
        } else if status == 404 {
            OdooError::NotFound(default_message)
        } else if status == 422 {
            OdooError::Validation(default_message)
        } else if status == 500 {
            let name = str_field_or_default(body, "name", "odoo.exceptions.ServerError");
            let message = str_field_or_default(body, "message", "Internal Server Error");
            OdooError::OdooApi { name, message }
        } else {
            let digits = decimal_string(status as u64);
            let name = concat_str("HTTP ", digits.as_str());
            OdooError::OdooApi { name, message: default_message }
        }
    }

    /// The human-readable text of the error.
    pub fn message(&self) -> (r: String)
        ensures
            r@ == error_message(self@),
    {
        match self {
            OdooError::Auth(m) => concat_str("Authentication failed: ", m.as_str()),
            OdooError::AccessDenied(m) => concat_str("Access denied: ", m.as_str()),
            OdooError::NotFound(m) => concat_str("Not found: ", m.as_str()),
            OdooError::Validation(m) => concat_str("Validation error: ", m.as_str()),
            OdooError::OdooApi { name, message } => {
                let head = concat_str("Odoo API error (", name.as_str());
                let head = concat_str(head.as_str(), "): ");
                concat_str(head.as_str(), message.as_str())
            },
            OdooError::Http(m) => concat_str("HTTP error: ", m.as_str()),
            OdooError::ReadOnly => String::from_str("Read-only mode: write operations are blocked"),
        }
    }
}

} // verus!
