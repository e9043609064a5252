use vstd::prelude::*;

verus! {

broadcast use vstd::string::group_string_axioms;

// ---------------------------------------------------------------------------
// Documents fetched from the network
// ---------------------------------------------------------------------------
/// The message serde_json gives for `text` where it is not a JSON document.
pub uninterp spec fn json_error_of(text: Seq<char>) -> Option<Seq<char>>;

/// Whether serde_json reads `text` as a JSON document: it gives no error message.
pub open spec fn is_json_text(text: Seq<char>) -> bool {
    json_error_of(text) is None
}

/// `serde_json::from_str::<serde_json::Value>` of serde_json, asked for the message of its
/// error (as `Display` shows it), where there is one. Its grammar (RFC 8259, with
/// serde_json's nesting limit) and its messages are not written out here: the answer is
/// named `json_error_of`.
#[verifier::external_body]
pub(crate) fn json_error_message(text: &str) -> (r: Option<String>)
    ensures
        match r {
            Some(m) => json_error_of(text@) == Some(m@),
            None => json_error_of(text@) is None,
        },
{
    match serde_json::from_str::<serde_json::Value>(text) {
        Ok(_) => None,
        Err(e) => Some(e.to_string()),
    }
}

/// Whether serde_json reads `text` as a JSON document (see `is_json_text`).
pub fn parses_as_json(text: &str) -> (r: bool)
    ensures
        r == is_json_text(text@),
{
    json_error_message(text).is_none()
}

// ---------------------------------------------------------------------------
// HTTP status codes
// ---------------------------------------------------------------------------
/// The reason phrase the http crate gives a status code, where it knows one.
pub uninterp spec fn canonical_reason_of(code: u16) -> Option<Seq<char>>;

/// `StatusCode::canonical_reason` of the http crate (reached through reqwest): the
/// standard reason phrase of a status code, such as `Not Found` for 404. The table is not
/// written out here: the answer is named `canonical_reason_of`.
#[verifier::external_body]
fn canonical_reason(code: u16) -> (r: Option<&'static str>)
    requires
        100 <= code <= 999,
    ensures
        match r {
            Some(s) => canonical_reason_of(code) == Some(s@),
            None => canonical_reason_of(code) is None,
        },
{
    match reqwest::StatusCode::from_u16(code) {
        Ok(status) => status.canonical_reason(),
        Err(_) => None,
    }
}

/// How the http crate shows a status code: the code, a space, and its reason phrase (or
/// `<unknown status code>`).
pub open spec fn status_text(code: u16) -> Seq<char> {
    crate::text::decimal(code as nat) + " "@ + match canonical_reason_of(code) {
        Some(r) => r,
        None => "<unknown status code>"@,
    }
}

/// Whether a status code reports success (200 to 299).
pub open spec fn is_success_status(code: u16) -> bool {
    200 <= code <= 299
}

/// Whether a response's status code reports success (see `is_success_status`).
pub fn is_success_status_code(status: u16) -> (r: bool)
    ensures
        r == is_success_status(status),
{
    200 <= status && status <= 299
}

/// How the http crate shows a status code (see `status_text`).
pub fn status_display(status: u16) -> (r: String)
    requires
        100 <= status <= 999,
    ensures
        r@ == status_text(status),
{
    let mut r = crate::text::decimal_string(status as u64);
    r.append(" ");
    match canonical_reason(status) {
        Some(reason) => r.append(reason),
        None => r.append("<unknown status code>"),
    }
    proof {
        assert(r@ =~= status_text(status));
    }
    r
}

} // verus!
