//! Status codes returned by every entry point, and how errors of the
//! GuerrillaMail client map onto them.
use vstd::prelude::*;

verus! {

/// Outcome of an entry point. `GM_OK` is success; every other value is a
/// failure whose description is left in the last-error slot.
#[derive(Clone, Copy, Debug, PartialEq, Eq, Structural)]
pub enum gm_status_t {
    GM_OK,
    GM_ERR_NULL,
    GM_ERR_INVALID_ARGUMENT,
    GM_ERR_REQUEST,
    GM_ERR_RESPONSE_PARSE,
    GM_ERR_TOKEN_PARSE,
    GM_ERR_JSON,
    GM_ERR_INTERNAL,
}

/// The numeric value a C caller sees for each status.
pub open spec fn status_code(s: gm_status_t) -> u32 {
    match s {
        gm_status_t::GM_OK => 0,
        gm_status_t::GM_ERR_NULL => 1,
        gm_status_t::GM_ERR_INVALID_ARGUMENT => 2,
        gm_status_t::GM_ERR_REQUEST => 3,
        gm_status_t::GM_ERR_RESPONSE_PARSE => 4,
        gm_status_t::GM_ERR_TOKEN_PARSE => 5,
        gm_status_t::GM_ERR_JSON => 6,
        gm_status_t::GM_ERR_INTERNAL => 7,
    }
}

impl gm_status_t {
    /// The C ABI value of this status.
    pub fn code(&self) -> (c: u32)
        ensures
            c == status_code(*self),
    {
        match self {
            gm_status_t::GM_OK => 0,
            gm_status_t::GM_ERR_NULL => 1,
            gm_status_t::GM_ERR_INVALID_ARGUMENT => 2,
            gm_status_t::GM_ERR_REQUEST => 3,
            gm_status_t::GM_ERR_RESPONSE_PARSE => 4,
            gm_status_t::GM_ERR_TOKEN_PARSE => 5,
            gm_status_t::GM_ERR_JSON => 6,
            gm_status_t::GM_ERR_INTERNAL => 7,
        }
    }

    /// The status whose C ABI value is `code`, if there is one.
    pub fn from_code(code: u32) -> (s: Option<gm_status_t>)
        ensures
            code <= 7 <==> s is Some,
            s matches Some(t) ==> status_code(t) == code,
    {
        match code {
            0 => Some(gm_status_t::GM_OK),
            1 => Some(gm_status_t::GM_ERR_NULL),
            2 => Some(gm_status_t::GM_ERR_INVALID_ARGUMENT),
            3 => Some(gm_status_t::GM_ERR_REQUEST),
            4 => Some(gm_status_t::GM_ERR_RESPONSE_PARSE),
            5 => Some(gm_status_t::GM_ERR_TOKEN_PARSE),
            6 => Some(gm_status_t::GM_ERR_JSON),
            7 => Some(gm_status_t::GM_ERR_INTERNAL),
            _ => None,
        }
    }
}

/// Distinct codes for distinct statuses: a C caller can tell every outcome apart.
pub proof fn status_codes_distinct(a: gm_status_t, b: gm_status_t)
    ensures
        status_code(a) == status_code(b) <==> a == b,
{
}

/// The kinds of error the GuerrillaMail client reports, one per variant of
/// its error type.
#[derive(Clone, Copy, Debug, PartialEq, Eq, Structural)]
pub enum ErrorKind {
    Request,
    ResponseParse,
    TokenParse,
    HeaderValue,
    InvalidUrl,
    Clock,
}

/// The status reported for each kind of client error.
pub open spec fn spec_status_for_kind(kind: ErrorKind) -> gm_status_t {
    match kind {
        ErrorKind::Request => gm_status_t::GM_ERR_REQUEST,
        ErrorKind::ResponseParse => gm_status_t::GM_ERR_RESPONSE_PARSE,
        ErrorKind::TokenParse => gm_status_t::GM_ERR_TOKEN_PARSE,
        ErrorKind::HeaderValue => gm_status_t::GM_ERR_INTERNAL,
        ErrorKind::InvalidUrl => gm_status_t::GM_ERR_INTERNAL,
        ErrorKind::Clock => gm_status_t::GM_ERR_INTERNAL,
    }
}

/// Maps a kind of client error to the status an entry point returns for it.
pub fn status_for_kind(kind: ErrorKind) -> (s: gm_status_t)
    ensures
        s == spec_status_for_kind(kind),
        s != gm_status_t::GM_OK,
{
    match kind {
        ErrorKind::Request => gm_status_t::GM_ERR_REQUEST,
        ErrorKind::ResponseParse => gm_status_t::GM_ERR_RESPONSE_PARSE,
        ErrorKind::TokenParse => gm_status_t::GM_ERR_TOKEN_PARSE,
        ErrorKind::HeaderValue => gm_status_t::GM_ERR_INTERNAL,
        ErrorKind::InvalidUrl => gm_status_t::GM_ERR_INTERNAL,
        ErrorKind::Clock => gm_status_t::GM_ERR_INTERNAL,
    }
}

/// Each kind of client error has its own status, except that the three kinds
/// the C interface has no code for (header values, URLs, the clock) all
/// report an internal error; none reports success or an argument error.
pub proof fn error_kinds_map_to_their_statuses(k: ErrorKind)
    ensures
        spec_status_for_kind(k) == gm_status_t::GM_ERR_REQUEST <==> k == ErrorKind::Request,
        spec_status_for_kind(k) == gm_status_t::GM_ERR_RESPONSE_PARSE <==> k == ErrorKind::ResponseParse,
        spec_status_for_kind(k) == gm_status_t::GM_ERR_TOKEN_PARSE <==> k == ErrorKind::TokenParse,
        spec_status_for_kind(k) == gm_status_t::GM_ERR_INTERNAL <==> (k == ErrorKind::HeaderValue
            || k == ErrorKind::InvalidUrl || k == ErrorKind::Clock),
        spec_status_for_kind(k) != gm_status_t::GM_OK,
        spec_status_for_kind(k) != gm_status_t::GM_ERR_NULL,
        spec_status_for_kind(k) != gm_status_t::GM_ERR_INVALID_ARGUMENT,
{
}

} // verus!
