//! What each C entry point decides: which argument is checked first, which
//! status and message a missing or malformed argument yields, and what a
//! successful call leaves behind. Every entry point starts by clearing the
//! last-error slot, so after it returns the slot is set exactly when the
//! status is a failure.
use vstd::prelude::*;
use vstd::utf8::{valid_utf8, decode_utf8};
use crate::status::gm_status_t;
use crate::last_error::{LastError, c_text, clear_last_error, set_last_error, null_error, invalid_arg};
use crate::builder::{BuilderState, gm_builder_t, is_default_state, state_wf, settings_for};
use crate::builder::ConfiguredClientBuilder;
use crate::client::ConfiguredRuntime;
use crate::client::{gm_client_t, runtime_new, outcome, ClientError, client_outcome,
    records_runtime_error, client_runtime_config};
use crate::values::{
    gm_string_t, gm_message_list_t, gm_email_details_t, Message, EmailDetails, into_gm_string,
    into_gm_message_list, into_gm_email_details, details_match,
};
use crate::outside::utf8_to_string;

verus! {

/// A failure an entry point reports: its status and the text it records.
pub type Failure = (gm_status_t, Seq<char>);

/// The bytes behind an optional C string, as a sequence.
pub open spec fn opt_bytes(v: Option<&[u8]>) -> Option<Seq<u8>> {
    match v {
        Some(b) => Some(b@),
        None => None,
    }
}

/// The failure for a required C string argument named `name`: missing, or
/// present but not UTF-8.
pub open spec fn text_failure(value: Option<Seq<u8>>, name: Seq<char>) -> Option<Failure> {
    match value {
        None => Some((gm_status_t::GM_ERR_NULL, name + " is null"@)),
        Some(b) => if valid_utf8(b) {
            None
        } else {
            Some((gm_status_t::GM_ERR_INVALID_ARGUMENT, name + " is not valid UTF-8"@))
        },
    }
}

/// The failure a status stands for, if it is one.
pub open spec fn status_failure(s: gm_status_t) -> Option<gm_status_t> {
    if s == gm_status_t::GM_OK {
        None
    } else {
        Some(s)
    }
}

/// The failure status of a result, if it failed.
pub open spec fn result_failure<T>(r: Result<T, gm_status_t>) -> Option<gm_status_t> {
    match r {
        Ok(_) => None,
        Err(s) => Some(s),
    }
}

/// True when the observed outcome (`failed`, and the slot `errors`) is the
/// one `expected` describes: the expected failure's status and text, or no
/// failure and an empty slot.
pub open spec fn reports(expected: Option<Failure>, failed: Option<gm_status_t>, errors: Option<Seq<u8>>) -> bool {
    match expected {
        Some(f) => failed == Some(f.0) && errors == Some(c_text(f.1)),
        None => failed is None && errors is None,
    }
}

/// After an entry point's checks: on success the slot is empty, on failure
/// the status is a failure and the slot holds a message.
pub open spec fn failure_visible<T>(r: Result<T, gm_status_t>, errors: Option<Seq<u8>>) -> bool {
    match r {
        Ok(_) => errors is None,
        Err(s) => s != gm_status_t::GM_OK && errors is Some,
    }
}

/// Decodes a required C string argument; a missing or malformed one is
/// recorded as `"<name> is null"` or `"<name> is not valid UTF-8"`.
pub fn read_required_str(errors: &mut LastError, value: Option<&[u8]>, name: &str)
    -> (r: Result<String, gm_status_t>)
    ensures
        match text_failure(opt_bytes(value), name@) {
            Some(f) => r == Err::<String, gm_status_t>(f.0) && final(errors)@ == Some(c_text(f.1)),
            None => r matches Ok(t) && t@ == decode_utf8(opt_bytes(value)->0)
                && final(errors)@ == old(errors)@,
        },
{
    match value {
        None => {
            let mut message = String::from_str(name);
            message.append(" is null");
            Err(null_error(errors, message.as_str()))
        },
        Some(bytes) => match utf8_to_string(bytes) {
            Some(text) => Ok(text),
            None => {
                let mut message = String::from_str(name);
                message.append(" is not valid UTF-8");
                Err(invalid_arg(errors, message.as_str()))
            },
        },
    }
}

/// Records `message` as a missing-argument failure unless `present`.
pub fn require_present(errors: &mut LastError, present: bool, message: &str)
    -> (r: Result<(), gm_status_t>)
    ensures
        present ==> r is Ok && final(errors)@ == old(errors)@,
        !present ==> r == Err::<(), gm_status_t>(gm_status_t::GM_ERR_NULL)
            && final(errors)@ == Some(c_text(message@)),
{
    if present {
        Ok(())
    } else {
        Err(null_error(errors, message))
    }
}

/// Records the failure of a call that panicked.
pub fn report_panic(errors: &mut LastError) -> (s: gm_status_t)
    ensures
        s == gm_status_t::GM_ERR_INTERNAL,
        final(errors)@ == Some(c_text("panic while executing FFI function"@)),
{
    set_last_error(errors, "panic while executing FFI function");
    gm_status_t::GM_ERR_INTERNAL
}

/// The status of a finished call: `None` when it panicked (the panic is
/// recorded), else its result.
pub fn ffi_call_status(errors: &mut LastError, outcome: Option<Result<(), gm_status_t>>) -> (s: gm_status_t)
    ensures
        match outcome {
            Some(Ok(())) => s == gm_status_t::GM_OK && final(errors)@ == old(errors)@,
            Some(Err(e)) => s == e && final(errors)@ == old(errors)@,
            None => s == gm_status_t::GM_ERR_INTERNAL
                && final(errors)@ == Some(c_text("panic while executing FFI function"@)),
        },
{
    match outcome {
        Some(Ok(())) => gm_status_t::GM_OK,
        Some(Err(e)) => e,
        None => report_panic(errors),
    }
}

/// `gm_builder_new`: stores a builder with the default settings in the
/// caller's out-slot.
pub fn gm_builder_new(errors: &mut LastError, out_builder: Option<&mut Option<gm_builder_t>>)
    -> (s: gm_status_t)
    ensures
        out_builder is Some ==> s == gm_status_t::GM_OK && final(errors)@ is None,
        out_builder is None ==> s == gm_status_t::GM_ERR_NULL,
        reports(
            if out_builder is None { Some((gm_status_t::GM_ERR_NULL, "out_builder is null"@)) } else { None },
            status_failure(s),
            final(errors)@,
        ),
        s != gm_status_t::GM_OK <==> final(errors)@ is Some,
        out_builder matches Some(o) ==> *final(o) matches Some(b) && is_default_state(b.state)
            && state_wf(b.state),
{
    clear_last_error(errors);
    match out_builder {
        None => null_error(errors, "out_builder is null"),
        Some(o) => {
            *o = Some(gm_builder_t::default());
            gm_status_t::GM_OK
        },
    }
}

/// The failure of a builder setter whose builder may be missing and whose
/// value check is `value_failure`.
pub open spec fn setter_failure(has_builder: bool, value_failure: Option<Failure>) -> Option<Failure> {
    if !has_builder {
        Some((gm_status_t::GM_ERR_NULL, "builder is null"@))
    } else {
        value_failure
    }
}

/// The failure of setting a proxy: a missing proxy is allowed (it clears it).
pub open spec fn proxy_failure(proxy: Option<Seq<u8>>) -> Option<Failure> {
    match proxy {
        None => None,
        Some(b) => text_failure(Some(b), "proxy"@),
    }
}

/// The settings after storing `proxy` (already decoded).
pub open spec fn with_proxy(s: BuilderState, proxy: Option<String>) -> BuilderState {
    BuilderState { proxy: proxy, ..s }
}

/// `gm_builder_set_proxy`: sets the proxy URL, or clears it when the pointer
/// is null.
pub fn gm_builder_set_proxy(errors: &mut LastError, builder: Option<&mut gm_builder_t>, proxy: Option<&[u8]>)
    -> (s: gm_status_t)
    ensures
        builder is None ==> s == gm_status_t::GM_ERR_NULL,
        builder is Some && proxy is None ==> s == gm_status_t::GM_OK && final(errors)@ is None,
        builder is Some && proxy is Some && valid_utf8(proxy->0@) ==> s == gm_status_t::GM_OK
            && final(errors)@ is None,
        builder is Some && proxy is Some && !valid_utf8(proxy->0@) ==> s == gm_status_t::GM_ERR_INVALID_ARGUMENT,
        builder matches Some(b) ==> (proxy is None ==> final(b).state.proxy is None),
        reports(
            setter_failure(builder is Some, proxy_failure(opt_bytes(proxy))),
            status_failure(s),
            final(errors)@,
        ),
        s != gm_status_t::GM_OK <==> final(errors)@ is Some,
        builder matches Some(b) ==> (state_wf(b.state) ==> state_wf(final(b).state)),
        builder matches Some(b) ==> {
            if s == gm_status_t::GM_OK {
                match proxy {
                    None => final(b).state == with_proxy(b.state, None),
                    Some(p) => final(b).state.proxy matches Some(t) && t@ == decode_utf8(p@)
                        && final(b).state == with_proxy(b.state, final(b).state.proxy),
                }
            } else {
                final(b).state == b.state
            }
        },
{
    clear_last_error(errors);
    match builder {
        None => null_error(errors, "builder is null"),
        Some(b) => match proxy {
            None => {
                b.state.proxy = None;
                gm_status_t::GM_OK
            },
            Some(p) => match read_required_str(errors, Some(p), "proxy") {
                Ok(text) => {
                    b.state.proxy = Some(text);
                    gm_status_t::GM_OK
                },
                Err(e) => e,
            },
        },
    }
}

/// `gm_builder_set_danger_accept_invalid_certs`: sets the TLS leniency.
pub fn gm_builder_set_danger_accept_invalid_certs(
    errors: &mut LastError,
    builder: Option<&mut gm_builder_t>,
    value: bool,
) -> (s: gm_status_t)
    ensures
        builder is None ==> s == gm_status_t::GM_ERR_NULL,
        builder is Some ==> s == gm_status_t::GM_OK && final(errors)@ is None,
        builder matches Some(b) ==> final(b).state.danger_accept_invalid_certs == value,
        reports(setter_failure(builder is Some, None), status_failure(s), final(errors)@),
        s != gm_status_t::GM_OK <==> final(errors)@ is Some,
        builder matches Some(b) ==> (state_wf(b.state) ==> state_wf(final(b).state)),
        builder matches Some(b) ==> final(b).state
            == (BuilderState { danger_accept_invalid_certs: value, ..b.state }),
{
    clear_last_error(errors);
    match builder {
        None => null_error(errors, "builder is null"),
        Some(b) => {
            b.state.danger_accept_invalid_certs = value;
            gm_status_t::GM_OK
        },
    }
}

/// `gm_builder_set_user_agent`: sets the user agent; unlike the proxy, a null
/// value is refused.
pub fn gm_builder_set_user_agent(
    errors: &mut LastError,
    builder: Option<&mut gm_builder_t>,
    user_agent: Option<&[u8]>,
) -> (s: gm_status_t)
    ensures
        builder is None ==> s == gm_status_t::GM_ERR_NULL,
        builder is Some && user_agent is None ==> s == gm_status_t::GM_ERR_NULL,
        builder is Some && user_agent is Some && valid_utf8(user_agent->0@) ==> s == gm_status_t::GM_OK
            && final(errors)@ is None,
        builder is Some && user_agent is Some && !valid_utf8(user_agent->0@)
            ==> s == gm_status_t::GM_ERR_INVALID_ARGUMENT,
        reports(
            setter_failure(builder is Some, text_failure(opt_bytes(user_agent), "user_agent"@)),
            status_failure(s),
            final(errors)@,
        ),
        s != gm_status_t::GM_OK <==> final(errors)@ is Some,
        builder matches Some(b) ==> (state_wf(b.state) ==> state_wf(final(b).state)),
        builder matches Some(b) ==> {
            if s == gm_status_t::GM_OK {
                final(b).state.user_agent matches Some(t) && t@ == decode_utf8(user_agent->0@)
                    && final(b).state == (BuilderState { user_agent: final(b).state.user_agent, ..b.state })
            } else {
                final(b).state == b.state
            }
        },
{
    clear_last_error(errors);
    match builder {
        None => null_error(errors, "builder is null"),
        Some(b) => match read_required_str(errors, user_agent, "user_agent") {
            Ok(text) => {
                b.state.user_agent = Some(text);
                gm_status_t::GM_OK
            },
            Err(e) => e,
        },
    }
}

/// The failure of setting a timeout: zero is refused.
pub open spec fn timeout_failure(timeout_ms: u64) -> Option<Failure> {
    if timeout_ms == 0 {
        Some((gm_status_t::GM_ERR_INVALID_ARGUMENT, "timeout_ms must be greater than zero"@))
    } else {
        None
    }
}

/// `gm_builder_set_timeout_ms`: sets the request timeout; zero is refused and
/// leaves the builder as it was.
pub fn gm_builder_set_timeout_ms(errors: &mut LastError, builder: Option<&mut gm_builder_t>, timeout_ms: u64)
    -> (s: gm_status_t)
    ensures
        reports(setter_failure(builder is Some, timeout_failure(timeout_ms)), status_failure(s), final(errors)@),
        builder is Some && timeout_ms > 0 ==> s == gm_status_t::GM_OK && final(errors)@ is None,
        builder is Some && timeout_ms == 0 ==> s == gm_status_t::GM_ERR_INVALID_ARGUMENT,
        builder is None ==> s == gm_status_t::GM_ERR_NULL,
        s != gm_status_t::GM_OK <==> final(errors)@ is Some,
        builder matches Some(b) ==> (state_wf(b.state) ==> state_wf(final(b).state)),
        builder matches Some(b) ==> {
            if timeout_ms == 0 {
                final(b).state == b.state
            } else {
                final(b).state == (BuilderState { timeout_ms: timeout_ms, ..b.state })
            }
        },
{
    clear_last_error(errors);
    match builder {
        None => null_error(errors, "builder is null"),
        Some(b) => {
            if timeout_ms == 0 {
                return invalid_arg(errors, "timeout_ms must be greater than zero");
            }
            b.state.timeout_ms = timeout_ms;
            gm_status_t::GM_OK
        },
    }
}

/// The failure of `gm_builder_build` before any runtime or network work.
pub open spec fn builder_build_failure(has_out_client: bool, has_builder: bool) -> Option<Failure> {
    if !has_out_client {
        Some((gm_status_t::GM_ERR_NULL, "out_client is null"@))
    } else if !has_builder {
        Some((gm_status_t::GM_ERR_NULL, "builder is null"@))
    } else {
        None
    }
}

/// The argument checks of `gm_builder_build`: the out-slot first, then the
/// builder, whose settings are handed on.
pub fn check_builder_build<'a>(
    errors: &mut LastError,
    has_out_client: bool,
    builder: Option<&'a gm_builder_t>,
) -> (r: Result<&'a BuilderState, gm_status_t>)
    ensures
        failure_visible(r, final(errors)@),
        reports(builder_build_failure(has_out_client, builder is Some), result_failure(r), final(errors)@),
        r matches Ok(st) ==> *st == builder->0.state,
{
    clear_last_error(errors);
    require_present(errors, has_out_client, "out_client is null")?;
    match builder {
        None => Err(null_error(errors, "builder is null")),
        Some(b) => Ok(&b.state),
    }
}

/// The argument check of `gm_client_new_default`: with an out-slot, the
/// default settings are handed on.
pub fn check_client_new_default(errors: &mut LastError, has_out_client: bool)
    -> (r: Result<BuilderState, gm_status_t>)
    ensures
        failure_visible(r, final(errors)@),
        reports(
            if has_out_client { None } else { Some((gm_status_t::GM_ERR_NULL, "out_client is null"@)) },
            result_failure(r),
            final(errors)@,
        ),
        r matches Ok(st) ==> is_default_state(st) && state_wf(st),
{
    clear_last_error(errors);
    require_present(errors, has_out_client, "out_client is null")?;
    Ok(BuilderState::default())
}

/// Creates the runtime a new client will run on and a client-crate builder
/// set to `state`; a runtime failure is recorded. Whether the operating
/// system grants the runtime is not known in advance.
pub fn prepare_client_build(errors: &mut LastError, state: &BuilderState)
    -> (r: Result<(ConfiguredRuntime, ConfiguredClientBuilder), gm_status_t>)
    ensures
        r is Ok ==> final(errors)@ == old(errors)@,
        r matches Ok((rt, cb)) ==> rt@ == client_runtime_config() && cb@ == settings_for(*state),
        r matches Ok((rt, _)) ==> rt@.multi_thread && rt@.all_drivers_enabled,
        r is Err ==> r->Err_0 == gm_status_t::GM_ERR_INTERNAL
            && exists|e: std::io::Error| records_runtime_error(e, final(errors)@),
{
    let runtime = runtime_new(errors)?;
    Ok((runtime, state.to_client_builder()))
}

/// The failure of a client call before any network work: the out-slot named
/// in `out_message`, then the client, then the text argument `name`.
pub open spec fn client_call_failure(
    has_out: bool,
    out_message: Seq<char>,
    has_client: bool,
    value: Option<Seq<u8>>,
    name: Seq<char>,
) -> Option<Failure> {
    if !has_out {
        Some((gm_status_t::GM_ERR_NULL, out_message))
    } else if !has_client {
        Some((gm_status_t::GM_ERR_NULL, "client is null"@))
    } else {
        text_failure(value, name)
    }
}

/// The shared argument checks of the client calls that take one text
/// argument: out-slot, client, then the argument, which is decoded.
pub fn check_client_call<'a>(
    errors: &mut LastError,
    has_out: bool,
    out_message: &str,
    client: Option<&'a gm_client_t>,
    value: Option<&[u8]>,
    name: &str,
) -> (r: Result<(&'a gm_client_t, String), gm_status_t>)
    ensures
        failure_visible(r, final(errors)@),
        reports(
            client_call_failure(has_out, out_message@, client is Some, opt_bytes(value), name@),
            result_failure(r),
            final(errors)@,
        ),
        r matches Ok((c, t)) ==> *c == *client->0 && t@ == decode_utf8(value->0@),
{
    clear_last_error(errors);
    require_present(errors, has_out, out_message)?;
    let handle = match client {
        None => {
            return Err(null_error(errors, "client is null"));
        },
        Some(c) => c,
    };
    let text = read_required_str(errors, value, name)?;
    Ok((handle, text))
}

/// The argument checks of `gm_client_create_email`.
pub fn check_create_email<'a>(
    errors: &mut LastError,
    has_out_email: bool,
    client: Option<&'a gm_client_t>,
    alias: Option<&[u8]>,
) -> (r: Result<(&'a gm_client_t, String), gm_status_t>)
    ensures
        failure_visible(r, final(errors)@),
        reports(
            client_call_failure(has_out_email, "out_email is null"@, client is Some, opt_bytes(alias), "alias"@),
            result_failure(r),
            final(errors)@,
        ),
        r matches Ok((c, t)) ==> *c == *client->0 && t@ == decode_utf8(alias->0@),
{
    check_client_call(errors, has_out_email, "out_email is null", client, alias, "alias")
}

/// The outcome of `gm_client_create_email`: the new address as a C string,
/// or the client's error.
pub fn finish_create_email(errors: &mut LastError, result: Result<String, ClientError>)
    -> (r: Result<gm_string_t, gm_status_t>)
    ensures
        client_outcome(result, r, old(errors)@, final(errors)@),
        result matches Ok(address) ==> r matches Ok(g) && g.holds(address@),
{
    let address = outcome(errors, result)?;
    Ok(into_gm_string(address))
}

/// The argument checks of `gm_client_get_messages`.
pub fn check_get_messages<'a>(
    errors: &mut LastError,
    has_out_messages: bool,
    client: Option<&'a gm_client_t>,
    email: Option<&[u8]>,
) -> (r: Result<(&'a gm_client_t, String), gm_status_t>)
    ensures
        failure_visible(r, final(errors)@),
        reports(
            client_call_failure(has_out_messages, "out_messages is null"@, client is Some, opt_bytes(email), "email"@),
            result_failure(r),
            final(errors)@,
        ),
        r matches Ok((c, t)) ==> *c == *client->0 && t@ == decode_utf8(email->0@),
{
    check_client_call(errors, has_out_messages, "out_messages is null", client, email, "email")
}

/// The outcome of `gm_client_get_messages`: the inbox listing, in order, or
/// the client's error.
pub fn finish_get_messages(errors: &mut LastError, result: Result<Vec<Message>, ClientError>)
    -> (r: Result<gm_message_list_t, gm_status_t>)
    ensures
        client_outcome(result, r, old(errors)@, final(errors)@),
        result matches Ok(messages) ==> r matches Ok(l) && l.holds(messages@),
{
    let messages = outcome(errors, result)?;
    Ok(into_gm_message_list(messages))
}

/// The failure of `gm_client_fetch_email` before any network work.
pub open spec fn fetch_email_failure(
    has_out: bool,
    has_client: bool,
    email: Option<Seq<u8>>,
    mail_id: Option<Seq<u8>>,
) -> Option<Failure> {
    match client_call_failure(has_out, "out_details is null"@, has_client, email, "email"@) {
        Some(f) => Some(f),
        None => text_failure(mail_id, "mail_id"@),
    }
}

/// The argument checks of `gm_client_fetch_email`: out-slot, client, address,
/// then message id.
pub fn check_fetch_email<'a>(
    errors: &mut LastError,
    has_out_details: bool,
    client: Option<&'a gm_client_t>,
    email: Option<&[u8]>,
    mail_id: Option<&[u8]>,
) -> (r: Result<(&'a gm_client_t, String, String), gm_status_t>)
    ensures
        failure_visible(r, final(errors)@),
        reports(
            fetch_email_failure(has_out_details, client is Some, opt_bytes(email), opt_bytes(mail_id)),
            result_failure(r),
            final(errors)@,
        ),
        r matches Ok((c, e, m)) ==> *c == *client->0 && e@ == decode_utf8(email->0@)
            && m@ == decode_utf8(mail_id->0@),
{
    let (handle, address) = check_client_call(errors, has_out_details, "out_details is null", client, email, "email")?;
    let id = read_required_str(errors, mail_id, "mail_id")?;
    Ok((handle, address, id))
}

/// The outcome of `gm_client_fetch_email`: the details in C strings, or the
/// client's error.
pub fn finish_fetch_email(errors: &mut LastError, result: Result<EmailDetails, ClientError>)
    -> (r: Result<gm_email_details_t, gm_status_t>)
    ensures
        client_outcome(result, r, old(errors)@, final(errors)@),
        result matches Ok(d) ==> r matches Ok(g) && details_match(g, d),
{
    let details = outcome(errors, result)?;
    Ok(into_gm_email_details(details))
}

/// The argument checks of `gm_client_delete_email`.
pub fn check_delete_email<'a>(
    errors: &mut LastError,
    has_out_deleted: bool,
    client: Option<&'a gm_client_t>,
    email: Option<&[u8]>,
) -> (r: Result<(&'a gm_client_t, String), gm_status_t>)
    ensures
        failure_visible(r, final(errors)@),
        reports(
            client_call_failure(has_out_deleted, "out_deleted is null"@, client is Some, opt_bytes(email), "email"@),
            result_failure(r),
            final(errors)@,
        ),
        r matches Ok((c, t)) ==> *c == *client->0 && t@ == decode_utf8(email->0@),
{
    check_client_call(errors, has_out_deleted, "out_deleted is null", client, email, "email")
}

/// The outcome of `gm_client_delete_email`: the service accepted the request
/// (reported as `true`), or the client's error.
pub fn finish_delete_email(errors: &mut LastError, result: Result<(), ClientError>)
    -> (r: Result<bool, gm_status_t>)
    ensures
        client_outcome(result, r, old(errors)@, final(errors)@),
        result is Ok ==> r == Ok::<bool, gm_status_t>(true),
{
    outcome(errors, result)?;
    Ok(true)
}

/// `gm_last_error_message`: the NUL-terminated text of the most recent
/// failure on this slot, or nothing when the last call succeeded or the slot
/// was cleared.
pub fn gm_last_error_message(errors: &LastError) -> (m: Option<&Vec<u8>>)
    ensures
        m is None <==> errors@ is None,
        m matches Some(v) ==> errors@ == Some(v@),
{
    errors.message_bytes()
}

/// `gm_last_error_clear`: forgets the recorded failure.
pub fn gm_last_error_clear(errors: &mut LastError)
    ensures
        final(errors)@ is None,
{
    clear_last_error(errors);
}

/// True when an expected failure, if any, has a failure status.
pub open spec fn is_failure(f: Option<Failure>) -> bool {
    f matches Some(x) ==> x.0 != gm_status_t::GM_OK
}

/// Every check an entry point makes fails, when it fails, with a status other
/// than `GM_OK`.
pub proof fn entry_checks_fail_with_failures(
    has_out: bool,
    out_message: Seq<char>,
    has_client: bool,
    has_builder: bool,
    value: Option<Seq<u8>>,
    name: Seq<char>,
    mail_id: Option<Seq<u8>>,
    timeout_ms: u64,
)
    ensures
        is_failure(text_failure(value, name)),
        is_failure(setter_failure(has_builder, None)),
        is_failure(setter_failure(has_builder, proxy_failure(value))),
        is_failure(setter_failure(has_builder, text_failure(value, name))),
        is_failure(setter_failure(has_builder, timeout_failure(timeout_ms))),
        is_failure(builder_build_failure(has_out, has_builder)),
        is_failure(client_call_failure(has_out, out_message, has_client, value, name)),
        is_failure(fetch_email_failure(has_out, has_client, value, mail_id)),
{
}

/// After an entry point, the last-error slot is empty exactly when the
/// status is `GM_OK`: whatever the slot held before, a successful call leaves
/// no stale error, and a failed one always leaves a message.
pub proof fn slot_empty_exactly_when_ok(
    expected: Option<Failure>,
    failed: Option<gm_status_t>,
    errors: Option<Seq<u8>>,
)
    requires
        reports(expected, failed, errors),
        is_failure(expected),
    ensures
        failed is None <==> errors is None,
        failed != Some(gm_status_t::GM_OK),
{
}

/// The same across a client call: when the argument checks pass (leaving the
/// slot empty) and the client step follows, the slot is empty exactly when
/// the call succeeds.
pub proof fn client_call_slot_empty_exactly_when_ok<T, U, V>(
    checked: Result<T, gm_status_t>,
    after_check: Option<Seq<u8>>,
    result: Result<U, ClientError>,
    finished: Result<V, gm_status_t>,
    after_finish: Option<Seq<u8>>,
)
    requires
        failure_visible(checked, after_check),
        checked is Ok,
        client_outcome(result, finished, after_check, after_finish),
    ensures
        failure_visible(finished, after_finish),
{
}

/// The status of an expected failure, if any.
pub open spec fn failure_status(f: Option<Failure>) -> Option<gm_status_t> {
    match f {
        Some(x) => Some(x.0),
        None => None,
    }
}

/// A timeout is refused exactly when it is zero: every positive timeout is
/// accepted, and zero is refused as an invalid argument.
pub proof fn timeout_refused_exactly_when_zero(timeout_ms: u64)
    ensures
        timeout_failure(timeout_ms) is None <==> timeout_ms > 0,
        timeout_ms == 0 ==> failure_status(timeout_failure(timeout_ms)) == Some(gm_status_t::GM_ERR_INVALID_ARGUMENT),
        setter_failure(true, timeout_failure(timeout_ms)) is None <==> timeout_ms > 0,
{
}

/// A required text argument is accepted exactly when it is present and
/// well-formed UTF-8; a missing one is a null error, a malformed one an
/// invalid argument.
pub proof fn text_accepted_exactly_when_utf8(value: Option<Seq<u8>>, name: Seq<char>)
    ensures
        text_failure(value, name) is None <==> (value is Some && valid_utf8(value->0)),
        value is None ==> failure_status(text_failure(value, name)) == Some(gm_status_t::GM_ERR_NULL),
        value is Some && !valid_utf8(value->0)
            ==> failure_status(text_failure(value, name)) == Some(gm_status_t::GM_ERR_INVALID_ARGUMENT),
{
}

/// A client call's checks pass exactly when the out-slot and client are
/// present and the text argument is well-formed UTF-8.
pub proof fn client_call_accepted_exactly_when_complete(
    has_out: bool,
    out_message: Seq<char>,
    has_client: bool,
    value: Option<Seq<u8>>,
    name: Seq<char>,
)
    ensures
        client_call_failure(has_out, out_message, has_client, value, name) is None
            <==> (has_out && has_client && value is Some && valid_utf8(value->0)),
{
}

/// A builder setter's checks: a missing builder is always a null error, and
/// with a builder present only the value's own check decides.
pub proof fn setter_checks_builder_first(has_builder: bool, value_failure: Option<Failure>)
    ensures
        !has_builder ==> setter_failure(has_builder, value_failure)
            == Some((gm_status_t::GM_ERR_NULL, "builder is null"@)),
        has_builder ==> setter_failure(has_builder, value_failure) == value_failure,
{
}

/// `gm_builder_build`'s checks pass exactly when both the out-slot and the
/// builder are present, and `gm_client_fetch_email`'s exactly when out-slot
/// and client are present and both texts are well-formed UTF-8.
pub proof fn build_and_fetch_accepted_exactly_when_complete(
    has_out: bool,
    has_builder: bool,
    has_client: bool,
    email: Option<Seq<u8>>,
    mail_id: Option<Seq<u8>>,
)
    ensures
        builder_build_failure(has_out, has_builder) is None <==> (has_out && has_builder),
        fetch_email_failure(has_out, has_client, email, mail_id) is None <==> (has_out && has_client
            && email is Some && valid_utf8(email->0) && mail_id is Some && valid_utf8(mail_id->0)),
{
}

} // verus!
