//! The client handle, the runtime that drives it, and how failures of either
//! become a status and a last-error message.
use vstd::prelude::*;
use vstd::string::to_string_from_display_ensures;
use guerrillamail_client::Client;
use crate::status::{gm_status_t, ErrorKind, spec_status_for_kind, status_for_kind};
use crate::last_error::{LastError, c_text, set_last_error};
pub use crate::outside::ConfiguredRuntime;
use crate::outside::{runtime_builder_multi_thread, runtime_enable_all, runtime_build};

verus! {

/// The handle a C caller holds for a connected client: the client session and
/// the runtime its blocking calls run on.
pub struct gm_client_t {
    pub runtime: ConfiguredRuntime,
    pub client: Client,
}

/// How a Tokio runtime is configured: which scheduler, and whether every
/// driver the build provides (I/O and time) is on.
pub struct RuntimeConfig {
    pub multi_thread: bool,
    pub all_drivers_enabled: bool,
}

/// The configuration a client's runtime is given: the multi-threaded
/// scheduler with every driver on, so network calls and timeouts work.
pub open spec fn client_runtime_config() -> RuntimeConfig {
    RuntimeConfig { multi_thread: true, all_drivers_enabled: true }
}

/// A failure reported by the client crate: which kind of error it was (one
/// per variant of the crate's error type) and its display text.
pub struct ClientError {
    pub kind: ErrorKind,
    pub message: String,
}

/// Records a client error and gives the status for its kind; the message is
/// the error's display text.
pub fn status_from_error(errors: &mut LastError, kind: ErrorKind, text: &str) -> (s: gm_status_t)
    ensures
        s == spec_status_for_kind(kind),
        s != gm_status_t::GM_OK,
        final(errors)@ == Some(c_text(text@)),
{
    let status = status_for_kind(kind);
    set_last_error(errors, text);
    status
}

/// True when, after a step that may fail with a client error, the result
/// and the slot are as that error dictates: a success is passed through with
/// the slot untouched; a failure gives its kind's status and its text.
pub open spec fn client_outcome<T, U>(
    result: Result<T, ClientError>,
    r: Result<U, gm_status_t>,
    before: Option<Seq<u8>>,
    after: Option<Seq<u8>>,
) -> bool {
    match result {
        Ok(_) => r is Ok && after == before,
        Err(e) => r == Err::<U, gm_status_t>(spec_status_for_kind(e.kind))
            && after == Some(c_text(e.message@)),
    }
}

/// Passes a successful client result through; a failed one is recorded and
/// turned into its status.
pub fn outcome<T>(errors: &mut LastError, result: Result<T, ClientError>) -> (r: Result<T, gm_status_t>)
    ensures
        client_outcome(result, r, old(errors)@, final(errors)@),
        result matches Ok(v) ==> r == Ok::<T, gm_status_t>(v),
{
    match result {
        Ok(v) => Ok(v),
        Err(e) => Err(status_from_error(errors, e.kind, e.message.as_str())),
    }
}

/// The message prefix used when no runtime can be created.
pub open spec fn runtime_failure_prefix() -> Seq<char> {
    "failed to create Tokio runtime: "@
}

/// True when `errors` holds the runtime-failure prefix followed by the
/// display text of `error`, NUL-terminated.
pub open spec fn records_runtime_error(error: std::io::Error, errors: Option<Seq<u8>>) -> bool {
    exists|text: String|
        to_string_from_display_ensures::<std::io::Error>(&error, text)
            && errors == Some(c_text(runtime_failure_prefix() + text@))
}

/// What becomes of Tokio's attempt to build a runtime: the runtime, or the
/// failure recorded as the prefix followed by the error's display text, with
/// `GM_ERR_INTERNAL`.
pub fn runtime_outcome(errors: &mut LastError, built: Result<ConfiguredRuntime, std::io::Error>)
    -> (r: Result<ConfiguredRuntime, gm_status_t>)
    ensures
        match built {
            Ok(rt) => r == Ok::<ConfiguredRuntime, gm_status_t>(rt) && final(errors)@ == old(errors)@,
            Err(e) => r == Err::<ConfiguredRuntime, gm_status_t>(gm_status_t::GM_ERR_INTERNAL)
                && records_runtime_error(e, final(errors)@),
        },
{
    match built {
        Ok(runtime) => Ok(runtime),
        Err(e) => {
            let mut message = String::from_str("failed to create Tokio runtime: ");
            let text = e.to_string();
            message.append(text.as_str());
            set_last_error(errors, message.as_str());
            Err(gm_status_t::GM_ERR_INTERNAL)
        },
    }
}

/// A client's runtime uses the multi-threaded scheduler with every driver on,
/// so the client's network requests and timeouts can run on it.
pub proof fn client_runtime_runs_io_and_timers()
    ensures
        client_runtime_config().multi_thread,
        client_runtime_config().all_drivers_enabled,
{
}

/// Creates the multi-threaded runtime, with every driver enabled, that drives
/// a client; on failure Tokio's error is recorded after the prefix and
/// `GM_ERR_INTERNAL` is returned. Whether the operating system grants the
/// runtime is not known in advance.
pub fn runtime_new(errors: &mut LastError) -> (r: Result<ConfiguredRuntime, gm_status_t>)
    ensures
        r matches Ok(rt) ==> rt@ == client_runtime_config() && final(errors)@ == old(errors)@,
        r matches Ok(rt) ==> rt@.multi_thread && rt@.all_drivers_enabled,
        r is Err ==> r == Err::<ConfiguredRuntime, gm_status_t>(gm_status_t::GM_ERR_INTERNAL)
            && exists|e: std::io::Error| records_runtime_error(e, final(errors)@),
{
    let mut builder = runtime_builder_multi_thread();
    runtime_enable_all(&mut builder);
    let built = runtime_build(&mut builder);
    let r = runtime_outcome(errors, built);
    proof {
        if r is Err {
            let e = built->Err_0;
            assert(records_runtime_error(e, errors@));
        }
    }
    r
}

/// Pairs a freshly built client with its runtime; a failed build is recorded
/// and turned into its status (the runtime is then dropped).
pub fn build_client_handle(errors: &mut LastError, runtime: ConfiguredRuntime, built: Result<Client, ClientError>)
    -> (r: Result<gm_client_t, gm_status_t>)
    ensures
        client_outcome(built, r, old(errors)@, final(errors)@),
        built matches Ok(c) ==> r matches Ok(h) && h.client == c && h.runtime == runtime,
{
    let client = outcome(errors, built)?;
    Ok(gm_client_t { runtime, client })
}

} // verus!
