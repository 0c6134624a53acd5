//! The items of the GuerrillaMail client crate and of Tokio that the library
//! calls, with what it takes on trust about each.
use vstd::prelude::*;
use guerrillamail_client::{Client, ClientBuilder};
use tokio::runtime::Runtime;
use vstd::utf8::{valid_utf8, decode_utf8};
use crate::builder::{ClientBuilderSettings, crate_default_settings};
use crate::client::RuntimeConfig;

verus! {

/// The client crate's configuration builder; opaque here.
#[verifier::external_type_specification]
#[verifier::external_body]
pub struct ExClientBuilder(ClientBuilder);

/// A connected client session; opaque here.
#[verifier::external_type_specification]
#[verifier::external_body]
pub struct ExClient(Client);

/// A Tokio runtime; opaque here.
#[verifier::external_type_specification]
#[verifier::external_body]
pub struct ExRuntime(Runtime);

/// Tokio's runtime builder; opaque here.
#[verifier::external_type_specification]
#[verifier::external_body]
pub struct ExRuntimeBuilder(tokio::runtime::Builder);

/// The error Tokio reports when a runtime cannot be built; opaque here.
#[verifier::external_type_specification]
#[verifier::external_body]
pub struct ExIoError(std::io::Error);

/// A client-crate builder together with what it is set to. Only the
/// wrappers below make or change one, each as its outside call does.
pub struct ConfiguredClientBuilder {
    builder: ClientBuilder,
    settings: Ghost<ClientBuilderSettings>,
}

impl View for ConfiguredClientBuilder {
    type V = ClientBuilderSettings;

    closed spec fn view(&self) -> ClientBuilderSettings {
        self.settings@
    }
}

impl ConfiguredClientBuilder {
    /// The client-crate builder itself.
    pub closed spec fn client_builder(&self) -> ClientBuilder {
        self.builder
    }

    /// Hands over the client-crate builder, to be built.
    pub fn into_client_builder(self) -> (b: ClientBuilder)
        ensures
            b == self.client_builder(),
    {
        self.builder
    }
}

/// A Tokio runtime builder together with how it is configured. Only the
/// wrappers below make or change one.
pub struct ConfiguredRuntimeBuilder {
    builder: tokio::runtime::Builder,
    config: Ghost<RuntimeConfig>,
}

impl View for ConfiguredRuntimeBuilder {
    type V = RuntimeConfig;

    closed spec fn view(&self) -> RuntimeConfig {
        self.config@
    }
}

/// A Tokio runtime together with the configuration it was built from.
pub struct ConfiguredRuntime {
    runtime: Runtime,
    config: Ghost<RuntimeConfig>,
}

impl View for ConfiguredRuntime {
    type V = RuntimeConfig;

    closed spec fn view(&self) -> RuntimeConfig {
        self.config@
    }
}

impl ConfiguredRuntime {
    /// The Tokio runtime itself.
    pub closed spec fn tokio_runtime(&self) -> Runtime {
        self.runtime
    }

    /// The Tokio runtime, to run blocking calls on.
    pub fn runtime(&self) -> (r: &Runtime)
        ensures
            *r == self.tokio_runtime(),
    {
        &self.runtime
    }
}

/// `guerrillamail_client::Client::builder` (`ClientBuilder::new`): a builder
/// with the crate's defaults, as its source sets them.
#[verifier::external_body]
pub(crate) fn client_builder_new() -> (r: ConfiguredClientBuilder)
    ensures
        r@ == crate_default_settings(),
{
    ConfiguredClientBuilder { builder: Client::builder(), settings: Ghost(crate_default_settings()) }
}

/// `ClientBuilder::danger_accept_invalid_certs`: records the TLS leniency and
/// keeps every other setting.
#[verifier::external_body]
pub(crate) fn builder_danger_accept_invalid_certs(b: ConfiguredClientBuilder, value: bool)
    -> (r: ConfiguredClientBuilder)
    ensures
        r@ == (ClientBuilderSettings { danger_accept_invalid_certs: value, ..b@ }),
{
    ConfiguredClientBuilder { builder: b.builder.danger_accept_invalid_certs(value), settings: b.settings }
}

/// `ClientBuilder::timeout`, given the timeout in milliseconds (converted
/// with `Duration::from_millis`): records it and keeps every other setting.
#[verifier::external_body]
pub(crate) fn builder_timeout_ms(b: ConfiguredClientBuilder, timeout_ms: u64) -> (r: ConfiguredClientBuilder)
    ensures
        r@ == (ClientBuilderSettings { timeout_ms: timeout_ms as int, ..b@ }),
{
    ConfiguredClientBuilder {
        builder: b.builder.timeout(std::time::Duration::from_millis(timeout_ms)),
        settings: b.settings,
    }
}

/// `ClientBuilder::proxy`: records the proxy URL and keeps every other setting.
#[verifier::external_body]
pub(crate) fn builder_proxy(b: ConfiguredClientBuilder, proxy: String) -> (r: ConfiguredClientBuilder)
    ensures
        r@ == (ClientBuilderSettings { proxy: Some(proxy@), ..b@ }),
{
    ConfiguredClientBuilder { builder: b.builder.proxy(proxy), settings: b.settings }
}

/// `ClientBuilder::user_agent`: records the user agent and keeps every other
/// setting.
#[verifier::external_body]
pub(crate) fn builder_user_agent(b: ConfiguredClientBuilder, user_agent: String) -> (r: ConfiguredClientBuilder)
    ensures
        r@ == (ClientBuilderSettings { user_agent: user_agent@, ..b@ }),
{
    ConfiguredClientBuilder { builder: b.builder.user_agent(user_agent), settings: b.settings }
}

/// `ClientBuilder::ajax_url`: records the AJAX endpoint (checked only when the
/// client is built) and keeps every other setting.
#[verifier::external_body]
pub(crate) fn builder_ajax_url(b: ConfiguredClientBuilder, ajax_url: String) -> (r: ConfiguredClientBuilder)
    ensures
        r@ == (ClientBuilderSettings { ajax_url: ajax_url@, ..b@ }),
{
    ConfiguredClientBuilder { builder: b.builder.ajax_url(ajax_url), settings: b.settings }
}

/// `ClientBuilder::base_url`: records the base URL (checked only when the
/// client is built) and keeps every other setting.
#[verifier::external_body]
pub(crate) fn builder_base_url(b: ConfiguredClientBuilder, base_url: String) -> (r: ConfiguredClientBuilder)
    ensures
        r@ == (ClientBuilderSettings { base_url: base_url@, ..b@ }),
{
    ConfiguredClientBuilder { builder: b.builder.base_url(base_url), settings: b.settings }
}

/// `tokio::runtime::Builder::new_multi_thread`: a builder for the
/// multi-threaded scheduler with the I/O and time drivers still off.
#[verifier::external_body]
pub(crate) fn runtime_builder_multi_thread() -> (r: ConfiguredRuntimeBuilder)
    ensures
        r@ == (RuntimeConfig { multi_thread: true, all_drivers_enabled: false }),
{
    ConfiguredRuntimeBuilder {
        builder: tokio::runtime::Builder::new_multi_thread(),
        config: Ghost(RuntimeConfig { multi_thread: true, all_drivers_enabled: false }),
    }
}

/// `tokio::runtime::Builder::enable_all`: turns on every driver the build
/// provides (I/O and time) and keeps the scheduler choice.
#[verifier::external_body]
pub(crate) fn runtime_enable_all(b: &mut ConfiguredRuntimeBuilder)
    ensures
        final(b)@ == (RuntimeConfig { all_drivers_enabled: true, ..old(b)@ }),
{
    b.builder.enable_all();
}

/// `tokio::runtime::Builder::build`: a runtime configured as the builder is.
/// Whether it succeeds depends on the operating system's resources, so only
/// what holds of a success is claimed.
#[verifier::external_body]
pub(crate) fn runtime_build(b: &mut ConfiguredRuntimeBuilder) -> (r: Result<ConfiguredRuntime, std::io::Error>)
    ensures
        final(b)@ == old(b)@,
        r matches Ok(rt) ==> rt@ == old(b)@,
{
    match b.builder.build() {
        Ok(runtime) => Ok(ConfiguredRuntime { runtime, config: b.config }),
        Err(e) => Err(e),
    }
}

/// `std::str::from_utf8`, the decoded text taken as an owned `String`: text
/// exactly when the bytes are well-formed UTF-8 (vstd's `valid_utf8`), and
/// then the characters they encode.
#[verifier::external_body]
pub(crate) fn utf8_to_string(bytes: &[u8]) -> (r: Option<String>)
    ensures
        r is Some <==> valid_utf8(bytes@),
        r matches Some(s) ==> s@ == decode_utf8(bytes@),
{
    std::str::from_utf8(bytes).ok().map(str::to_owned)
}

} // verus!
