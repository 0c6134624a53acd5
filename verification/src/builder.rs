//! Client configuration collected before a client is built, and the handle
//! through which C callers edit it.
use vstd::prelude::*;
pub use crate::outside::ConfiguredClientBuilder;
use crate::outside::{
    client_builder_new, builder_danger_accept_invalid_certs, builder_timeout_ms,
    builder_proxy, builder_user_agent, builder_ajax_url, builder_base_url,
};

verus! {

/// The request timeout used until a caller sets another, in milliseconds.
pub const DEFAULT_TIMEOUT_MS: u64 = 30_000;

/// Settings a builder handle collects before `build`.
pub struct BuilderState {
    pub proxy: Option<String>,
    pub danger_accept_invalid_certs: bool,
    pub user_agent: Option<String>,
    pub timeout_ms: u64,
    pub ajax_url: Option<String>,
    pub base_url: Option<String>,
}

/// The settings of a fresh builder: no proxy, invalid certificates accepted,
/// the client's own user agent and endpoints, a 30 s timeout.
pub open spec fn is_default_state(s: BuilderState) -> bool {
    &&& s.proxy is None
    &&& s.danger_accept_invalid_certs
    &&& s.user_agent is None
    &&& s.timeout_ms == DEFAULT_TIMEOUT_MS
    &&& s.ajax_url is None
    &&& s.base_url is None
}

/// A usable configuration never asks for a zero timeout.
pub open spec fn state_wf(s: BuilderState) -> bool {
    s.timeout_ms > 0
}

impl Default for BuilderState {
    fn default() -> (s: BuilderState)
        ensures
            is_default_state(s),
            state_wf(s),
            s.proxy is None,
            s.danger_accept_invalid_certs,
            s.user_agent is None,
            s.timeout_ms == 30_000,
            s.ajax_url is None,
            s.base_url is None,
    {
        BuilderState {
            proxy: None,
            danger_accept_invalid_certs: true,
            user_agent: None,
            timeout_ms: DEFAULT_TIMEOUT_MS,
            ajax_url: None,
            base_url: None,
        }
    }
}

impl BuilderState {
    /// Points the configuration at other endpoints (used to talk to a local
    /// stand-in for the service); every other setting is kept.
    pub fn with_test_urls(self, base_url: String, ajax_url: String) -> (s: BuilderState)
        ensures
            s.base_url == Some(base_url),
            s.ajax_url == Some(ajax_url),
            s.proxy == self.proxy,
            s.danger_accept_invalid_certs == self.danger_accept_invalid_certs,
            s.user_agent == self.user_agent,
            s.timeout_ms == self.timeout_ms,
    {
        let mut s = self;
        s.base_url = Some(base_url);
        s.ajax_url = Some(ajax_url);
        s
    }

    /// A client-crate builder carrying these settings: TLS leniency and
    /// timeout always, proxy, user agent and endpoints where they were set
    /// (the client crate's own defaults elsewhere).
    pub fn to_client_builder(&self) -> (b: ConfiguredClientBuilder)
        ensures
            b@ == settings_for(*self),
            self.proxy matches Some(p) ==> b@.proxy == Some(p@),
            self.proxy is None ==> b@.proxy is None,
            b@.danger_accept_invalid_certs == self.danger_accept_invalid_certs,
            b@.timeout_ms == self.timeout_ms,
            self.user_agent matches Some(u) ==> b@.user_agent == u@,
            self.user_agent is None ==> b@.user_agent == crate_default_user_agent(),
            self.ajax_url matches Some(u) ==> b@.ajax_url == u@,
            self.ajax_url is None ==> b@.ajax_url == crate_default_ajax_url(),
            self.base_url matches Some(u) ==> b@.base_url == u@,
            self.base_url is None ==> b@.base_url == crate_default_base_url(),
    {
        let mut builder = client_builder_new();
        builder = builder_danger_accept_invalid_certs(builder, self.danger_accept_invalid_certs);
        builder = builder_timeout_ms(builder, self.timeout_ms);
        match &self.proxy {
            Some(proxy) => {
                builder = builder_proxy(builder, proxy.clone());
            },
            None => {},
        }
        match &self.user_agent {
            Some(user_agent) => {
                builder = builder_user_agent(builder, user_agent.clone());
            },
            None => {},
        }
        match &self.ajax_url {
            Some(ajax_url) => {
                builder = builder_ajax_url(builder, ajax_url.clone());
            },
            None => {},
        }
        match &self.base_url {
            Some(base_url) => {
                builder = builder_base_url(builder, base_url.clone());
            },
            None => {},
        }
        builder
    }
}

/// What a client-crate builder is set to: the values its setters record.
pub struct ClientBuilderSettings {
    pub proxy: Option<Seq<char>>,
    pub danger_accept_invalid_certs: bool,
    pub user_agent: Seq<char>,
    pub ajax_url: Seq<char>,
    pub base_url: Seq<char>,
    pub timeout_ms: int,
}

/// The client crate's default user agent.
pub open spec fn crate_default_user_agent() -> Seq<char> {
    "Mozilla/5.0 (Windows NT 10.0; Win64; x64; rv:131.0) Gecko/20100101 Firefox/131.0"@
}

/// The client crate's default AJAX endpoint.
pub open spec fn crate_default_ajax_url() -> Seq<char> {
    "https://www.guerrillamail.com/ajax.php"@
}

/// The client crate's default base URL.
pub open spec fn crate_default_base_url() -> Seq<char> {
    "https://www.guerrillamail.com"@
}

/// The settings of a fresh client-crate builder: no proxy, certificates
/// checked, the crate's user agent and endpoints, a 30 s timeout.
pub open spec fn crate_default_settings() -> ClientBuilderSettings {
    ClientBuilderSettings {
        proxy: None,
        danger_accept_invalid_certs: false,
        user_agent: crate_default_user_agent(),
        ajax_url: crate_default_ajax_url(),
        base_url: crate_default_base_url(),
        timeout_ms: 30_000,
    }
}

/// What the client-crate builder made from `s` is set to.
pub open spec fn settings_for(s: BuilderState) -> ClientBuilderSettings {
    ClientBuilderSettings {
        proxy: match s.proxy {
            Some(p) => Some(p@),
            None => None,
        },
        danger_accept_invalid_certs: s.danger_accept_invalid_certs,
        user_agent: match s.user_agent {
            Some(u) => u@,
            None => crate_default_user_agent(),
        },
        ajax_url: match s.ajax_url {
            Some(u) => u@,
            None => crate_default_ajax_url(),
        },
        base_url: match s.base_url {
            Some(u) => u@,
            None => crate_default_base_url(),
        },
        timeout_ms: s.timeout_ms as int,
    }
}

/// A builder handle left at its defaults yields the client crate's own
/// defaults, except that invalid certificates are accepted.
pub proof fn default_state_settings(s: BuilderState)
    requires
        is_default_state(s),
    ensures
        settings_for(s) == (ClientBuilderSettings { danger_accept_invalid_certs: true, ..crate_default_settings() }),
{
}

/// Every setting reaches the client-crate builder from its own field alone:
/// a proxy is handed on exactly when one is set, whatever the other
/// settings; the TLS leniency and timeout always; user agent and endpoints
/// when set, the client crate's defaults otherwise.
pub proof fn settings_follow_their_own_fields(s: BuilderState)
    ensures
        s.proxy matches Some(p) ==> settings_for(s).proxy == Some(p@),
        s.proxy is None ==> settings_for(s).proxy is None,
        settings_for(s).danger_accept_invalid_certs == s.danger_accept_invalid_certs,
        settings_for(s).timeout_ms == s.timeout_ms,
        s.user_agent matches Some(u) ==> settings_for(s).user_agent == u@,
        s.user_agent is None ==> settings_for(s).user_agent == crate_default_user_agent(),
        s.ajax_url matches Some(u) ==> settings_for(s).ajax_url == u@,
        s.ajax_url is None ==> settings_for(s).ajax_url == crate_default_ajax_url(),
        s.base_url matches Some(u) ==> settings_for(s).base_url == u@,
        s.base_url is None ==> settings_for(s).base_url == crate_default_base_url(),
{
}

/// Changing one setting of a builder handle leaves what every other setting
/// hands on unchanged: in particular the proxy does not depend on whether a
/// user agent (or any other setting) is set.
pub proof fn settings_are_independent(s: BuilderState, t: BuilderState)
    ensures
        s.proxy == t.proxy ==> settings_for(s).proxy == settings_for(t).proxy,
        s.user_agent == t.user_agent ==> settings_for(s).user_agent == settings_for(t).user_agent,
        s.danger_accept_invalid_certs == t.danger_accept_invalid_certs
            ==> settings_for(s).danger_accept_invalid_certs == settings_for(t).danger_accept_invalid_certs,
        s.timeout_ms == t.timeout_ms ==> settings_for(s).timeout_ms == settings_for(t).timeout_ms,
        s.ajax_url == t.ajax_url ==> settings_for(s).ajax_url == settings_for(t).ajax_url,
        s.base_url == t.base_url ==> settings_for(s).base_url == settings_for(t).base_url,
{
}

/// The handle a C caller holds while configuring a client.
pub struct gm_builder_t {
    pub state: BuilderState,
}

impl Default for gm_builder_t {
    fn default() -> (b: gm_builder_t)
        ensures
            is_default_state(b.state),
            state_wf(b.state),
    {
        gm_builder_t { state: BuilderState::default() }
    }
}

} // verus!
