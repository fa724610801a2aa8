//! Generic database client configuration: endpoints and routing, auth, TLS,
//! pooling, timeouts, session policy and observability, with the checks that
//! a configuration must pass before it is used.

use vstd::prelude::*;
use crate::keyed_map::KeyedMap;
use crate::text::{chars_of, string_of, trim, trim_ws};
use crate::time::Duration;

verus! {

/// Why a configuration was rejected.
#[derive(Clone, Debug, PartialEq, Eq)]
pub enum ConfigError {
    Invalid(String),
}

impl ConfigError {
    /// The error as text: "invalid config: " followed by the reason.
    pub fn message(&self) -> (s: String)
        ensures
            match self {
                ConfigError::Invalid(r) => s@ == "invalid config: "@ + r@,
            },
    {
        match self {
            ConfigError::Invalid(r) => {
                let mut s = string_of("invalid config: ");
                s.append(r.as_str());
                s
            },
        }
    }
}

/// `r` is the outcome of a check that finds `problem`: success when there is
/// none, else the error that states it.
pub open spec fn reports(r: Result<(), ConfigError>, problem: Option<Seq<char>>) -> bool {
    match problem {
        None => r is Ok,
        Some(m) => r matches Err(ConfigError::Invalid(s)) && s@ == m,
    }
}

fn invalid(reason: &str) -> (r: Result<(), ConfigError>)
    ensures
        reports(r, Some(reason@)),
{
    Err(ConfigError::Invalid(string_of(reason)))
}

/// How a client chooses an endpoint.
#[derive(Clone, Debug, PartialEq, Eq)]
pub enum RoutingPolicy {
    /// Always the first endpoint (or designated primary).
    PrimaryOnly,
    /// Round-robin across the endpoints.
    RoundRobin,
    /// Endpoints with a matching label first, else any.
    PreferLabel { key: String, value: String },
    /// The caller chooses.
    Manual,
}

/// One server to connect to.
#[derive(Clone, Debug)]
pub struct EndpointConfig {
    pub host: String,
    pub port: u16,
    /// Labels such as region, zone or role, for routing.
    pub labels: KeyedMap<String>,
}

impl EndpointConfig {
    /// What is wrong with the endpoint, if anything: its host must not be blank.
    pub open spec fn problem(&self) -> Option<Seq<char>> {
        if trim_ws(self.host@).len() == 0 {
            Some("endpoint.host is empty"@)
        } else {
            None
        }
    }

    /// An endpoint at `host` and `port` without labels.
    pub fn new(host: &str, port: u16) -> (e: EndpointConfig)
        ensures
            e.host@ == host@,
            e.port == port,
            e.labels.wf(),
            e.labels@ == Map::<Seq<char>, String>::empty(),
    {
        EndpointConfig { host: string_of(host), port, labels: KeyedMap::new() }
    }

    /// The endpoint 127.0.0.1 with port 0, which leaves the port to the transport.
    pub fn localhost() -> (e: EndpointConfig)
        ensures
            e.host@ == "127.0.0.1"@,
            e.port == 0,
            e.labels.wf(),
            e.labels@ == Map::<Seq<char>, String>::empty(),
    {
        Self::new("127.0.0.1", 0)
    }

    /// The same endpoint with label `k` set to `v`.
    pub fn label(self, k: &str, v: &str) -> (e: EndpointConfig)
        requires
            self.labels.wf(),
        ensures
            e.host == self.host,
            e.port == self.port,
            e.labels.wf(),
            e.labels@ == self.labels@.insert(k@, e.labels@[k@]),
            e.labels@[k@]@ == v@,
    {
        let mut e = self;
        e.labels.insert(string_of(k), string_of(v));
        e
    }

    /// Rejects a blank host; port 0 is allowed, for transports that pick a default.
    pub fn validate(&self) -> (r: Result<(), ConfigError>)
        ensures
            reports(r, self.problem()),
    {
        let h = trim(&chars_of(self.host.as_str()));
        if h.len() == 0 {
            return invalid("endpoint.host is empty");
        }
        Ok(())
    }
}

/// The endpoints and how to choose among them.
#[derive(Clone, Debug)]
pub struct TopologyConfig {
    /// One or more endpoints; clustered databases list several.
    pub endpoints: Vec<EndpointConfig>,
    pub routing: RoutingPolicy,
    /// The database or namespace to use on the server, if any.
    pub database: Option<String>,
}

/// The problem of the first endpoint that has one, if any.
pub open spec fn first_endpoint_problem(eps: Seq<EndpointConfig>) -> Option<Seq<char>>
    decreases eps.len(),
{
    if eps.len() == 0 {
        None
    } else {
        match eps[0].problem() {
            Some(p) => Some(p),
            None => first_endpoint_problem(eps.drop_first()),
        }
    }
}

impl TopologyConfig {
    /// What is wrong with the topology, if anything: it needs an endpoint,
    /// and every endpoint must be valid.
    pub open spec fn problem(&self) -> Option<Seq<char>> {
        if self.endpoints@.len() == 0 {
            Some("topology.endpoints must not be empty"@)
        } else {
            first_endpoint_problem(self.endpoints@)
        }
    }

    /// Rejects an empty endpoint list, then the first invalid endpoint.
    pub fn validate(&self) -> (r: Result<(), ConfigError>)
        ensures
            reports(r, self.problem()),
    {
        if self.endpoints.len() == 0 {
            return invalid("topology.endpoints must not be empty");
        }
        let mut i: usize = 0;
        assert(self.endpoints@.skip(0) =~= self.endpoints@);
        while i < self.endpoints.len()
            invariant
                i <= self.endpoints@.len(),
                first_endpoint_problem(self.endpoints@) == first_endpoint_problem(self.endpoints@.skip(i as int)),
            decreases self.endpoints.len() - i,
        {
            let r = self.endpoints[i].validate();
            proof {
                assert(self.endpoints@.skip(i as int).drop_first() =~= self.endpoints@.skip(i + 1));
                assert(self.endpoints@.skip(i as int)[0] == self.endpoints@[i as int]);
            }
            if r.is_err() {
                return r;
            }
            i = i + 1;
        }
        proof {
            assert(self.endpoints@.skip(i as int).len() == 0);
        }
        Ok(())
    }
}

impl Default for TopologyConfig {
    /// A single localhost endpoint, primary-only routing, no database.
    fn default() -> (t: TopologyConfig)
        ensures
            t.endpoints@.len() == 1,
            t.endpoints@[0].host@ == "127.0.0.1"@,
            t.endpoints@[0].port == 0,
            t.endpoints@[0].labels.wf(),
            t.endpoints@[0].labels@ == Map::<Seq<char>, String>::empty(),
            t.routing == RoutingPolicy::PrimaryOnly,
            t.database is None,
    {
        let mut endpoints: Vec<EndpointConfig> = Vec::new();
        endpoints.push(EndpointConfig::localhost());
        TopologyConfig { endpoints, routing: RoutingPolicy::PrimaryOnly, database: None }
    }
}

/// How the client authenticates.
#[derive(Clone, Copy, Debug, PartialEq, Eq, Structural)]
pub enum AuthKind {
    NoAuth,
    UserPassword,
    Token,
    MutualTls,
    /// Kerberos, IAM and the like.
    Custom,
}

/// A password or token. It is not `Debug`, so it cannot be printed by
/// accident; `redacted` gives the text to show in its place.
pub struct Secret(String);

impl Clone for Secret {
    /// A secret with the same text.
    fn clone(&self) -> (s: Secret)
        ensures
            s.value() == self.value(),
    {
        Secret(self.0.clone())
    }
}

impl Secret {
    /// The secret text.
    pub closed spec fn value(&self) -> Seq<char> {
        self.0@
    }

    /// A secret holding `value`.
    pub fn new(value: &str) -> (s: Secret)
        ensures
            s.value() == value@,
    {
        Secret(string_of(value))
    }

    /// What is shown of a secret in debug output: never its text.
    pub fn redacted(&self) -> (s: &'static str)
        ensures
            s@ == "Secret(**redacted**)"@,
    {
        "Secret(**redacted**)"
    }

    /// The secret text.
    pub fn expose(&self) -> (s: &str)
        ensures
            s@ == self.value(),
    {
        self.0.as_str()
    }
}

/// Authentication settings.
#[derive(Clone)]
pub struct AuthConfig {
    pub kind: AuthKind,
    /// The user or identity, for display or for the modes that need one.
    pub user: Option<String>,
    /// The password or token.
    pub secret: Option<Secret>,
    /// Further authentication parameters.
    pub params: KeyedMap<String>,
}

impl AuthConfig {
    /// What is wrong with the settings, if anything: user/password needs a
    /// non-empty user and a secret; a token needs a secret.
    pub open spec fn problem(&self) -> Option<Seq<char>> {
        match self.kind {
            AuthKind::UserPassword => if (match self.user {
                Some(u) => u@.len() == 0,
                None => true,
            }) {
                Some("auth.user is required"@)
            } else if self.secret is None {
                Some("auth.secret is required"@)
            } else {
                None
            },
            AuthKind::Token => if self.secret is None {
                Some("auth.secret is required"@)
            } else {
                None
            },
            _ => None,
        }
    }

    /// Checks that the mode has what it needs (mutual TLS is checked against
    /// the TLS settings by `ClientConfig::validate`).
    pub fn validate(&self) -> (r: Result<(), ConfigError>)
        ensures
            reports(r, self.problem()),
    {
        match self.kind {
            AuthKind::NoAuth => Ok(()),
            AuthKind::UserPassword => {
                let empty_user = match &self.user {
                    Some(u) => u.as_str().unicode_len() == 0,
                    None => true,
                };
                if empty_user {
                    return invalid("auth.user is required");
                }
                if self.secret.is_none() {
                    return invalid("auth.secret is required");
                }
                Ok(())
            },
            AuthKind::Token => {
                if self.secret.is_none() {
                    return invalid("auth.secret is required");
                }
                Ok(())
            },
            AuthKind::MutualTls => Ok(()),
            AuthKind::Custom => Ok(()),
        }
    }
}

impl Default for AuthConfig {
    /// No authentication.
    fn default() -> (a: AuthConfig)
        ensures
            a.kind == AuthKind::NoAuth,
            a.user is None,
            a.secret is None,
            a.params.wf(),
            a.params@ == Map::<Seq<char>, String>::empty(),
    {
        AuthConfig { kind: AuthKind::NoAuth, user: None, secret: None, params: KeyedMap::new() }
    }
}

/// TLS settings; the paths are left to the transport to interpret.
#[derive(Clone, Debug)]
pub struct TlsConfig {
    pub enabled: bool,
    /// Verify the server certificate and host name.
    pub verify_peer: bool,
    /// An SNI override.
    pub server_name: Option<String>,
    pub ca_cert_path: Option<String>,
    pub client_cert_path: Option<String>,
    pub client_key_path: Option<String>,
}

impl TlsConfig {
    /// Accepts every TLS setting: without a CA path the system trust store may serve.
    pub fn validate(&self) -> (r: Result<(), ConfigError>)
        ensures
            r is Ok,
    {
        Ok(())
    }
}

impl Default for TlsConfig {
    /// TLS off, peer verification on, no names or paths.
    fn default() -> (t: TlsConfig)
        ensures
            !t.enabled,
            t.verify_peer,
            t.server_name is None,
            t.ca_cert_path is None,
            t.client_cert_path is None,
            t.client_key_path is None,
    {
        TlsConfig {
            enabled: false,
            verify_peer: true,
            server_name: None,
            ca_cert_path: None,
            client_cert_path: None,
            client_key_path: None,
        }
    }
}

/// Connection pooling.
#[derive(Clone, Debug)]
pub struct PoolingConfig {
    pub enabled: bool,
    /// The most concurrent sessions or pooled connections.
    pub max_size: usize,
    /// The number of connections to keep warm.
    pub min_size: usize,
    /// Recycle a connection idle longer than this.
    pub max_idle: Option<Duration>,
    /// Recycle a connection older than this, even if busy.
    pub max_lifetime: Option<Duration>,
    /// Fail a checkout that waits longer than this.
    pub checkout_timeout: Duration,
}

impl PoolingConfig {
    /// What is wrong with enabled pooling, if anything: the maximum must be
    /// positive and at least the minimum. Disabled pooling is not checked.
    pub open spec fn problem(&self) -> Option<Seq<char>> {
        if !self.enabled {
            None
        } else if self.max_size == 0 {
            Some("pooling.max_size must be > 0"@)
        } else if self.min_size > self.max_size {
            Some("pooling.min_size must be <= pooling.max_size"@)
        } else {
            None
        }
    }

    /// Checks the sizes of enabled pooling.
    pub fn validate(&self) -> (r: Result<(), ConfigError>)
        ensures
            reports(r, self.problem()),
    {
        if !self.enabled {
            return Ok(());
        }
        if self.max_size == 0 {
            return invalid("pooling.max_size must be > 0");
        }
        if self.min_size > self.max_size {
            return invalid("pooling.min_size must be <= pooling.max_size");
        }
        Ok(())
    }
}

impl Default for PoolingConfig {
    /// Enabled, up to 10 connections, none kept warm, idle ones recycled after
    /// 300 s, no lifetime limit, checkouts fail after 5 s.
    fn default() -> (p: PoolingConfig)
        ensures
            p.enabled,
            p.max_size == 10,
            p.min_size == 0,
            p.max_idle == Some(Duration { secs: 300, nanos: 0 }),
            p.max_lifetime is None,
            p.checkout_timeout == (Duration { secs: 5, nanos: 0 }),
    {
        PoolingConfig {
            enabled: true,
            max_size: 10,
            min_size: 0,
            max_idle: Some(Duration::from_secs(300)),
            max_lifetime: None,
            checkout_timeout: Duration::from_secs(5),
        }
    }
}

/// Timeouts (policy only).
#[derive(Clone, Debug)]
pub struct TimeoutConfig {
    pub connect: Duration,
    pub handshake: Duration,
    /// The default for an operation; a protocol may override it per call.
    pub request: Duration,
    /// How long an idle connection may wait for a response.
    pub read: Duration,
    /// How long sending may take.
    pub write: Duration,
}

impl TimeoutConfig {
    /// What is wrong with the timeouts, if anything: connecting and requests
    /// need a positive timeout.
    pub open spec fn problem(&self) -> Option<Seq<char>> {
        if self.connect.secs == 0 && self.connect.nanos == 0 {
            Some("timeouts.connect must be > 0"@)
        } else if self.request.secs == 0 && self.request.nanos == 0 {
            Some("timeouts.request must be > 0"@)
        } else {
            None
        }
    }

    /// Checks that connecting and requests have a positive timeout.
    pub fn validate(&self) -> (r: Result<(), ConfigError>)
        ensures
            reports(r, self.problem()),
    {
        if self.connect.is_zero() {
            return invalid("timeouts.connect must be > 0");
        }
        if self.request.is_zero() {
            return invalid("timeouts.request must be > 0");
        }
        Ok(())
    }
}

impl Default for TimeoutConfig {
    /// 5 s to connect and for the handshake, 30 s for requests, reads and writes.
    fn default() -> (t: TimeoutConfig)
        ensures
            t.connect == (Duration { secs: 5, nanos: 0 }),
            t.handshake == (Duration { secs: 5, nanos: 0 }),
            t.request == (Duration { secs: 30, nanos: 0 }),
            t.read == (Duration { secs: 30, nanos: 0 }),
            t.write == (Duration { secs: 30, nanos: 0 }),
    {
        TimeoutConfig {
            connect: Duration::from_secs(5),
            handshake: Duration::from_secs(5),
            request: Duration::from_secs(30),
            read: Duration::from_secs(30),
            write: Duration::from_secs(30),
        }
    }
}

/// What happens to a session when it returns to the pool.
#[derive(Clone, Debug)]
pub struct SessionConfig {
    /// Roll back an open transaction.
    pub rollback_on_return: bool,
    /// Reset the session fully, where the protocol supports it.
    pub full_reset_on_return: bool,
    /// Session variables (schema, search path, role) applied on checkout.
    pub session_vars: KeyedMap<String>,
}

impl SessionConfig {
    /// Accepts every session policy.
    pub fn validate(&self) -> (r: Result<(), ConfigError>)
        ensures
            r is Ok,
    {
        Ok(())
    }
}

impl Default for SessionConfig {
    /// Roll back on return, no full reset, no session variables.
    fn default() -> (s: SessionConfig)
        ensures
            s.rollback_on_return,
            !s.full_reset_on_return,
            s.session_vars.wf(),
            s.session_vars@ == Map::<Seq<char>, String>::empty(),
    {
        SessionConfig { rollback_on_return: true, full_reset_on_return: false, session_vars: KeyedMap::new() }
    }
}

/// Metrics, tracing and request logging.
#[derive(Clone, Debug)]
pub struct ObservabilityConfig {
    pub enable_metrics: bool,
    pub enable_tracing: bool,
    /// Logged requests and responses should have their secrets redacted.
    pub log_requests: bool,
    pub log_responses: bool,
}

impl ObservabilityConfig {
    /// Accepts every observability setting.
    pub fn validate(&self) -> (r: Result<(), ConfigError>)
        ensures
            r is Ok,
    {
        Ok(())
    }
}

impl Default for ObservabilityConfig {
    /// Metrics and tracing on, request and response logging off.
    fn default() -> (o: ObservabilityConfig)
        ensures
            o.enable_metrics,
            o.enable_tracing,
            !o.log_requests,
            !o.log_responses,
    {
        ObservabilityConfig { enable_metrics: true, enable_tracing: true, log_requests: false, log_responses: false }
    }
}

/// The configuration of a client or connector.
#[derive(Clone)]
pub struct ClientConfig {
    pub application_name: Option<String>,
    pub topology: TopologyConfig,
    pub auth: AuthConfig,
    pub tls: TlsConfig,
    pub pooling: PoolingConfig,
    pub timeouts: TimeoutConfig,
    pub session: SessionConfig,
    pub observability: ObservabilityConfig,
    /// Driver- or database-specific options, such as `search_path`.
    pub options: KeyedMap<String>,
}

impl ClientConfig {
    /// What is wrong with the configuration, if anything: the first problem of
    /// the topology, auth, pooling and timeouts, in that order; then mutual TLS
    /// authentication needs TLS enabled.
    pub open spec fn problem(&self) -> Option<Seq<char>> {
        if self.topology.problem() is Some {
            self.topology.problem()
        } else if self.auth.problem() is Some {
            self.auth.problem()
        } else if self.pooling.problem() is Some {
            self.pooling.problem()
        } else if self.timeouts.problem() is Some {
            self.timeouts.problem()
        } else if self.auth.kind == AuthKind::MutualTls && !self.tls.enabled {
            Some("auth=mTLS requires tls.enabled=true"@)
        } else {
            None
        }
    }

    /// Checks each part, then the consistency between them; fails on the first problem.
    pub fn validate(&self) -> (r: Result<(), ConfigError>)
        ensures
            reports(r, self.problem()),
    {
        self.topology.validate()?;
        self.auth.validate()?;
        self.tls.validate()?;
        self.pooling.validate()?;
        self.timeouts.validate()?;
        self.session.validate()?;
        self.observability.validate()?;
        if self.auth.kind == AuthKind::MutualTls && !self.tls.enabled {
            return invalid("auth=mTLS requires tls.enabled=true");
        }
        Ok(())
    }

    /// A builder that starts from the default configuration.
    pub fn builder() -> (b: ClientConfigBuilder)
        ensures
            is_default_config(b.cfg),
    {
        ClientConfigBuilder::new()
    }
}

/// Whether `c` is the default configuration: no application name, the default
/// of each part and no options.
pub open spec fn is_default_config(c: ClientConfig) -> bool {
    &&& c.application_name is None
    &&& c.topology.endpoints@.len() == 1
    &&& c.topology.endpoints@[0].host@ == "127.0.0.1"@
    &&& c.topology.endpoints@[0].port == 0
    &&& c.topology.endpoints@[0].labels.wf()
    &&& c.topology.endpoints@[0].labels@ == Map::<Seq<char>, String>::empty()
    &&& c.topology.routing == RoutingPolicy::PrimaryOnly
    &&& c.topology.database is None
    &&& c.auth.kind == AuthKind::NoAuth
    &&& c.auth.user is None
    &&& c.auth.secret is None
    &&& c.auth.params@ == Map::<Seq<char>, String>::empty()
    &&& !c.tls.enabled
    &&& c.tls.verify_peer
    &&& c.tls.server_name is None
    &&& c.tls.ca_cert_path is None
    &&& c.tls.client_cert_path is None
    &&& c.tls.client_key_path is None
    &&& c.pooling.enabled
    &&& c.pooling.max_size == 10
    &&& c.pooling.min_size == 0
    &&& c.pooling.max_idle == Some(Duration { secs: 300, nanos: 0 })
    &&& c.pooling.max_lifetime is None
    &&& c.pooling.checkout_timeout == (Duration { secs: 5, nanos: 0 })
    &&& c.timeouts.connect == (Duration { secs: 5, nanos: 0 })
    &&& c.timeouts.handshake == (Duration { secs: 5, nanos: 0 })
    &&& c.timeouts.request == (Duration { secs: 30, nanos: 0 })
    &&& c.timeouts.read == (Duration { secs: 30, nanos: 0 })
    &&& c.timeouts.write == (Duration { secs: 30, nanos: 0 })
    &&& c.session.rollback_on_return
    &&& !c.session.full_reset_on_return
    &&& c.session.session_vars@ == Map::<Seq<char>, String>::empty()
    &&& c.observability.enable_metrics
    &&& c.observability.enable_tracing
    &&& !c.observability.log_requests
    &&& !c.observability.log_responses
    &&& c.options.wf()
    &&& c.options@ == Map::<Seq<char>, String>::empty()
}

impl Default for ClientConfig {
    /// The default of every part, no application name and no options.
    fn default() -> (c: ClientConfig)
        ensures
            is_default_config(c),
    {
        ClientConfig {
            application_name: None,
            topology: TopologyConfig::default(),
            auth: AuthConfig::default(),
            tls: TlsConfig::default(),
            pooling: PoolingConfig::default(),
            timeouts: TimeoutConfig::default(),
            session: SessionConfig::default(),
            observability: ObservabilityConfig::default(),
            options: KeyedMap::new(),
        }
    }
}

/// The endpoints have no problem exactly when every host has non-blank text.
proof fn lemma_endpoints_ok(eps: Seq<EndpointConfig>)
    ensures
        first_endpoint_problem(eps) is None <==> forall|i: int| 0 <= i < eps.len() ==> trim_ws(
            #[trigger] eps[i].host@,
        ).len() > 0,
    decreases eps.len(),
{
    if eps.len() > 0 {
        lemma_endpoints_ok(eps.drop_first());
        assert forall|i: int| 0 < i < eps.len() implies #[trigger] eps[i] == eps.drop_first()[i - 1] by {}
        if first_endpoint_problem(eps) is None {
            assert forall|i: int| 0 <= i < eps.len() implies trim_ws(#[trigger] eps[i].host@).len() > 0 by {
                if i > 0 {
                    assert(eps[i] == eps.drop_first()[i - 1]);
                }
            }
        }
    }
}

/// A configuration is valid exactly when it lists at least one endpoint and
/// every endpoint's host is non-blank; its authentication has what its kind
/// needs (user and password: a non-empty user and a secret; a token: a
/// secret); enabled pooling allows at least one connection and keeps no more
/// warm than it allows; connecting and requests have positive timeouts; and
/// mutual TLS authentication comes with TLS enabled.
pub proof fn lemma_config_valid_exactly_when(c: ClientConfig)
    ensures
        c.problem() is None <==> {
            &&& c.topology.endpoints@.len() > 0
            &&& forall|i: int| 0 <= i < c.topology.endpoints@.len() ==> trim_ws(
                #[trigger] c.topology.endpoints@[i].host@,
            ).len() > 0
            &&& c.auth.kind == AuthKind::UserPassword ==> (c.auth.user matches Some(u) && u@.len() > 0)
            &&& (c.auth.kind == AuthKind::UserPassword || c.auth.kind == AuthKind::Token) ==> c.auth.secret is Some
            &&& c.pooling.enabled ==> 0 < c.pooling.max_size && c.pooling.min_size <= c.pooling.max_size
            &&& !(c.timeouts.connect.secs == 0 && c.timeouts.connect.nanos == 0)
            &&& !(c.timeouts.request.secs == 0 && c.timeouts.request.nanos == 0)
            &&& c.auth.kind == AuthKind::MutualTls ==> c.tls.enabled
        },
{
    lemma_endpoints_ok(c.topology.endpoints@);
}

/// What each kind of authentication needs: a token needs a secret and
/// nothing else, whatever its user; user and password need a non-empty user
/// and a secret; no authentication, mutual TLS and custom schemes need nothing
/// of these settings.
pub proof fn lemma_auth_requirements(a: AuthConfig)
    ensures
        a.kind == AuthKind::Token ==> (a.problem() is None <==> a.secret is Some),
        a.kind == AuthKind::UserPassword ==> (a.problem() is None <==> (a.user matches Some(u) && u@.len() > 0
            && a.secret is Some)),
        a.kind == AuthKind::NoAuth || a.kind == AuthKind::MutualTls || a.kind == AuthKind::Custom ==> a.problem()
            is None,
{
}

/// With token authentication, the user plays no part in checking a
/// configuration: setting any other user leaves the outcome as it was.
pub proof fn lemma_token_user_plays_no_part(c: ClientConfig, user: Option<String>)
    requires
        c.auth.kind == AuthKind::Token,
    ensures
        (ClientConfig { auth: AuthConfig { user: user, ..c.auth }, ..c }).problem() == c.problem(),
{
}

/// The default configuration with token authentication that holds a secret
/// (and any user, none included) is valid.
pub proof fn lemma_default_with_token_is_valid(d: ClientConfig, auth: AuthConfig)
    requires
        is_default_config(d),
        auth.kind == AuthKind::Token,
        auth.secret is Some,
    ensures
        (ClientConfig { auth: auth, ..d }).problem() is None,
{
    lemma_default_config_is_valid(d);
}

/// The default configuration passes its checks.
pub proof fn lemma_default_config_is_valid(c: ClientConfig)
    requires
        is_default_config(c),
    ensures
        c.problem() is None,
{
    reveal_strlit("127.0.0.1");
    let eps = c.topology.endpoints@;
    let host = eps[0].host@;
    assert(eps.drop_first().len() == 0);
    assert(first_endpoint_problem(eps.drop_first()) is None);
    assert(crate::text::trim_start_ws(host) == host);
    assert(crate::text::trim_end_ws(host) == host);
    assert(trim_ws(host) == host);
    assert(eps[0].problem() is None);
    assert(first_endpoint_problem(eps) is None);
    assert(c.topology.problem() is None);
}

/// Builds a `ClientConfig` one part at a time, starting from the default.
pub struct ClientConfigBuilder {
    pub cfg: ClientConfig,
}

impl ClientConfigBuilder {
    /// A builder holding the default configuration.
    pub fn new() -> (b: ClientConfigBuilder)
        ensures
            is_default_config(b.cfg),
    {
        ClientConfigBuilder { cfg: ClientConfig::default() }
    }

    /// Sets the application name.
    pub fn application_name(self, name: &str) -> (b: ClientConfigBuilder)
        ensures
            b.cfg.application_name matches Some(n) && n@ == name@,
            b.cfg == (ClientConfig { application_name: b.cfg.application_name, ..self.cfg }),
    {
        let mut b = self;
        b.cfg.application_name = Some(string_of(name));
        b
    }

    /// Sets the topology.
    pub fn topology(self, t: TopologyConfig) -> (b: ClientConfigBuilder)
        ensures
            b.cfg == (ClientConfig { topology: t, ..self.cfg }),
    {
        let mut b = self;
        b.cfg.topology = t;
        b
    }

    /// Sets the authentication settings.
    pub fn auth(self, a: AuthConfig) -> (b: ClientConfigBuilder)
        ensures
            b.cfg == (ClientConfig { auth: a, ..self.cfg }),
    {
        let mut b = self;
        b.cfg.auth = a;
        b
    }

    /// Sets the TLS settings.
    pub fn tls(self, t: TlsConfig) -> (b: ClientConfigBuilder)
        ensures
            b.cfg == (ClientConfig { tls: t, ..self.cfg }),
    {
        let mut b = self;
        b.cfg.tls = t;
        b
    }

    /// Sets the pooling settings.
    pub fn pooling(self, p: PoolingConfig) -> (b: ClientConfigBuilder)
        ensures
            b.cfg == (ClientConfig { pooling: p, ..self.cfg }),
    {
        let mut b = self;
        b.cfg.pooling = p;
        b
    }

    /// Sets the timeouts.
    pub fn timeouts(self, t: TimeoutConfig) -> (b: ClientConfigBuilder)
        ensures
            b.cfg == (ClientConfig { timeouts: t, ..self.cfg }),
    {
        let mut b = self;
        b.cfg.timeouts = t;
        b
    }

    /// Sets the session policy.
    pub fn session(self, s: SessionConfig) -> (b: ClientConfigBuilder)
        ensures
            b.cfg == (ClientConfig { session: s, ..self.cfg }),
    {
        let mut b = self;
        b.cfg.session = s;
        b
    }

    /// Sets the observability settings.
    pub fn observability(self, o: ObservabilityConfig) -> (b: ClientConfigBuilder)
        ensures
            b.cfg == (ClientConfig { observability: o, ..self.cfg }),
    {
        let mut b = self;
        b.cfg.observability = o;
        b
    }

    /// Sets option `key` to `value`.
    pub fn option(self, key: &str, value: &str) -> (b: ClientConfigBuilder)
        requires
            self.cfg.options.wf(),
        ensures
            b.cfg.options.wf(),
            b.cfg.options@ == self.cfg.options@.insert(key@, b.cfg.options@[key@]),
            b.cfg.options@[key@]@ == value@,
            b.cfg == (ClientConfig { options: b.cfg.options, ..self.cfg }),
    {
        let mut b = self;
        b.cfg.options.insert(string_of(key), string_of(value));
        b
    }

    /// The configuration, if it passes its checks.
    pub fn build(self) -> (r: Result<ClientConfig, ConfigError>)
        ensures
            self.cfg.problem() is None ==> r == Ok::<ClientConfig, ConfigError>(self.cfg),
            self.cfg.problem() matches Some(m) ==> (r matches Err(ConfigError::Invalid(s)) && s@ == m),
    {
        match self.cfg.validate() {
            Ok(()) => Ok(self.cfg),
            Err(e) => Err(e),
        }
    }
}

} // verus!
