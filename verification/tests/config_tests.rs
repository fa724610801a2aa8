use digital_twin::database::config::{
    AuthConfig, AuthKind, ClientConfig, ClientConfigBuilder, ConfigError, EndpointConfig, ObservabilityConfig,
    PoolingConfig, RoutingPolicy, Secret, SessionConfig, TimeoutConfig, TlsConfig, TopologyConfig,
};
use digital_twin::time::Duration;

fn invalid(msg: &str) -> ConfigError {
    ConfigError::Invalid(msg.to_string())
}

fn secs(s: u64) -> Duration {
    Duration { secs: s, nanos: 0 }
}

#[test]
fn defaults_are_valid_and_as_documented() {
    let c = ClientConfig::default();
    assert!(c.validate().is_ok());
    assert!(c.application_name.is_none());
    assert_eq!(c.topology.endpoints.len(), 1);
    assert_eq!(c.topology.endpoints[0].host, "127.0.0.1");
    assert_eq!(c.topology.endpoints[0].port, 0);
    assert_eq!(c.topology.routing, RoutingPolicy::PrimaryOnly);
    assert_eq!(c.auth.kind, AuthKind::NoAuth);
    assert!(!c.tls.enabled && c.tls.verify_peer);
    assert!(c.pooling.enabled);
    assert_eq!((c.pooling.max_size, c.pooling.min_size), (10, 0));
    assert_eq!(c.pooling.max_idle, Some(secs(300)));
    assert_eq!(c.pooling.max_lifetime, None);
    assert_eq!(c.pooling.checkout_timeout, secs(5));
    assert_eq!((c.timeouts.connect, c.timeouts.handshake), (secs(5), secs(5)));
    assert_eq!((c.timeouts.request, c.timeouts.read, c.timeouts.write), (secs(30), secs(30), secs(30)));
    assert!(c.session.rollback_on_return && !c.session.full_reset_on_return);
    assert!(c.observability.enable_metrics && c.observability.enable_tracing);
    assert!(!c.observability.log_requests && !c.observability.log_responses);
}

#[test]
fn endpoints() {
    let e = EndpointConfig::new("db.local", 5432).label("region", "eu");
    assert_eq!(e.host, "db.local");
    assert_eq!(e.port, 5432);
    assert_eq!(e.labels.get("region").map(|s| s.as_str()), Some("eu"));
    assert!(e.validate().is_ok());
    assert_eq!(EndpointConfig::new("  ", 1).validate(), Err(invalid("endpoint.host is empty")));
    let l = EndpointConfig::localhost();
    assert_eq!((l.host.as_str(), l.port), ("127.0.0.1", 0));
}

#[test]
fn topology_needs_valid_endpoints() {
    let mut t = TopologyConfig::default();
    assert!(t.validate().is_ok());
    t.endpoints.clear();
    assert_eq!(t.validate(), Err(invalid("topology.endpoints must not be empty")));
    t.endpoints.push(EndpointConfig::new("a", 1));
    t.endpoints.push(EndpointConfig::new("", 2));
    assert_eq!(t.validate(), Err(invalid("endpoint.host is empty")));
}

#[test]
fn auth_rules() {
    let mut a = AuthConfig::default();
    assert!(a.validate().is_ok());
    a.kind = AuthKind::UserPassword;
    assert_eq!(a.validate(), Err(invalid("auth.user is required")));
    a.user = Some(String::new());
    assert_eq!(a.validate(), Err(invalid("auth.user is required")));
    a.user = Some("bob".to_string());
    assert_eq!(a.validate(), Err(invalid("auth.secret is required")));
    a.secret = Some(Secret::new("pw"));
    assert!(a.validate().is_ok());
    a.kind = AuthKind::Token;
    a.secret = None;
    assert_eq!(a.validate(), Err(invalid("auth.secret is required")));
    a.kind = AuthKind::MutualTls;
    assert!(a.validate().is_ok());
    a.kind = AuthKind::Custom;
    assert!(a.validate().is_ok());
    assert_eq!(Secret::new("s3").expose(), "s3");
}

#[test]
fn pooling_and_timeouts() {
    let mut p = PoolingConfig::default();
    p.max_size = 0;
    assert_eq!(p.validate(), Err(invalid("pooling.max_size must be > 0")));
    p.max_size = 2;
    p.min_size = 3;
    assert_eq!(p.validate(), Err(invalid("pooling.min_size must be <= pooling.max_size")));
    p.enabled = false;
    assert!(p.validate().is_ok());
    let mut t = TimeoutConfig::default();
    t.request = secs(0);
    assert_eq!(t.validate(), Err(invalid("timeouts.request must be > 0")));
    t.connect = Duration { secs: 0, nanos: 0 };
    assert_eq!(t.validate(), Err(invalid("timeouts.connect must be > 0")));
    t.connect = Duration { secs: 0, nanos: 1 };
    t.request = secs(1);
    assert!(t.validate().is_ok());
    assert!(TlsConfig::default().validate().is_ok());
    assert!(SessionConfig::default().validate().is_ok());
    assert!(ObservabilityConfig::default().validate().is_ok());
}

#[test]
fn mutual_tls_needs_tls() {
    let mut auth = AuthConfig::default();
    auth.kind = AuthKind::MutualTls;
    let built = ClientConfig::builder().auth(auth.clone()).build();
    match built {
        Err(e) => {
            assert_eq!(e, invalid("auth=mTLS requires tls.enabled=true"));
            assert_eq!(e.message(), "invalid config: auth=mTLS requires tls.enabled=true");
        },
        Ok(_) => panic!("mTLS without TLS was accepted"),
    }
    let mut tls = TlsConfig::default();
    tls.enabled = true;
    assert!(ClientConfigBuilder::new().auth(auth).tls(tls).build().is_ok());
}

#[test]
fn builder_sets_each_part() {
    let mut session = SessionConfig::default();
    session.full_reset_on_return = true;
    let mut obs = ObservabilityConfig::default();
    obs.log_requests = true;
    let cfg = ClientConfig::builder()
        .application_name("twin")
        .topology(TopologyConfig { endpoints: vec![EndpointConfig::new("h", 9)], routing: RoutingPolicy::RoundRobin, database: Some("d".to_string()) })
        .pooling(PoolingConfig { enabled: true, max_size: 4, min_size: 1, max_idle: None, max_lifetime: None, checkout_timeout: secs(2) })
        .timeouts(TimeoutConfig { connect: secs(1), handshake: secs(1), request: secs(2), read: secs(3), write: secs(4) })
        .session(session)
        .observability(obs)
        .option("search_path", "public")
        .option("search_path", "dt")
        .build()
        .unwrap();
    assert_eq!(cfg.application_name.as_deref(), Some("twin"));
    assert_eq!(cfg.topology.endpoints[0].port, 9);
    assert_eq!(cfg.pooling.max_size, 4);
    assert_eq!(cfg.timeouts.write, secs(4));
    assert!(cfg.session.full_reset_on_return);
    assert!(cfg.observability.log_requests);
    assert_eq!(cfg.options.get("search_path").map(|s| s.as_str()), Some("dt"));
    assert_eq!(cfg.options.len(), 1);
}

#[test]
fn builder_reports_first_problem() {
    let mut pooling = PoolingConfig::default();
    pooling.max_size = 0;
    let mut topology = TopologyConfig::default();
    topology.endpoints.clear();
    let r = ClientConfig::builder().pooling(pooling).topology(topology).build();
    assert_eq!(r.err(), Some(invalid("topology.endpoints must not be empty")));
}
