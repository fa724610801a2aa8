use std::sync::Arc;

use digital_twin::database::connector::{keeps_on_release, recycle_due, ConnectorConfig, IdlePool};
use digital_twin::database::protocol::ProtocolConnection;
use digital_twin::database::results::{
    ColumnMeta, DbError, DbErrorKind, ForwardErrorHandler, ForwardResultHandler, NoopEngineSink, OperationMeta,
};
use digital_twin::time::Duration;

fn secs(s: u64) -> Duration {
    Duration { secs: s, nanos: 0 }
}

#[test]
fn connector_config_default() {
    let c = ConnectorConfig::default();
    assert_eq!(c.max_size, 10);
    assert_eq!(c.min_size, 0);
    assert_eq!(c.checkout_timeout, secs(5));
    assert_eq!(c.max_idle, Some(secs(300)));
    assert_eq!(c.prewarm_interval, secs(10));
}

#[test]
fn recycle_only_past_the_idle_limit() {
    assert!(!recycle_due(None, secs(1_000_000)));
    assert!(!recycle_due(Some(secs(60)), secs(60)));
    assert!(recycle_due(Some(secs(60)), Duration { secs: 60, nanos: 1 }));
    assert!(recycle_due(Some(secs(60)), secs(61)));
    assert!(!recycle_due(Some(Duration { secs: 60, nanos: 500 }), Duration { secs: 60, nanos: 400 }));
}

#[test]
fn release_keeps_only_clean_healthy_fresh_connections() {
    assert!(keeps_on_release(true, true, false));
    assert!(!keeps_on_release(false, true, false));
    assert!(!keeps_on_release(true, false, false));
    assert!(!keeps_on_release(true, true, true));
}

#[test]
fn idle_pool_is_last_in_first_out_with_counting_ids() {
    let mut cfg = ConnectorConfig::default();
    cfg.min_size = 3;
    let mut pool: IdlePool<&str> = IdlePool::new(cfg);
    assert!(pool.take_idle().is_none());
    assert_eq!(pool.prewarm_deficit(), 3);
    let a = pool.enroll("a");
    let b = pool.enroll("b");
    assert_eq!((a.id, b.id), (1, 2));
    pool.return_idle(a);
    pool.return_idle(b);
    assert_eq!(pool.idle_count(), 2);
    assert_eq!(pool.prewarm_deficit(), 1);
    let first = pool.take_idle().unwrap();
    assert_eq!((first.conn, first.id), ("b", 2));
    assert!(!pool.should_recycle(&first));
    let second = pool.take_idle().unwrap();
    assert_eq!(second.conn, "a");
    assert_eq!(pool.enroll("c").id, 3);
}

#[test]
fn pool_without_idle_limit_never_recycles() {
    let mut cfg = ConnectorConfig::default();
    cfg.max_idle = None;
    let mut pool: IdlePool<u8> = IdlePool::new(cfg);
    let p = pool.enroll(7);
    assert!(!pool.should_recycle(&p));
    assert_eq!(pool.prewarm_deficit(), 0);
}

#[test]
fn protocol_connection_tracks_health() {
    let mut c = ProtocolConnection::new("transport", "codec", Arc::new(()));
    assert!(c.healthy());
    assert!(c.needs_ping());
    c.record_reset(true);
    assert!(c.healthy());
    assert!(!c.record_ping(false));
    assert!(!c.healthy());
    assert!(!c.needs_ping());
    c.record_reset(true);
    assert!(!c.healthy());
    let mut d = ProtocolConnection::new(1, 2, Arc::new(3));
    d.record_reset(false);
    assert!(!d.healthy());
    assert_eq!((d.transport, d.codec, *d.protocol), (1, 2, 3));
}

#[test]
fn operation_meta_tags_in_order() {
    let m = OperationMeta::new("op-1").tag("region", "eu").tag("tier", "gold");
    assert_eq!(m.op_id, "op-1");
    assert!(m.namespace.is_none() && m.name.is_none() && m.timeout.is_none());
    assert_eq!(
        m.tags,
        vec![("region".to_string(), "eu".to_string()), ("tier".to_string(), "gold".to_string())]
    );
}

#[test]
fn result_column_and_error_builders() {
    let c = ColumnMeta::new("id");
    assert_eq!(c.name, "id");
    assert!(c.declared_type.is_none());
    let e = DbError::new("boom", DbErrorKind::Timeout);
    assert_eq!(e.message, "boom");
    assert_eq!(e.kind, DbErrorKind::Timeout);
    assert!(e.code.is_none() && !e.retryable);
    let e = e.with_code("57014").retryable(true);
    assert_eq!(e.code.as_deref(), Some("57014"));
    assert!(e.retryable);
    assert_eq!(e.kind, DbErrorKind::Timeout);
    let _ = (ForwardResultHandler::default(), ForwardErrorHandler::default(), NoopEngineSink::default());
}
