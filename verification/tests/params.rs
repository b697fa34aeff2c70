use amqp_pool::params::{uri_of_params, AmqpParams};
use amqp_pool::liveness::LivenessFlag;

#[test]
fn default_params_standard_values() {
    let params = AmqpParams::default();
    assert_eq!(params.host, "localhost");
    assert_eq!(params.port, 5672);
    assert_eq!(params.user, "guest");
    assert_eq!(params.pass, "guest");
    assert_eq!(params.prefetch_count, 32);
    assert_eq!(params.frame_max, Some(262144));
    assert_eq!(params.channel_max, None);
    assert_eq!(params.heartbeat, None);
}

#[test]
fn uri_copies_configuration_and_uses_root_vhost() {
    let params = AmqpParams {
        host: "rabbit.internal".to_owned(),
        port: 5671,
        user: "producer".to_owned(),
        pass: "producer-pass".to_owned(),
        prefetch_count: 4,
        frame_max: Some(131072),
        channel_max: Some(16),
        heartbeat: Some(10),
    };
    let uri = uri_of_params(&params);
    assert_eq!(uri.username, "producer");
    assert_eq!(uri.password, "producer-pass");
    assert_eq!(uri.host, "rabbit.internal");
    assert_eq!(uri.port, 5671);
    assert_eq!(uri.vhost, "/");
    assert_eq!(uri.frame_max, Some(131072));
    assert_eq!(uri.channel_max, Some(16));
    assert_eq!(uri.heartbeat, Some(10));
}

#[test]
fn duplicate_preserves_configuration() {
    let params = AmqpParams::default();
    let copy = params.duplicate();
    assert_eq!(copy.host, params.host);
    assert_eq!(copy.port, params.port);
    assert_eq!(copy.user, params.user);
    assert_eq!(copy.pass, params.pass);
    assert_eq!(copy.prefetch_count, params.prefetch_count);
    assert_eq!(copy.frame_max, params.frame_max);
    assert_eq!(copy.channel_max, params.channel_max);
    assert_eq!(copy.heartbeat, params.heartbeat);
}

#[test]
fn liveness_flag_starts_unset_and_handles_share_the_cell() {
    let flag = LivenessFlag::new();
    assert!(!flag.is_set());
    let handle = flag.handle();
    assert!(!handle.is_set());
    handle.set();
    assert!(flag.is_set());
    assert!(handle.is_set());
}
