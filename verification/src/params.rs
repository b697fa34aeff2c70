use vstd::prelude::*;

verus! {

/// Immutable parameters describing how to reach and authenticate against the
/// broker, and how many unacknowledged messages a channel may hold
/// outstanding (prefetch). Never mutated once the lifecycle starts.
pub struct AmqpParams {
    pub host: String,
    pub port: u16,
    pub user: String,
    pub pass: String,
    pub prefetch_count: u16,
    pub frame_max: Option<u32>,
    pub channel_max: Option<u16>,
    pub heartbeat: Option<u16>,
}

/// Relies on lapin's `AMQPScheme::default_port`: for the plain (unencrypted)
/// AMQP scheme it returns 5672, the protocol's standard port.
#[verifier::external_body]
fn amqp_default_port() -> (r: u16)
    ensures
        r == 5672,
{
    lapin::uri::AMQPScheme::AMQP.default_port()
}

impl Default for AmqpParams {
    /// Localhost, the protocol's standard port, guest/guest credentials,
    /// prefetch 32, frame_max 262144, no channel_max, no heartbeat override.
    fn default() -> (r: AmqpParams)
        ensures
            r.host@ == "localhost"@,
            r.port == 5672,
            r.user@ == "guest"@,
            r.pass@ == "guest"@,
            r.prefetch_count == 32,
            r.frame_max == Some(262144u32),
            r.channel_max is None,
            r.heartbeat is None,
    {
        AmqpParams {
            host: "localhost".to_owned(),
            port: amqp_default_port(),
            user: "guest".to_owned(),
            pass: "guest".to_owned(),
            prefetch_count: 32,
            frame_max: Some(262144),
            channel_max: None,
            heartbeat: None,
        }
    }
}

impl AmqpParams {
    /// A copy carrying the same configuration, for a fresh connection attempt.
    pub fn duplicate(&self) -> (r: AmqpParams)
        ensures
            r.host@ == self.host@,
            r.port == self.port,
            r.user@ == self.user@,
            r.pass@ == self.pass@,
            r.prefetch_count == self.prefetch_count,
            r.frame_max == self.frame_max,
            r.channel_max == self.channel_max,
            r.heartbeat == self.heartbeat,
    {
        AmqpParams {
            host: self.host.clone(),
            port: self.port,
            user: self.user.clone(),
            pass: self.pass.clone(),
            prefetch_count: self.prefetch_count,
            frame_max: self.frame_max,
            channel_max: self.channel_max,
            heartbeat: self.heartbeat,
        }
    }
}

/// The complete broker address for one connection attempt, derived from an
/// `AmqpParams`: plain AMQP scheme, the default virtual host, and the
/// configured transport tuning.
pub struct AmqpUri {
    pub username: String,
    pub password: String,
    pub host: String,
    pub port: u16,
    pub vhost: String,
    pub frame_max: Option<u32>,
    pub channel_max: Option<u16>,
    pub heartbeat: Option<u16>,
}

/// Build the broker address used by the connect/authenticate handshake:
/// every field comes from the configuration, and the virtual host is "/".
pub fn uri_of_params(params: &AmqpParams) -> (r: AmqpUri)
    ensures
        r.username@ == params.user@,
        r.password@ == params.pass@,
        r.host@ == params.host@,
        r.port == params.port,
        r.vhost@ == "/"@,
        r.frame_max == params.frame_max,
        r.channel_max == params.channel_max,
        r.heartbeat == params.heartbeat,
{
    AmqpUri {
        username: params.user.clone(),
        password: params.pass.clone(),
        host: params.host.clone(),
        port: params.port,
        vhost: "/".to_owned(),
        frame_max: params.frame_max,
        channel_max: params.channel_max,
        heartbeat: params.heartbeat,
    }
}

} // verus!
