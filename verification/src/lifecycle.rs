use vstd::prelude::*;
use crate::params::AmqpParams;
use crate::liveness::LivenessFlag;

verus! {

/// Severity of a failure, decided at the point of occurrence. The external
/// pooling engine branches on it: Recoverable means "retry from the carried
/// state", Fatal means "abandon this lifecycle instance for good".
pub enum ErrorSeverity<S> {
    /// The failure is intrinsic to the broker, connection or channel layer;
    /// the carried state is enough to retry safely.
    Recoverable { state: S },
    /// The upstream transport supply is permanently exhausted; nothing is
    /// left to retry against.
    Fatal,
}

/// The rest state of the lifecycle: not connected, owning the configuration.
/// Exactly one InitState exists per lifecycle instance at any time; every
/// recoverable failure and every clean close reconstructs it.
pub struct InitState {
    pub amqp_params: AmqpParams,
}

/// The usable state: the InitState it was built from, the live broker
/// connection, and the liveness flag of the keep-alive task spawned for this
/// connection. Created only by a successful `init`; discarded, never revived,
/// once its flag is observed true.
pub struct Connected<C> {
    pub init_state: InitState,
    pub connection: C,
    pub liveness: LivenessFlag,
}

/// The transport pool's answer to a borrow request.
pub enum BorrowOutcome<T> {
    /// Exclusive use of one transport resource was handed over.
    Granted(T),
    /// The pool is permanently gone and will never produce another resource.
    PoolGone,
}

/// The broker's answer to the connect/authenticate handshake.
pub enum HandshakeOutcome<C> {
    /// The handshake succeeded and produced a live connection.
    Accepted(C),
    /// The broker was unreachable or rejected the handshake — an expected,
    /// retryable condition.
    Refused,
}

/// The connection's answer to a request for a new logical channel.
pub enum ChannelOutcome<H> {
    Created(H),
    /// The connection is presumed broken.
    Failed,
}

/// The channel's answer to the prefetch/QoS request.
pub enum QosOutcome {
    Applied,
    Refused,
}

/// What `init`'s first step decides for each answer of the transport pool:
/// a granted transport proceeds with the unchanged InitState; a pool that is
/// permanently gone is Fatal — the one Fatal path of the whole lifecycle.
pub open spec fn spec_init_borrow<T>(
    init_state: InitState,
    outcome: BorrowOutcome<T>,
) -> Result<(InitState, T), ErrorSeverity<InitState>> {
    match outcome {
        BorrowOutcome::Granted(transport) => Ok((init_state, transport)),
        BorrowOutcome::PoolGone => Err(ErrorSeverity::Fatal),
    }
}

/// First step of `init`: classify the transport pool's answer.
pub fn init_borrow<T>(
    init_state: InitState,
    outcome: BorrowOutcome<T>,
) -> (r: Result<(InitState, T), ErrorSeverity<InitState>>)
    ensures
        r == spec_init_borrow(init_state, outcome),
{
    match outcome {
        BorrowOutcome::Granted(transport) => Ok((init_state, transport)),
        BorrowOutcome::PoolGone => Err(ErrorSeverity::Fatal),
    }
}

/// A Recoverable answer carrying the given InitState — what every
/// non-fatal failure of the lifecycle hands back so the caller can retry.
pub open spec fn spec_recoverable(init_state: InitState) -> ErrorSeverity<InitState> {
    ErrorSeverity::Recoverable { state: init_state }
}

/// Second step of `init`: classify the handshake's answer. Acceptance wraps
/// the connection, together with a freshly created, unset liveness flag, into
/// a Connected value; the second element of the pair is a handle on the same
/// flag, to be bound to this connection's keep-alive task. Refusal is
/// Recoverable — a temporarily unreachable broker is never Fatal.
pub fn init_handshake<C>(
    init_state: InitState,
    outcome: HandshakeOutcome<C>,
) -> (r: Result<(Connected<C>, LivenessFlag), ErrorSeverity<InitState>>)
    ensures
        outcome matches HandshakeOutcome::Accepted(c) ==> (r matches Ok(p)
            && p.0.init_state == init_state && p.0.connection == c),
        outcome is Refused ==> (r matches Err(e) && e == spec_recoverable(init_state)),
{
    match outcome {
        HandshakeOutcome::Accepted(connection) => {
            let liveness = LivenessFlag::new();
            let keepalive = liveness.handle();
            Ok((Connected { init_state, connection, liveness }, keepalive))
        },
        HandshakeOutcome::Refused => Err(ErrorSeverity::Recoverable { state: init_state }),
    }
}

/// The liveness decision shared by `acquire` and `release`, for an observed
/// flag value: a connection whose keep-alive task has died is discarded and
/// its InitState returned for a reconnect from scratch; otherwise the
/// connection passes through unchanged.
pub open spec fn spec_gate<C>(
    connected: Connected<C>,
    flag_set: bool,
) -> Result<Connected<C>, ErrorSeverity<InitState>> {
    if flag_set {
        Err(ErrorSeverity::Recoverable { state: connected.init_state })
    } else {
        Ok(connected)
    }
}

/// The liveness decision as executable code, for any observed flag value.
pub fn liveness_gate<C>(
    connected: Connected<C>,
    flag_set: bool,
) -> (r: Result<Connected<C>, ErrorSeverity<InitState>>)
    ensures
        r == spec_gate(connected, flag_set),
{
    if flag_set {
        let Connected { init_state, connection: _, liveness: _ } = connected;
        Err(ErrorSeverity::Recoverable { state: init_state })
    } else {
        Ok(connected)
    }
}

/// First step of `acquire`: consult the liveness flag. The flag is written
/// concurrently by the keep-alive task, so either observation is possible;
/// whichever value was read, the result is exactly the liveness decision for it —
/// in particular the connection comes through unchanged or not at all, and a
/// failure here is never Fatal.
pub fn acquire_gate<C>(
    connected: Connected<C>,
) -> (r: Result<Connected<C>, ErrorSeverity<InitState>>)
    ensures
        r matches Ok(c) ==> c == connected,
        r matches Err(e) ==> (e == spec_recoverable(connected.init_state)),
{
    let flag_set = connected.liveness.is_set();
    liveness_gate(connected, flag_set)
}

/// What `acquire`'s channel step decides for each answer of the connection:
/// a created channel is handed out beside the unchanged Connected value; a
/// failure discards the presumed-broken connection, Recoverable with its
/// InitState.
pub open spec fn spec_acquire_channel<C, H>(
    connected: Connected<C>,
    outcome: ChannelOutcome<H>,
) -> Result<(H, Connected<C>), ErrorSeverity<InitState>> {
    match outcome {
        ChannelOutcome::Created(channel) => Ok((channel, connected)),
        ChannelOutcome::Failed => Err(
            ErrorSeverity::Recoverable { state: connected.init_state },
        ),
    }
}

/// Second step of `acquire`: classify the channel-creation answer. Never
/// Fatal — a channel-level failure does not imply the transport supply is
/// gone.
pub fn acquire_channel<C, H>(
    connected: Connected<C>,
    outcome: ChannelOutcome<H>,
) -> (r: Result<(H, Connected<C>), ErrorSeverity<InitState>>)
    ensures
        r == spec_acquire_channel(connected, outcome),
        r matches Err(e) ==> e is Recoverable,
{
    match outcome {
        ChannelOutcome::Created(channel) => Ok((channel, connected)),
        ChannelOutcome::Failed => {
            let Connected { init_state, connection: _, liveness: _ } = connected;
            Err(ErrorSeverity::Recoverable { state: init_state })
        },
    }
}

/// What `acquire`'s QoS step decides for each answer of the channel: on
/// success the configured channel is lent out beside the unchanged Connected
/// value; on failure both are discarded, Recoverable with the InitState.
pub open spec fn spec_acquire_qos<C, H>(
    channel: H,
    connected: Connected<C>,
    outcome: QosOutcome,
) -> Result<(H, Connected<C>), ErrorSeverity<InitState>> {
    match outcome {
        QosOutcome::Applied => Ok((channel, connected)),
        QosOutcome::Refused => Err(
            ErrorSeverity::Recoverable { state: connected.init_state },
        ),
    }
}

/// Third step of `acquire`: classify the answer to applying the configured
/// prefetch to the fresh channel. Never Fatal, same policy as the channel
/// step.
pub fn acquire_qos<C, H>(
    channel: H,
    connected: Connected<C>,
    outcome: QosOutcome,
) -> (r: Result<(H, Connected<C>), ErrorSeverity<InitState>>)
    ensures
        r == spec_acquire_qos(channel, connected, outcome),
        r matches Err(e) ==> e is Recoverable,
{
    match outcome {
        QosOutcome::Applied => Ok((channel, connected)),
        QosOutcome::Refused => {
            let Connected { init_state, connection: _, liveness: _ } = connected;
            Err(ErrorSeverity::Recoverable { state: init_state })
        },
    }
}

/// The prefetch value `acquire` must apply to every fresh channel.
pub fn qos_prefetch<C>(connected: &Connected<C>) -> (r: u16)
    ensures
        r == connected.init_state.amqp_params.prefetch_count,
{
    connected.init_state.amqp_params.prefetch_count
}

/// What `release` decides for an observed flag value: a keep-alive death that
/// happened while the channel was on loan is caught here, Recoverable with
/// the InitState; otherwise the connection is accepted back unchanged. The
/// returned channel handle plays no part in the decision — channels are cheap,
/// disposable sub-sessions, dropped deliberately without a protocol-level
/// close.
pub open spec fn spec_release<C, H>(
    connected: Connected<C>,
    returned: Option<H>,
    flag_set: bool,
) -> Result<Connected<C>, ErrorSeverity<InitState>> {
    if flag_set {
        Err(ErrorSeverity::Recoverable { state: connected.init_state })
    } else {
        Ok(connected)
    }
}

/// The `release` decision as executable code, for any observed flag value.
pub fn release_decision<C, H>(
    connected: Connected<C>,
    returned: Option<H>,
    flag_set: bool,
) -> (r: Result<Connected<C>, ErrorSeverity<InitState>>)
    ensures
        r == spec_release(connected, returned, flag_set),
{
    let _ = returned;
    liveness_gate(connected, flag_set)
}

/// `release`: re-check the liveness flag, then take the connection back into
/// reuse unchanged. The re-check is the revalidation point that catches a
/// keep-alive death that happened while the channel was on loan; as in
/// `acquire`, either observation of the concurrently written flag is
/// possible, and a failure is never Fatal.
pub fn release<C, H>(
    connected: Connected<C>,
    returned: Option<H>,
) -> (r: Result<Connected<C>, ErrorSeverity<InitState>>)
    ensures
        r matches Ok(c) ==> c == connected,
        r matches Err(e) ==> (e == spec_recoverable(connected.init_state)),
{
    let flag_set = connected.liveness.is_set();
    release_decision(connected, returned, flag_set)
}

/// What `close` returns: the embedded InitState, nothing else.
pub open spec fn spec_close<C>(connected: Connected<C>) -> InitState {
    connected.init_state
}

/// `close`: the one infallible operation. Discard the connection and the
/// liveness-flag handle and hand back the embedded InitState, so a future
/// `init` reuses the same configuration.
pub fn close<C>(connected: Connected<C>) -> (r: InitState)
    ensures
        r == spec_close(connected),
{
    let Connected { init_state, connection: _, liveness: _ } = connected;
    init_state
}

} // verus!
