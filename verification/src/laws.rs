use vstd::prelude::*;
use crate::lifecycle::{
    ChannelOutcome, Connected, ErrorSeverity, InitState, QosOutcome, spec_acquire_channel,
    spec_acquire_qos, spec_close, spec_gate, spec_recoverable, spec_release,
};

verus! {

/// Law: a successful `init` followed immediately by `close` hands back an
/// InitState that is exactly the one `init` was given — the configuration
/// round-trips unchanged. The premise is what `init` ensures of the Connected
/// value it produces.
pub proof fn lemma_init_close_round_trip<C>(init_state: InitState, connected: Connected<C>)
    requires
        connected.init_state == init_state,
    ensures
        spec_close(connected) == init_state,
{
}

/// One successful acquire/release pair: the liveness flag observed unset at
/// the hand-out, the channel created, the prefetch applied, the channel
/// handed back with the flag still observed unset.
pub open spec fn spec_ok_pair<C, H>(connected: Connected<C>, channel: H) -> Connected<C> {
    let gated = spec_gate(connected, false)->Ok_0;
    let acquired = spec_acquire_channel(gated, ChannelOutcome::Created(channel))->Ok_0;
    let configured = spec_acquire_qos(acquired.0, acquired.1, QosOutcome::Applied)->Ok_0;
    spec_release(configured.1, Some(configured.0), false)->Ok_0
}

/// The Connected value after a whole sequence of successful acquire/release
/// pairs, one per lent channel.
pub open spec fn spec_ok_pairs<C, H>(connected: Connected<C>, channels: Seq<H>) -> Connected<C>
    decreases channels.len(),
{
    if channels.len() == 0 {
        connected
    } else {
        spec_ok_pairs(spec_ok_pair(connected, channels[0]), channels.skip(1))
    }
}

/// Law: over any sequence of successful acquire/release pairs the same
/// Connected value — the same connection identity — is reused; while the
/// liveness flag stays unset, no hidden reconnect ever happens.
pub proof fn lemma_connection_reuse<C, H>(connected: Connected<C>, channels: Seq<H>)
    ensures
        spec_ok_pairs(connected, channels) == connected,
    decreases channels.len(),
{
    if channels.len() == 0 {
    } else {
        assert(spec_ok_pair(connected, channels[0]) == connected);
        lemma_connection_reuse(spec_ok_pair(connected, channels[0]), channels.skip(1));
    }
}

/// Law: once the liveness flag reads true, the liveness check that every `acquire`
/// passes through and the revalidation that every `release` performs both
/// answer Recoverable with the embedded InitState — a usable channel is never
/// served over a connection whose keep-alive task has died, whether the death
/// was noticed at hand-out or while a channel was on loan.
pub proof fn lemma_dead_keepalive_forces_recoverable<C, H>(
    connected: Connected<C>,
    returned: Option<H>,
)
    ensures
        spec_gate(connected, true) == Err::<Connected<C>, _>(
            spec_recoverable(connected.init_state),
        ),
        spec_release(connected, returned, true) == Err::<Connected<C>, _>(
            spec_recoverable(connected.init_state),
        ),
{
}

/// Law: no step of `acquire` ever answers Fatal. Every failure at the liveness check,
/// at channel creation or at the QoS step is Recoverable; the lifecycle's one
/// Fatal path is `init`'s transport borrow.
pub proof fn lemma_acquire_never_fatal<C, H>(
    connected: Connected<C>,
    flag_set: bool,
    chan_outcome: ChannelOutcome<H>,
    channel: H,
    qos_outcome: QosOutcome,
)
    ensures
        spec_gate(connected, flag_set) matches Err(e) ==> e is Recoverable,
        spec_acquire_channel(connected, chan_outcome) matches Err(e) ==> e is Recoverable,
        spec_acquire_qos(channel, connected, qos_outcome) matches Err(e) ==> e is Recoverable,
{
}

/// The InitState from which the next connection attempt starts after a
/// refused handshake: the state the Recoverable answer carries.
pub open spec fn spec_retry_state(init_state: InitState) -> InitState {
    spec_recoverable(init_state)->state
}

/// The InitState from which the connection attempt after `n` consecutive
/// handshake refusals starts.
pub open spec fn spec_state_after_refusals(init_state: InitState, n: nat) -> InitState
    decreases n,
{
    if n == 0 {
        init_state
    } else {
        spec_state_after_refusals(spec_retry_state(init_state), (n - 1) as nat)
    }
}

/// Law: however many times the broker refuses the handshake, every
/// Recoverable answer carries the original InitState, so the attempt after
/// the n-th refusal starts from a state identical to a fresh connection's.
pub proof fn lemma_refusals_preserve_state(init_state: InitState, n: nat)
    ensures
        spec_state_after_refusals(init_state, n) == init_state,
    decreases n,
{
    if n == 0 {
    } else {
        lemma_refusals_preserve_state(init_state, (n - 1) as nat);
    }
}

} // verus!
