//! The query engine: the decisions of one run over the candidate addresses
//! and the attempts that each is given. The caller does the network's work,
//! one action at a time, and reports what came of it as an event.
use vstd::prelude::*;
use crate::error::SyncError;
use crate::offset::exchange_of;
use crate::offset::Exchange;
use crate::policy::Policy;
use crate::policy::RETRY_PAUSE_MS;
use crate::wire::decode_reply;
use crate::wire::decoded;
use crate::wire::mode_of;
use crate::wire::timestamp_at;
use crate::wire::version_of;
use crate::wire::ValidationError;
use crate::wire::MODE_SERVER;

verus! {

/// Why an attempt failed.
#[derive(Clone, Copy, Debug, PartialEq, Eq, Structural)]
pub enum AttemptFailure {
    /// The request did not leave, or no reply came in time.
    Network,
    /// A datagram came, and was no acceptable reply.
    Validation(ValidationError),
}

/// Where a run stands. Validation is no state of its own: it needs nothing
/// from the caller, and is done as the datagram is handed in, on the way from
/// `AwaitingReply` to `Success` or to `RetryWait`.
#[derive(Clone, Copy, Debug, PartialEq, Eq, Structural)]
pub enum QueryState {
    /// Nothing has begun.
    Idle,
    /// The server name is being resolved.
    Resolving,
    /// A request is about to be sent to candidate `address`, as that
    /// address's attempt number `attempt`, both counted from zero.
    Sending { addresses: usize, address: usize, attempt: u32 },
    /// The request left at local time `t1_ms`; its reply is awaited.
    AwaitingReply { addresses: usize, address: usize, attempt: u32, t1_ms: i64 },
    /// The attempt failed; the run pauses before it goes on.
    RetryWait { addresses: usize, address: usize, attempt: u32, cause: AttemptFailure },
    /// A validated reply came: the run is over.
    Success { exchange: Exchange },
    /// No attempt on any address succeeded: the run is over.
    Exhausted,
    /// The server name gave no address: the run is over.
    Unresolved,
}

/// What the caller reports.
#[derive(Debug)]
pub enum QueryEvent {
    /// The run is to begin.
    Start,
    /// The server name resolved to this many candidate addresses.
    Resolved { addresses: usize },
    /// The request was handed to the network; the local clock read `t1_ms`
    /// just before.
    Sent { t1_ms: i64 },
    /// The request did not leave: no socket, no timeout, no clock reading,
    /// or the send itself failed.
    SendFailed,
    /// A datagram arrived; the local clock read `t4_ms` just after.
    Received { bytes: Vec<u8>, t4_ms: i64 },
    /// No datagram arrived in time, or receiving failed.
    ReceiveFailed,
    /// The pause is over.
    Waited,
}

/// What the caller is to do next.
#[derive(Clone, Copy, Debug, PartialEq, Eq, Structural)]
pub enum QueryAction {
    /// Report `QueryEvent::Start`.
    Start,
    /// Resolve the server name, and report how many addresses it gave.
    Resolve,
    /// Open a socket whose reads time out after `timeout_ms`, read the
    /// clock, and send the request for that reading to candidate `address`.
    Send { address: usize, timeout_ms: u64 },
    /// Wait for a datagram on the same socket, and read the clock when one
    /// arrives.
    Receive,
    /// Pause for `ms` milliseconds; `cause` says what went wrong.
    Sleep { ms: u64, cause: AttemptFailure },
    /// The run succeeded with this exchange.
    Deliver { exchange: Exchange },
    /// The run failed.
    Fail { error: SyncError },
}

/// What validation makes of a datagram that answers a request sent at
/// `t1_ms` and that arrived at `t4_ms`.
pub open spec fn validated(t1_ms: i64, bytes: Seq<u8>, t4_ms: i64) -> Result<
    Exchange,
    ValidationError,
> {
    match decoded(bytes) {
        Ok(reply) => Ok(exchange_of(t1_ms, reply, t4_ms)),
        Err(e) => Err(e),
    }
}

/// Where a run stands once the name has resolved: at the first attempt on
/// the first address, unless there is no address or no attempt to make.
pub open spec fn first_attempt(policy: Policy, addresses: usize) -> QueryState {
    if addresses == 0 {
        QueryState::Unresolved
    } else if policy.retries == 0 {
        QueryState::Exhausted
    } else {
        QueryState::Sending { addresses, address: 0, attempt: 0 }
    }
}

/// Where a run goes after a failed attempt and its pause: to the next
/// attempt on the same address, then to the first attempt on the next
/// address, then nowhere.
pub open spec fn after_failure(
    policy: Policy,
    addresses: usize,
    address: usize,
    attempt: u32,
) -> QueryState {
    if attempt + 1 < policy.retries {
        QueryState::Sending { addresses, address, attempt: (attempt + 1) as u32 }
    } else if address + 1 < addresses {
        QueryState::Sending { addresses, address: (address + 1) as usize, attempt: 0 }
    } else {
        QueryState::Exhausted
    }
}

/// The state that follows `state` on `event`. An event that the state does
/// not await leaves it as it is.
pub open spec fn next_state(policy: Policy, state: QueryState, event: QueryEvent) -> QueryState {
    match state {
        QueryState::Idle => match event {
            QueryEvent::Start => QueryState::Resolving,
            _ => state,
        },
        QueryState::Resolving => match event {
            QueryEvent::Resolved { addresses } => first_attempt(policy, addresses),
            _ => state,
        },
        QueryState::Sending { addresses, address, attempt } => match event {
            QueryEvent::Sent { t1_ms } => QueryState::AwaitingReply {
                addresses,
                address,
                attempt,
                t1_ms,
            },
            QueryEvent::SendFailed => QueryState::RetryWait {
                addresses,
                address,
                attempt,
                cause: AttemptFailure::Network,
            },
            _ => state,
        },
        QueryState::AwaitingReply { addresses, address, attempt, t1_ms } => match event {
            QueryEvent::Received { bytes, t4_ms } => match validated(t1_ms, bytes@, t4_ms) {
                Ok(exchange) => QueryState::Success { exchange },
                Err(e) => QueryState::RetryWait {
                    addresses,
                    address,
                    attempt,
                    cause: AttemptFailure::Validation(e),
                },
            },
            QueryEvent::ReceiveFailed => QueryState::RetryWait {
                addresses,
                address,
                attempt,
                cause: AttemptFailure::Network,
            },
            _ => state,
        },
        QueryState::RetryWait { addresses, address, attempt, cause } => match event {
            QueryEvent::Waited => after_failure(policy, addresses, address, attempt),
            _ => state,
        },
        QueryState::Success { exchange } => state,
        QueryState::Exhausted => state,
        QueryState::Unresolved => state,
    }
}

/// What the caller is to do in `state`.
pub open spec fn action_of(policy: Policy, state: QueryState) -> QueryAction {
    match state {
        QueryState::Idle => QueryAction::Start,
        QueryState::Resolving => QueryAction::Resolve,
        QueryState::Sending { addresses, address, attempt } => QueryAction::Send {
            address,
            timeout_ms: policy.timeout_ms,
        },
        QueryState::AwaitingReply { addresses, address, attempt, t1_ms } => QueryAction::Receive,
        QueryState::RetryWait { addresses, address, attempt, cause } => QueryAction::Sleep {
            ms: RETRY_PAUSE_MS,
            cause,
        },
        QueryState::Success { exchange } => QueryAction::Deliver { exchange },
        QueryState::Exhausted => QueryAction::Fail { error: SyncError::QueryExhausted },
        QueryState::Unresolved => QueryAction::Fail { error: SyncError::ResolutionFailed },
    }
}

impl QueryState {
    /// Whether the state names an address among the candidates and an attempt
    /// among those that the policy grants. The states that name neither are
    /// always well formed.
    pub open spec fn well_formed(self, policy: Policy) -> bool {
        match self {
            QueryState::Sending { addresses, address, attempt } => address < addresses && attempt
                < policy.retries,
            QueryState::AwaitingReply { addresses, address, attempt, t1_ms } => address
                < addresses && attempt < policy.retries,
            QueryState::RetryWait { addresses, address, attempt, cause } => address < addresses
                && attempt < policy.retries,
            _ => true,
        }
    }

    /// Whether the run is over.
    pub open spec fn terminal(self) -> bool {
        self is Success || self is Exhausted || self is Unresolved
    }

    /// Whether the run is over.
    pub fn is_terminal(&self) -> (b: bool)
        ensures
            b == self.terminal(),
    {
        match self {
            QueryState::Success { .. } => true,
            QueryState::Exhausted => true,
            QueryState::Unresolved => true,
            _ => false,
        }
    }
}

/// Decodes a datagram and, where it is an acceptable reply, forms the
/// exchange with the two local timestamps. Every datagram that decodes gives
/// an exchange, and the error of one that does not is that of decoding.
pub fn validate_reply(t1_ms: i64, bytes: &[u8], t4_ms: i64) -> (r: Result<
    Exchange,
    ValidationError,
>)
    ensures
        r == validated(t1_ms, bytes@, t4_ms),
        r is Ok <==> decoded(bytes@) is Ok,
{
    match decode_reply(bytes) {
        Ok(reply) => Ok(Exchange::from_reply(t1_ms, &reply, t4_ms)),
        Err(e) => Err(e),
    }
}

/// Where the run goes after a failed attempt and its pause.
fn advance(policy: &Policy, addresses: usize, address: usize, attempt: u32) -> (next: QueryState)
    ensures
        next == after_failure(*policy, addresses, address, attempt),
{
    if policy.retries > 0 && attempt < policy.retries - 1 {
        QueryState::Sending { addresses, address, attempt: attempt + 1 }
    } else if addresses > 0 && address < addresses - 1 {
        QueryState::Sending { addresses, address: address + 1, attempt: 0 }
    } else {
        QueryState::Exhausted
    }
}

/// Takes one event and gives the state that follows. An event that the
/// state does not await changes nothing. A well-formed state is followed by
/// a well-formed state, so a run that starts at `Idle` only ever asks for an
/// address among the candidates.
pub fn step(policy: &Policy, state: QueryState, event: &QueryEvent) -> (next: QueryState)
    ensures
        next == next_state(*policy, state, *event),
        state.well_formed(*policy) ==> next.well_formed(*policy),
{
    match state {
        QueryState::Idle => match event {
            QueryEvent::Start => QueryState::Resolving,
            _ => state,
        },
        QueryState::Resolving => match event {
            QueryEvent::Resolved { addresses } => {
                if *addresses == 0 {
                    QueryState::Unresolved
                } else if policy.retries == 0 {
                    QueryState::Exhausted
                } else {
                    QueryState::Sending { addresses: *addresses, address: 0, attempt: 0 }
                }
            },
            _ => state,
        },
        QueryState::Sending { addresses, address, attempt } => match event {
            QueryEvent::Sent { t1_ms } => QueryState::AwaitingReply {
                addresses,
                address,
                attempt,
                t1_ms: *t1_ms,
            },
            QueryEvent::SendFailed => QueryState::RetryWait {
                addresses,
                address,
                attempt,
                cause: AttemptFailure::Network,
            },
            _ => state,
        },
        QueryState::AwaitingReply { addresses, address, attempt, t1_ms } => match event {
            QueryEvent::Received { bytes, t4_ms } => {
                match validate_reply(t1_ms, bytes.as_slice(), *t4_ms) {
                    Ok(exchange) => QueryState::Success { exchange },
                    Err(e) => QueryState::RetryWait {
                        addresses,
                        address,
                        attempt,
                        cause: AttemptFailure::Validation(e),
                    },
                }
            },
            QueryEvent::ReceiveFailed => QueryState::RetryWait {
                addresses,
                address,
                attempt,
                cause: AttemptFailure::Network,
            },
            _ => state,
        },
        QueryState::RetryWait { addresses, address, attempt, cause } => match event {
            QueryEvent::Waited => advance(policy, addresses, address, attempt),
            _ => state,
        },
        QueryState::Success { exchange } => state,
        QueryState::Exhausted => state,
        QueryState::Unresolved => state,
    }
}

/// What the caller is to do next.
pub fn pending_action(policy: &Policy, state: &QueryState) -> (action: QueryAction)
    ensures
        action == action_of(*policy, *state),
{
    match state {
        QueryState::Idle => QueryAction::Start,
        QueryState::Resolving => QueryAction::Resolve,
        QueryState::Sending { addresses, address, attempt } => QueryAction::Send {
            address: *address,
            timeout_ms: policy.timeout_ms,
        },
        QueryState::AwaitingReply { .. } => QueryAction::Receive,
        QueryState::RetryWait { addresses, address, attempt, cause } => QueryAction::Sleep {
            ms: RETRY_PAUSE_MS,
            cause: *cause,
        },
        QueryState::Success { exchange } => QueryAction::Deliver { exchange: *exchange },
        QueryState::Exhausted => QueryAction::Fail { error: SyncError::QueryExhausted },
        QueryState::Unresolved => QueryAction::Fail { error: SyncError::ResolutionFailed },
    }
}

/// The state that a run reaches from `state` when it takes `events` in
/// order.
pub open spec fn run(policy: Policy, state: QueryState, events: Seq<QueryEvent>) -> QueryState
    decreases events.len(),
{
    if events.len() == 0 {
        state
    } else {
        next_state(policy, run(policy, state, events.drop_last()), events.last())
    }
}

/// The state that a run reaches from `state` when it goes through
/// `attempts` in order, each the events of one attempt.
pub open spec fn run_attempts(
    policy: Policy,
    state: QueryState,
    attempts: Seq<Seq<QueryEvent>>,
) -> QueryState
    decreases attempts.len(),
{
    if attempts.len() == 0 {
        state
    } else {
        run(policy, run_attempts(policy, state, attempts.drop_last()), attempts.last())
    }
}

/// Whether `events` are those of one failed attempt and its pause: the
/// request did not leave; or it left and no datagram came; or one came and
/// validation refused it.
pub open spec fn is_failed_attempt(events: Seq<QueryEvent>) -> bool {
    ||| events.len() == 2 && events[0] is SendFailed && events[1] is Waited
    ||| events.len() == 3 && events[0] is Sent && events[1] is ReceiveFailed && events[2] is Waited
    ||| events.len() == 3 && events[2] is Waited && (events[0] matches QueryEvent::Sent { t1_ms }
        && (events[1] matches QueryEvent::Received { bytes, t4_ms } && validated(
        t1_ms,
        bytes@,
        t4_ms,
    ) is Err))
}

/// Whether `events` are those of one attempt that a datagram of full length
/// with a mode other than the server's answered.
pub open spec fn is_wrong_mode_attempt(events: Seq<QueryEvent>) -> bool {
    &&& events.len() == 3
    &&& events[0] is Sent
    &&& events[1] matches QueryEvent::Received { bytes, t4_ms } && bytes@.len() >= 48 && mode_of(
        bytes@[0],
    ) != MODE_SERVER
    &&& events[2] is Waited
}

/// Where a run over `addresses` candidates stands after `failures` failed
/// attempts and no other.
pub open spec fn state_after_failures(
    policy: Policy,
    addresses: usize,
    failures: nat,
) -> QueryState {
    if addresses == 0 {
        QueryState::Unresolved
    } else if failures >= addresses * policy.retries {
        QueryState::Exhausted
    } else {
        QueryState::Sending {
            addresses,
            address: (failures / policy.retries as nat) as usize,
            attempt: (failures % policy.retries as nat) as u32,
        }
    }
}

/// A run that is over stays where it is, whatever is reported.
pub proof fn lemma_terminal_states_absorb(policy: Policy, state: QueryState, event: QueryEvent)
    requires
        state.terminal(),
    ensures
        next_state(policy, state, event) == state,
{
}

/// A run succeeds only on a datagram that validation accepts, and then with
/// the exchange that validation formed.
pub proof fn lemma_success_needs_valid_reply(policy: Policy, state: QueryState, event: QueryEvent)
    requires
        !(state is Success),
        next_state(policy, state, event) is Success,
    ensures
        state is AwaitingReply,
        event is Received,
        validated(
            state->AwaitingReply_t1_ms,
            event->Received_bytes@,
            event->Received_t4_ms,
        ) == Ok::<Exchange, ValidationError>(next_state(policy, state, event)->Success_exchange),
{
}

/// A datagram that decodes ends the attempt in `Success`, with the exchange
/// of the decoded reply and the two local timestamps.
pub proof fn lemma_decoded_reply_succeeds(policy: Policy, state: QueryState, event: QueryEvent)
    requires
        state is AwaitingReply,
        event is Received,
        decoded(event->Received_bytes@) is Ok,
    ensures
        validated(state->AwaitingReply_t1_ms, event->Received_bytes@, event->Received_t4_ms)
            is Ok,
        next_state(policy, state, event) == (QueryState::Success {
            exchange: exchange_of(
                state->AwaitingReply_t1_ms,
                decoded(event->Received_bytes@)->Ok_0,
                event->Received_t4_ms,
            ),
        }),
{
}

/// Every datagram of at least 48 octets with server mode, a stratum other
/// than zero, a version from 1 to 4 and a transmit time at or after the Unix
/// epoch ends the attempt in `Success`, whatever its other octets hold.
pub proof fn lemma_valid_reply_succeeds(policy: Policy, state: QueryState, event: QueryEvent)
    requires
        state is AwaitingReply,
        event is Received,
        event->Received_bytes@.len() >= 48,
        mode_of(event->Received_bytes@[0]) == MODE_SERVER,
        event->Received_bytes@[1] != 0,
        1 <= version_of(event->Received_bytes@[0]) <= 4,
        timestamp_at(event->Received_bytes@, 40).after_unix_epoch(),
    ensures
        next_state(policy, state, event) is Success,
{
}

/// A failed attempt moves a run from `Sending` to where `after_failure`
/// says.
pub proof fn lemma_failed_attempt_advances(
    policy: Policy,
    addresses: usize,
    address: usize,
    attempt: u32,
    events: Seq<QueryEvent>,
)
    requires
        is_failed_attempt(events),
    ensures
        run(policy, QueryState::Sending { addresses, address, attempt }, events) == after_failure(
            policy,
            addresses,
            address,
            attempt,
        ),
{
    let start = QueryState::Sending { addresses, address, attempt };
    reveal_with_fuel(run, 4);
    if events.len() == 2 {
        let head = events.drop_last();
        assert(head.len() == 1);
        assert(head.last() == events[0]);
        assert(head.drop_last().len() == 0);
        assert(run(policy, start, head) == next_state(policy, start, events[0]));
    } else {
        let head = events.drop_last();
        let neck = head.drop_last();
        assert(head.len() == 2);
        assert(head.last() == events[1]);
        assert(neck.len() == 1);
        assert(neck.last() == events[0]);
        assert(neck.drop_last().len() == 0);
        assert(run(policy, start, neck) == next_state(policy, start, events[0]));
        assert(run(policy, start, head) == next_state(
            policy,
            next_state(policy, start, events[0]),
            events[1],
        ));
    }
}

/// The step from `failures` failed attempts to one more.
proof fn lemma_one_more_failure(policy: Policy, addresses: usize, failures: nat)
    requires
        addresses >= 1,
        failures < addresses * policy.retries,
    ensures
        state_after_failures(policy, addresses, failures) matches QueryState::Sending {
            addresses: n,
            address,
            attempt,
        } && n == addresses && after_failure(policy, addresses, address, attempt)
            == state_after_failures(policy, addresses, failures + 1),
{
    let r = policy.retries as int;
    let n = addresses as int;
    let k = failures as int;
    assert(r > 0) by (nonlinear_arith)
        requires
            0 <= k < n * r,
            n >= 1,
            r >= 0,
    ;
    let a = k / r;
    let j = k % r;
    vstd::arithmetic::div_mod::lemma_fundamental_div_mod(k, r);
    assert(0 <= j < r);
    assert(0 <= a < n) by (nonlinear_arith)
        requires
            k == r * a + j,
            0 <= j < r,
            0 <= k < n * r,
            r > 0,
    ;
    if j + 1 < r {
        vstd::arithmetic::div_mod::lemma_fundamental_div_mod_converse(k + 1, r, a, j + 1);
        assert(k + 1 < n * r) by (nonlinear_arith)
            requires
                k == r * a + j,
                j + 1 < r,
                0 <= a < n,
                r > 0,
        ;
    } else {
        assert(k + 1 == (a + 1) * r) by (nonlinear_arith)
            requires
                k == r * a + j,
                j + 1 == r,
        ;
        vstd::arithmetic::div_mod::lemma_fundamental_div_mod_converse(k + 1, r, a + 1, 0);
        if a + 1 < n {
            assert(k + 1 < n * r) by (nonlinear_arith)
                requires
                    k + 1 == (a + 1) * r,
                    a + 1 < n,
                    r > 0,
            ;
        } else {
            assert(k + 1 >= n * r) by (nonlinear_arith)
                requires
                    k + 1 == (a + 1) * r,
                    a + 1 >= n,
                    r > 0,
            ;
        }
    }
}

/// A run whose attempts all fail stands, after each of them, where the count
/// of failures says: at the next attempt while fewer than `addresses` times
/// `retries` attempts have failed, and at `Exhausted` from then on, not
/// before.
pub proof fn lemma_failures_exhaust(
    policy: Policy,
    addresses: usize,
    attempts: Seq<Seq<QueryEvent>>,
)
    requires
        addresses >= 1,
        attempts.len() <= addresses * policy.retries,
        forall|i: int| 0 <= i < attempts.len() ==> is_failed_attempt(#[trigger] attempts[i]),
    ensures
        run_attempts(policy, first_attempt(policy, addresses), attempts) == state_after_failures(
            policy,
            addresses,
            attempts.len(),
        ),
        attempts.len() == addresses * policy.retries <==> run_attempts(
            policy,
            first_attempt(policy, addresses),
            attempts,
        ) is Exhausted,
    decreases attempts.len(),
{
    if attempts.len() == 0 {
        if policy.retries > 0 {
            assert(addresses * policy.retries > 0) by (nonlinear_arith)
                requires
                    addresses >= 1,
                    policy.retries > 0,
            ;
            vstd::arithmetic::div_mod::lemma_fundamental_div_mod_converse(
                0,
                policy.retries as int,
                0,
                0,
            );
        } else {
            assert(addresses * policy.retries == 0) by (nonlinear_arith)
                requires
                    policy.retries == 0,
            ;
        }
    } else {
        let earlier = attempts.drop_last();
        let failures = earlier.len();
        assert forall|i: int| 0 <= i < earlier.len() implies is_failed_attempt(
            #[trigger] earlier[i],
        ) by {
            assert(earlier[i] == attempts[i]);
        }
        lemma_failures_exhaust(policy, addresses, earlier);
        lemma_one_more_failure(policy, addresses, failures);
        let before = state_after_failures(policy, addresses, failures);
        assert(is_failed_attempt(attempts[attempts.len() - 1]));
        lemma_failed_attempt_advances(
            policy,
            addresses,
            before->Sending_address,
            before->Sending_attempt,
            attempts.last(),
        );
    }
}

/// An attempt that a datagram of full length with a mode other than the
/// server's answered is a failed attempt, and the run pauses with
/// `InvalidMode` as the cause.
pub proof fn lemma_wrong_mode_fails(
    policy: Policy,
    addresses: usize,
    address: usize,
    attempt: u32,
    events: Seq<QueryEvent>,
)
    requires
        is_wrong_mode_attempt(events),
    ensures
        is_failed_attempt(events),
        run(policy, QueryState::Sending { addresses, address, attempt }, events.drop_last()) == (
        QueryState::RetryWait {
            addresses,
            address,
            attempt,
            cause: AttemptFailure::Validation(ValidationError::InvalidMode),
        }),
{
    reveal_with_fuel(run, 3);
    let head = events.drop_last();
    let neck = head.drop_last();
    assert(head.len() == 2);
    assert(head.last() == events[1]);
    assert(neck.len() == 1);
    assert(neck.last() == events[0]);
    assert(neck.drop_last().len() == 0);
}

/// A server that answers every attempt with a mode other than the server's
/// exhausts a run on one address after exactly `retries` attempts: after
/// fewer the run stands at its next attempt, and with the last of them it
/// ends in `Exhausted`, where the caller is told that the query failed.
pub proof fn lemma_wrong_mode_exhausts(policy: Policy, attempts: Seq<Seq<QueryEvent>>)
    requires
        attempts.len() <= policy.retries,
        forall|i: int| 0 <= i < attempts.len() ==> is_wrong_mode_attempt(#[trigger] attempts[i]),
    ensures
        run(
            policy,
            QueryState::Idle,
            seq![QueryEvent::Start, QueryEvent::Resolved { addresses: 1 }],
        ) == first_attempt(policy, 1),
        attempts.len() < policy.retries ==> run_attempts(
            policy,
            first_attempt(policy, 1),
            attempts,
        ) == (QueryState::Sending { addresses: 1, address: 0, attempt: attempts.len() as u32 }),
        attempts.len() == policy.retries ==> run_attempts(
            policy,
            first_attempt(policy, 1),
            attempts,
        ) == QueryState::Exhausted && action_of(policy, QueryState::Exhausted) == (
        QueryAction::Fail { error: SyncError::QueryExhausted }),
{
    let opening = seq![QueryEvent::Start, QueryEvent::Resolved { addresses: 1 }];
    assert(run(policy, QueryState::Idle, opening) == first_attempt(policy, 1)) by {
        reveal_with_fuel(run, 3);
        let head = opening.drop_last();
        assert(head.len() == 1);
        assert(head.last() == opening[0]);
        assert(head.drop_last().len() == 0);
    }
    assert forall|i: int| 0 <= i < attempts.len() implies is_failed_attempt(
        #[trigger] attempts[i],
    ) by {
        lemma_wrong_mode_fails(policy, 1, 0, 0, attempts[i]);
    }
    assert(1 * policy.retries == policy.retries) by (nonlinear_arith);
    lemma_failures_exhaust(policy, 1, attempts);
    if attempts.len() < policy.retries {
        vstd::arithmetic::div_mod::lemma_fundamental_div_mod_converse(
            attempts.len() as int,
            policy.retries as int,
            0,
            attempts.len() as int,
        );
    }
}

} // verus!
