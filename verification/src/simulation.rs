//! Routing against simulated collaborators.
//!
//! A simulation plays a request through the router with answers that are
//! given beforehand: for each attempt what the credential store holds,
//! what the signer returns, and how the dispatch ends. It shows what the
//! router would ask of the real collaborators, and in which order.

use vstd::prelude::*;
use vstd::pervasive::unreached;
use crate::auth::{
    credentials_of, AuthenticationView, CredentialLookup, CredentialLookupView, HeaderView,
    Signature, SignatureView,
};
use crate::config::RouterConfig;
use crate::error::LocationError;
use crate::location::{HostEnvironment, HostEnvironmentView};
use crate::router::{
    initial, location_in, start_of, succeeds, Action, ActionView, BackendRequest,
    BackendRequestView, Event, InboundRequest, InboundRequestView, Outcome, Phase, Router,
    RouterView, MAX_ATTEMPTS,
};

verus! {

/// What the collaborators answer in one attempt. The lookup and the
/// signature are used only where the router asks for them.
#[derive(Clone, Debug, PartialEq, Eq)]
pub struct Simulated {
    /// What the credential store gives.
    pub lookup: CredentialLookup,
    /// What the signer returns.
    pub signature: Signature,
    /// How the dispatch ends.
    pub outcome: Outcome,
}

/// Simulated answers as mathematics.
pub struct SimulatedView {
    pub lookup: CredentialLookupView,
    pub signature: SignatureView,
    pub outcome: Outcome,
}

impl View for Simulated {
    type V = SimulatedView;

    open spec fn view(&self) -> SimulatedView {
        SimulatedView { lookup: self.lookup@, signature: self.signature@, outcome: self.outcome }
    }
}

/// What a simulation shows: the requests that were dispatched, in order,
/// and how the routing ended.
#[derive(Clone, Debug, PartialEq, Eq)]
pub struct Trace {
    /// The dispatched requests, one for each attempt that was made.
    pub dispatched: Vec<BackendRequest>,
    /// The action that ended the routing: `Action::Respond` or
    /// `Action::Fail`. `None` where the simulated answers ran out first.
    pub verdict: Option<Action>,
}

/// A trace as mathematics.
pub struct TraceView {
    pub dispatched: Seq<BackendRequestView>,
    pub verdict: Option<ActionView>,
}

/// The requests of a sequence of requests, as mathematics.
pub open spec fn request_views(requests: Seq<BackendRequest>) -> Seq<BackendRequestView> {
    requests.map_values(|request: BackendRequest| request@)
}

/// The answers of a sequence of simulated answers, as mathematics.
pub open spec fn simulated_views(attempts: Seq<Simulated>) -> Seq<SimulatedView> {
    attempts.map_values(|simulated: Simulated| simulated@)
}

impl View for Trace {
    type V = TraceView;

    open spec fn view(&self) -> TraceView {
        TraceView {
            dispatched: request_views(self.dispatched@),
            verdict: match self.verdict {
                Some(action) => Some(action@),
                None => None,
            },
        }
    }
}

/// One attempt, from the action that begins it to the action that
/// follows its outcome: the request that is dispatched, and the router
/// and the action afterwards.
pub open spec fn play_attempt(
    router: RouterView,
    action: ActionView,
    simulated: SimulatedView,
) -> (BackendRequestView, (RouterView, ActionView)) {
    let looked_up = match action {
        ActionView::LookUpCredentials(_) => router.after_credentials(simulated.lookup),
        _ => (router, action),
    };
    let signed = match looked_up.1 {
        ActionView::Sign(_) => looked_up.0.after_signature(simulated.signature),
        _ => looked_up,
    };
    (signed.1->Dispatch_0, signed.0.after_outcome(simulated.outcome))
}

/// The routing from `action` on, attempt by attempt, until it ends or
/// the simulated answers run out.
pub open spec fn play(
    router: RouterView,
    action: ActionView,
    attempts: Seq<SimulatedView>,
) -> TraceView
    decreases attempts.len(),
{
    if action is Respond || action is Fail {
        TraceView { dispatched: Seq::empty(), verdict: Some(action) }
    } else if attempts.len() == 0 {
        TraceView { dispatched: Seq::empty(), verdict: None }
    } else {
        let (request, next) = play_attempt(router, action, attempts[0]);
        let rest = play(next.0, next.1, attempts.drop_first());
        TraceView { dispatched: seq![request] + rest.dispatched, verdict: rest.verdict }
    }
}

/// The routing of `request` under simulated answers.
pub open spec fn simulation_of(
    config: RouterConfig,
    request: InboundRequestView,
    environment: HostEnvironmentView,
    attempts: Seq<SimulatedView>,
) -> Result<TraceView, LocationError> {
    match start_of(config, request, environment) {
        Ok((router, action)) => Ok(play(router, action, attempts)),
        Err(e) => Err(e),
    }
}

/// How an attempt is authenticated: by the simulated signature where
/// attempts are signed, the method only reads and the store holds both
/// keys; and not at all otherwise, for the first reason that applies.
pub open spec fn authentication_in(
    router: RouterView,
    simulated: SimulatedView,
) -> AuthenticationView {
    match router.gate() {
        Some(reason) => AuthenticationView::Unsigned(reason),
        None => match credentials_of(simulated.lookup) {
            Ok(_) => AuthenticationView::Signed(simulated.signature),
            Err(reason) => AuthenticationView::Unsigned(reason),
        },
    }
}

/// The request that attempt `attempt` dispatches.
pub open spec fn request_in(
    router: RouterView,
    attempt: nat,
    simulated: SimulatedView,
) -> BackendRequestView {
    router.at(attempt, Phase::AwaitingOutcome).request(authentication_in(router, simulated))
}

/// The header that names the host of the origin of attempt `attempt`.
pub open spec fn diagnostic_in(router: RouterView, attempt: nat) -> HeaderView {
    router.at(attempt, Phase::AwaitingOutcome).diagnostic()
}

/// How the routing ends where the last origin has not succeeded either.
pub open spec fn exhausted_verdict(
    router: RouterView,
    attempt: nat,
    outcome: Outcome,
) -> ActionView {
    match outcome {
        Outcome::Response { .. } => ActionView::Respond {
            attempt,
            diagnostic: diagnostic_in(router, attempt),
        },
        Outcome::TransportError => ActionView::Fail { attempt },
    }
}

/// The routing from the beginning of attempt `attempt` on, said without
/// the router's steps: the attempt dispatches its request; a success
/// answers at once, anything else goes on to the next origin, and after
/// the last origin the routing ends with what that origin gave.
pub open spec fn failover(
    router: RouterView,
    attempt: nat,
    attempts: Seq<SimulatedView>,
) -> TraceView
    decreases attempts.len(),
{
    if attempts.len() == 0 {
        TraceView { dispatched: Seq::empty(), verdict: None }
    } else {
        let request = seq![request_in(router, attempt, attempts[0])];
        let outcome = attempts[0].outcome;
        if succeeds(outcome) {
            TraceView {
                dispatched: request,
                verdict: Some(
                    ActionView::Respond { attempt, diagnostic: diagnostic_in(router, attempt) },
                ),
            }
        } else if attempt + 1 < MAX_ATTEMPTS {
            let rest = failover(router, attempt + 1, attempts.drop_first());
            TraceView { dispatched: request + rest.dispatched, verdict: rest.verdict }
        } else {
            TraceView {
                dispatched: request,
                verdict: Some(exhausted_verdict(router, attempt, outcome)),
            }
        }
    }
}

/// The routing of `request` under simulated answers, said without the
/// router's steps: the failover from the first origin of the list that
/// serves the request's location.
pub open spec fn failover_of(
    config: RouterConfig,
    request: InboundRequestView,
    environment: HostEnvironmentView,
    attempts: Seq<SimulatedView>,
) -> Result<TraceView, LocationError> {
    match location_in(config, request, environment) {
        Ok(code) => Ok(failover(initial(config, request, code), 0, attempts)),
        Err(e) => Err(e),
    }
}

/// Played step by step, the routing is the failover.
pub proof fn lemma_play_is_failover(
    router: RouterView,
    attempt: nat,
    attempts: Seq<SimulatedView>,
)
    requires
        attempt < MAX_ATTEMPTS,
    ensures
        play(router.begin(attempt).0, router.begin(attempt).1, attempts) == failover(
            router,
            attempt,
            attempts,
        ),
    decreases attempts.len(),
{
    let (begun, action) = router.begin(attempt);
    if attempts.len() > 0 {
        let (request, next) = play_attempt(begun, action, attempts[0]);
        assert(request == request_in(router, attempt, attempts[0]));
        if !succeeds(attempts[0].outcome) && attempt + 1 < MAX_ATTEMPTS {
            assert(next == router.begin(attempt + 1));
            lemma_play_is_failover(router, attempt + 1, attempts.drop_first());
        } else {
            // The routing has ended: what is left of the answers adds nothing.
            let rest = play(next.0, next.1, attempts.drop_first());
            assert(rest.dispatched =~= Seq::<BackendRequestView>::empty());
        }
    }
}

/// Request number `i` of a failover that begins at attempt `attempt` is
/// the request of attempt `attempt + i`, made with the answers of
/// `attempts[i]`.
pub proof fn lemma_failover_requests(
    router: RouterView,
    attempt: nat,
    attempts: Seq<SimulatedView>,
    i: int,
)
    requires
        attempt < MAX_ATTEMPTS,
        0 <= i < failover(router, attempt, attempts).dispatched.len(),
    ensures
        i < attempts.len(),
        attempt + i < MAX_ATTEMPTS,
        failover(router, attempt, attempts).dispatched[i] == request_in(
            router,
            (attempt + i) as nat,
            attempts[i],
        ),
    decreases attempts.len(),
{
    if attempts.len() > 0 && i > 0 {
        lemma_failover_requests(router, attempt + 1, attempts.drop_first(), i - 1);
    }
}

/// Played step by step, the routing of a request is the failover from
/// the first origin of the list that serves the request's location.
pub proof fn lemma_simulation_is_failover(
    config: RouterConfig,
    request: InboundRequestView,
    environment: HostEnvironmentView,
    attempts: Seq<SimulatedView>,
)
    ensures
        simulation_of(config, request, environment, attempts) == failover_of(
            config,
            request,
            environment,
            attempts,
        ),
{
    if let Ok(code) = location_in(config, request, environment) {
        lemma_play_is_failover(initial(config, request, code), 0, attempts);
    }
}

/// Routes `request` with `attempts` in place of the collaborators: the
/// answers of `attempts[i]` are those of attempt `i`. The trace is that
/// of the router's steps, which is the failover.
pub fn simulate(
    config: &RouterConfig,
    request: InboundRequest,
    environment: &HostEnvironment,
    attempts: Vec<Simulated>,
) -> (trace: Result<Trace, LocationError>)
    ensures
        match simulation_of(*config, request@, environment@, simulated_views(attempts@)) {
            Ok(expected) => trace matches Ok(t) && t@ == expected,
            Err(e) => trace matches Err(f) && f == e,
        },
        match failover_of(*config, request@, environment@, simulated_views(attempts@)) {
            Ok(expected) => trace matches Ok(t) && t@ == expected,
            Err(e) => trace matches Err(f) && f == e,
        },
{
    let ghost asked = request@;
    let ghost script = simulated_views(attempts@);
    let ghost goal = simulation_of(*config, asked, environment@, script);
    proof {
        lemma_simulation_is_failover(*config, asked, environment@, script);
    }
    let (router, action) = match Router::start(config, request, environment) {
        Ok(started) => started,
        Err(e) => {
            return Err(e);
        },
    };
    let mut router = router;
    let mut action = action;
    let mut remaining = attempts;
    let mut dispatched: Vec<BackendRequest> = Vec::new();
    proof {
        use_type_invariant(&router);
    }
    loop
        invariant
            asked == request@,
            script == simulated_views(attempts@),
            goal == simulation_of(*config, asked, environment@, script),
            goal == failover_of(*config, asked, environment@, script),
            goal is Ok,
            router@.expects(action@),
            !(action@ is Sign),
            goal->Ok_0.dispatched == request_views(dispatched@) + play(
                router@,
                action@,
                simulated_views(remaining@),
            ).dispatched,
            goal->Ok_0.verdict == play(router@, action@, simulated_views(remaining@)).verdict,
        decreases remaining.len(),
    {
        let ended = match &action {
            Action::Respond { .. } => true,
            Action::Fail { .. } => true,
            _ => false,
        };
        if ended {
            return Ok(Trace { dispatched, verdict: Some(action) });
        }
        if remaining.len() == 0 {
            return Ok(Trace { dispatched, verdict: None });
        }
        let ghost before = simulated_views(remaining@);
        let simulated = remaining.remove(0);
        proof {
            use_type_invariant(&router);
            assert(simulated_views(remaining@) =~= before.drop_first());
        }
        let Simulated { lookup, signature, outcome } = simulated;
        let looked_up = match action {
            Action::LookUpCredentials(_) => match router.step(Event::Credentials(lookup)) {
                Ok(next) => next,
                Err(_) => unreached(),
            },
            other => other,
        };
        let signed = match looked_up {
            Action::Sign(_) => match router.step(Event::Signed(signature)) {
                Ok(next) => next,
                Err(_) => unreached(),
            },
            other => other,
        };
        let request = match signed {
            Action::Dispatch(request) => request,
            _ => unreached(),
        };
        dispatched.push(request);
        action =
        match router.step(Event::Outcome(outcome)) {
            Ok(next) => next,
            Err(_) => unreached(),
        };
    }
}

} // verus!
