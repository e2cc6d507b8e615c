//! What holds of the router, whatever the configuration, the request and
//! the answers of the collaborators.

use vstd::prelude::*;
use crate::auth::{
    credentials_of, is_signable, signature_headers, AuthenticationView, HeaderView,
};
use crate::config::{
    first_offender, is_configured, lemma_first_offender, list_conforms, registry_conforms,
    RouterConfig,
};
use crate::location::HostEnvironmentView;
use crate::origin::{bucket_address, is_priority_order, OriginView};
use crate::region::{lemma_found_regions_are_named, region_found, region_of};
use crate::registry::{lemma_table_holds_entries, LocationRegistry};
use crate::router::{
    chosen_location, initial, location_in, start_of, succeeds, ActionView, EventView,
    InboundRequestView, Outcome, Phase, RouterView, DIAGNOSTIC_HEADER, HOST_HEADER, MAX_ATTEMPTS,
};
use crate::simulation::{
    failover, lemma_failover_requests, lemma_simulation_is_failover, simulation_of, SimulatedView,
};

verus! {

/// Every registry serves every location: with the list of the
/// location's entry where it has one, with the fallback where it has
/// none, and either way with three origins of which no two are alike.
pub proof fn law_every_location_is_served(registry: LocationRegistry, code: Seq<char>)
    requires
        registry.well_formed(),
    ensures
        registry.table().contains_key(code) ==> registry.resolve_spec(code)
            == registry.table()[code],
        !registry.table().contains_key(code) ==> registry.resolve_spec(code)
            == registry.fallback(),
        is_priority_order(registry.resolve_spec(code)),
{
    if registry.table().contains_key(code) {
        let entries = registry.entries();
        lemma_table_holds_entries(entries, code);
        let k = choose|k: int|
            0 <= k < entries.len() && #[trigger] entries[k] == (code, registry.table()[code]);
        assert(is_priority_order(entries[k].1));
    }
}

/// A registry with an origin whose host does not follow the naming
/// convention of regional endpoints does not conform, whatever the
/// pattern captures: where requests are signed, `RouterConfig::new`
/// refuses it.
pub proof fn law_hosts_outside_the_convention_are_refused(
    registry: LocationRegistry,
    origin: OriginView,
)
    requires
        is_configured(registry, origin),
        region_of(origin.bucket_host) is None,
    ensures
        !registry_conforms(registry),
        first_offender(registry) is Some,
{
    lemma_found_regions_are_named(origin.bucket_host);
    lemma_first_offender(registry);
    if registry.fallback().contains(origin) {
        let list = registry.fallback();
        let i = choose|i: int| 0 <= i < list.len() && list[i] == origin;
        assert(region_found(list[i].bucket_host) is None);
    } else {
        let k = choose|k: int|
            0 <= k < registry.entries().len() && (#[trigger] registry.entries()[k]).1.contains(
                origin,
            );
        let list = registry.entries()[k].1;
        let i = choose|i: int| 0 <= i < list.len() && list[i] == origin;
        assert(region_found(list[i].bucket_host) is None);
        assert(!list_conforms(registry.entries()[k].1));
    }
}

/// Routing begins exactly where the location of the request can be
/// determined: no location is without origins. It begins at the first
/// origin of the list that serves the location, with a router that is
/// valid.
pub proof fn law_routing_begins(
    config: RouterConfig,
    request: InboundRequestView,
    environment: HostEnvironmentView,
)
    requires
        config.valid(),
    ensures
        start_of(config, request, environment) is Ok <==> location_in(
            config,
            request,
            environment,
        ) is Ok,
        start_of(config, request, environment) matches Ok((router, action)) ==> {
            &&& router.valid()
            &&& router.expects(action)
            &&& router.attempt == 0
            &&& router.plan == config.registry().resolve_spec(
                location_in(config, request, environment)->Ok_0,
            )
        },
{
    if let Ok(code) = location_in(config, request, environment) {
        law_every_location_is_served(config.registry(), code);
        if config.registry().table().contains_key(code) {
            let entries = config.registry().entries();
            lemma_table_holds_entries(entries, code);
            let k = choose|k: int|
                0 <= k < entries.len() && #[trigger] entries[k] == (
                    code,
                    config.registry().table()[code],
                );
            assert(config.authenticator().signs() ==> list_conforms(entries[k].1));
        }
    }
}

/// A step is taken exactly where the event answers what the router is
/// waiting for. It leaves the router valid, keeps its plan and its
/// request, and never goes back to an earlier origin.
pub proof fn law_steps_keep_the_router_valid(router: RouterView, event: EventView)
    requires
        router.valid(),
    ensures
        router.step(event) is Some <==> match router.phase {
            Phase::AwaitingCredentials => event is Credentials,
            Phase::AwaitingSignature => event is Signed,
            Phase::AwaitingOutcome => event is Outcome,
            Phase::Finished => false,
        },
        router.step(event) matches Some((next, action)) ==> {
            &&& next.valid()
            &&& next.expects(action)
            &&& next.plan == router.plan
            &&& next.signing == router.signing
            &&& next.method == router.method
            &&& next.path == router.path
            &&& router.attempt <= next.attempt
        },
{
}

/// The first success ends the routing: its response is returned at
/// once, under the name of the host that gave it, and no further origin
/// is attempted.
pub proof fn law_success_ends_the_routing(router: RouterView, outcome: Outcome)
    requires
        router.phase is AwaitingOutcome,
        succeeds(outcome),
    ensures
        router.step(EventView::Outcome(outcome)) == Some(
            (
                router.at(router.attempt, Phase::Finished),
                ActionView::Respond {
                    attempt: router.attempt,
                    diagnostic: HeaderView {
                        name: DIAGNOSTIC_HEADER@,
                        value: bucket_address(router.plan[router.attempt as int]),
                    },
                },
            ),
        ),
{
}

/// Before the last origin, a transport error counts as a failing
/// response does: either way the next origin is attempted.
pub proof fn law_failures_fail_over(router: RouterView, outcome: Outcome)
    requires
        router.phase is AwaitingOutcome,
        router.attempt + 1 < MAX_ATTEMPTS,
        !succeeds(outcome),
    ensures
        router.step(EventView::Outcome(outcome)) == Some(router.begin(router.attempt + 1)),
        router.step(EventView::Outcome(outcome)) == router.step(
            EventView::Outcome(Outcome::TransportError),
        ),
{
}

/// After the last origin nothing is attempted any more. Its failing
/// response is returned as it is, under the name of its host; only a
/// transport error is handed on as an error.
pub proof fn law_exhaustion_returns_the_last_response(router: RouterView, outcome: Outcome)
    requires
        router.phase is AwaitingOutcome,
        router.attempt + 1 == MAX_ATTEMPTS,
        !succeeds(outcome),
    ensures
        router.step(EventView::Outcome(outcome)) matches Some((next, action)) && {
            &&& next.phase is Finished
            &&& outcome is Response ==> action == ActionView::Respond {
                attempt: router.attempt,
                diagnostic: router.diagnostic(),
            }
            &&& outcome is TransportError ==> action == ActionView::Fail {
                attempt: router.attempt,
            }
        },
{
}

/// No request is dispatched more than three times, and never more often
/// than there are answers.
pub proof fn law_at_most_three_dispatches(
    config: RouterConfig,
    request: InboundRequestView,
    environment: HostEnvironmentView,
    attempts: Seq<SimulatedView>,
)
    ensures
        simulation_of(config, request, environment, attempts) matches Ok(trace) ==> {
            &&& trace.dispatched.len() <= MAX_ATTEMPTS
            &&& trace.dispatched.len() <= attempts.len()
        },
{
    lemma_simulation_is_failover(config, request, environment, attempts);
    if let Ok(code) = location_in(config, request, environment) {
        let router = initial(config, request, code);
        let trace = failover(router, 0, attempts);
        if trace.dispatched.len() > 0 {
            lemma_failover_requests(router, 0, attempts, trace.dispatched.len() - 1);
        }
    }
}

/// Dispatch number `i` goes to origin number `i` of the list that serves
/// the request's location: to its backend, under the host of its bucket,
/// with the method and the path of the inbound request, and without a
/// query.
pub proof fn law_dispatches_follow_the_plan(
    config: RouterConfig,
    request: InboundRequestView,
    environment: HostEnvironmentView,
    attempts: Seq<SimulatedView>,
    i: int,
)
    requires
        simulation_of(config, request, environment, attempts) is Ok,
        0 <= i < simulation_of(config, request, environment, attempts)->Ok_0.dispatched.len(),
    ensures
        ({
            let sent = simulation_of(config, request, environment, attempts)->Ok_0.dispatched[i];
            let origin = config.registry().resolve_spec(
                location_in(config, request, environment)->Ok_0,
            )[i];
            &&& sent.backend == origin.backend_name
            &&& sent.host == bucket_address(origin)
            &&& sent.method == request.method
            &&& sent.path == request.path
            &&& sent.query is None
        }),
{
    lemma_simulation_is_failover(config, request, environment, attempts);
    let code = location_in(config, request, environment)->Ok_0;
    lemma_failover_requests(initial(config, request, code), 0, attempts, i);
}

/// Where the first origin succeeds, exactly one request is dispatched,
/// whatever the other origins would have answered, and the response of
/// the first origin is returned under the name of its host.
pub proof fn law_first_success_takes_one_dispatch(
    config: RouterConfig,
    request: InboundRequestView,
    environment: HostEnvironmentView,
    attempts: Seq<SimulatedView>,
)
    requires
        attempts.len() >= 1,
        succeeds(attempts[0].outcome),
    ensures
        simulation_of(config, request, environment, attempts) matches Ok(trace) ==> {
            &&& trace.dispatched.len() == 1
            &&& trace.verdict == Some(
                ActionView::Respond {
                    attempt: 0,
                    diagnostic: HeaderView {
                        name: DIAGNOSTIC_HEADER@,
                        value: bucket_address(
                            config.registry().resolve_spec(
                                location_in(config, request, environment)->Ok_0,
                            )[0],
                        ),
                    },
                },
            )
        },
{
    lemma_simulation_is_failover(config, request, environment, attempts);
}

/// Where the first two origins fail and the third succeeds, exactly
/// three requests are dispatched, and the response of the third origin
/// is returned under the name of the third origin's host.
pub proof fn law_third_origin_answers(
    config: RouterConfig,
    request: InboundRequestView,
    environment: HostEnvironmentView,
    attempts: Seq<SimulatedView>,
)
    requires
        attempts.len() >= 3,
        !succeeds(attempts[0].outcome),
        !succeeds(attempts[1].outcome),
        succeeds(attempts[2].outcome),
    ensures
        simulation_of(config, request, environment, attempts) matches Ok(trace) ==> {
            &&& trace.dispatched.len() == 3
            &&& trace.verdict == Some(
                ActionView::Respond {
                    attempt: 2,
                    diagnostic: HeaderView {
                        name: DIAGNOSTIC_HEADER@,
                        value: bucket_address(
                            config.registry().resolve_spec(
                                location_in(config, request, environment)->Ok_0,
                            )[2],
                        ),
                    },
                },
            )
        },
{
    lemma_simulation_is_failover(config, request, environment, attempts);
    reveal_with_fuel(failover, 4);
    assert(attempts.drop_first()[0] == attempts[1]);
    assert(attempts.drop_first().drop_first()[0] == attempts[2]);
}

/// Where all three origins fail, exactly three requests are dispatched.
/// The failing response of the third origin is returned under the name of
/// its host; where the third origin gave no response at all, its
/// transport error is handed on.
pub proof fn law_all_fail_returns_the_third(
    config: RouterConfig,
    request: InboundRequestView,
    environment: HostEnvironmentView,
    attempts: Seq<SimulatedView>,
)
    requires
        attempts.len() >= 3,
        !succeeds(attempts[0].outcome),
        !succeeds(attempts[1].outcome),
        !succeeds(attempts[2].outcome),
    ensures
        simulation_of(config, request, environment, attempts) matches Ok(trace) ==> {
            &&& trace.dispatched.len() == 3
            &&& attempts[2].outcome is Response ==> trace.verdict == Some(
                ActionView::Respond {
                    attempt: 2,
                    diagnostic: HeaderView {
                        name: DIAGNOSTIC_HEADER@,
                        value: bucket_address(
                            config.registry().resolve_spec(
                                location_in(config, request, environment)->Ok_0,
                            )[2],
                        ),
                    },
                },
            )
            &&& attempts[2].outcome is TransportError ==> trace.verdict == Some(
                ActionView::Fail { attempt: 2 },
            )
        },
{
    lemma_simulation_is_failover(config, request, environment, attempts);
    reveal_with_fuel(failover, 4);
    assert(attempts.drop_first()[0] == attempts[1]);
    assert(attempts.drop_first().drop_first()[0] == attempts[2]);
}

/// A request that chooses a location which the registry does not know
/// is routed by the fallback, whatever the host reports of its own
/// location; and what it chose is not in what any origin is sent.
pub proof fn law_unknown_choice_is_served_by_the_fallback(
    config: RouterConfig,
    request: InboundRequestView,
    environment: HostEnvironmentView,
    attempts: Seq<SimulatedView>,
    choice: Seq<char>,
)
    requires
        chosen_location(request) == Some(choice),
        !config.registry().table().contains_key(choice),
    ensures
        start_of(config, request, environment) matches Ok((router, _)) && router.plan
            == config.registry().fallback(),
        simulation_of(config, request, environment, attempts) matches Ok(trace) && forall|
            i: int,
        |
            0 <= i < trace.dispatched.len() ==> {
                &&& (#[trigger] trace.dispatched[i]).query is None
                &&& trace.dispatched[i].backend == config.registry().fallback()[i].backend_name
                &&& trace.dispatched[i].host == bucket_address(config.registry().fallback()[i])
            },
{
    lemma_simulation_is_failover(config, request, environment, attempts);
    let trace = simulation_of(config, request, environment, attempts)->Ok_0;
    assert forall|i: int| 0 <= i < trace.dispatched.len() implies {
        &&& (#[trigger] trace.dispatched[i]).query is None
        &&& trace.dispatched[i].backend == config.registry().fallback()[i].backend_name
        &&& trace.dispatched[i].host == bucket_address(config.registry().fallback()[i])
    } by {
        law_dispatches_follow_the_plan(config, request, environment, attempts, i);
    }
}

/// Where attempts are not signed, or the method of the request is
/// neither `GET` nor `HEAD`, no dispatched request carries a signature:
/// the only header that is set is the host.
pub proof fn law_writes_are_never_signed(
    config: RouterConfig,
    request: InboundRequestView,
    environment: HostEnvironmentView,
    attempts: Seq<SimulatedView>,
    i: int,
)
    requires
        !config.authenticator().signs() || !is_signable(request.method),
        simulation_of(config, request, environment, attempts) is Ok,
        0 <= i < simulation_of(config, request, environment, attempts)->Ok_0.dispatched.len(),
    ensures
        ({
            let sent = simulation_of(config, request, environment, attempts)->Ok_0.dispatched[i];
            &&& sent.authentication is Unsigned
            &&& sent.headers() == seq![HeaderView { name: HOST_HEADER@, value: sent.host }]
        }),
{
    lemma_simulation_is_failover(config, request, environment, attempts);
    let code = location_in(config, request, environment)->Ok_0;
    lemma_failover_requests(initial(config, request, code), 0, attempts, i);
}

/// Where attempts are signed and the method of the request is `GET` or
/// `HEAD`, an attempt carries the three headers of its signature exactly
/// when the credential store was read and held both keys of the origin.
/// Without credentials the attempt is dispatched all the same, unsigned.
pub proof fn law_reads_are_signed_with_credentials(
    config: RouterConfig,
    request: InboundRequestView,
    environment: HostEnvironmentView,
    attempts: Seq<SimulatedView>,
    i: int,
)
    requires
        config.authenticator().signs(),
        is_signable(request.method),
        simulation_of(config, request, environment, attempts) is Ok,
        0 <= i < simulation_of(config, request, environment, attempts)->Ok_0.dispatched.len(),
    ensures
        i < attempts.len(),
        ({
            let sent = simulation_of(config, request, environment, attempts)->Ok_0.dispatched[i];
            let host = seq![HeaderView { name: HOST_HEADER@, value: sent.host }];
            match credentials_of(attempts[i].lookup) {
                Ok(_) => {
                    &&& sent.authentication == AuthenticationView::Signed(attempts[i].signature)
                    &&& sent.headers() == host + signature_headers(attempts[i].signature)
                },
                Err(reason) => {
                    &&& sent.authentication == AuthenticationView::Unsigned(reason)
                    &&& sent.headers() == host
                },
            }
        }),
{
    lemma_simulation_is_failover(config, request, environment, attempts);
    let code = location_in(config, request, environment)->Ok_0;
    lemma_failover_requests(initial(config, request, code), 0, attempts, i);
}

/// Credentials decide whether an attempt is signed and nothing else: two
/// routings whose dispatches end alike make the same number of
/// dispatches and end alike, whatever the credential store held.
pub proof fn law_credentials_do_not_change_the_failover(
    router: RouterView,
    attempt: nat,
    one: Seq<SimulatedView>,
    other: Seq<SimulatedView>,
)
    requires
        one.len() == other.len(),
        forall|i: int| 0 <= i < one.len() ==> one[i].outcome == other[i].outcome,
    ensures
        failover(router, attempt, one).dispatched.len() == failover(
            router,
            attempt,
            other,
        ).dispatched.len(),
        failover(router, attempt, one).verdict == failover(router, attempt, other).verdict,
    decreases one.len(),
{
    if one.len() > 0 {
        law_credentials_do_not_change_the_failover(
            router,
            attempt + 1,
            one.drop_first(),
            other.drop_first(),
        );
    }
}

} // verus!
