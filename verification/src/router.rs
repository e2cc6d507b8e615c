//! The failover router: one request, up to three origins, one at a time.
//!
//! A router never performs an outside effect. It says what is to be done
//! next (an [`Action`]) and is told what came of it (an [`Event`]). The
//! caller opens the credential store, signs, dispatches, and reports.

use vstd::prelude::*;
use vstd::pervasive::unreached;
use crate::auth::{
    credential_query, credential_query_of, credentials_of, is_signable, is_signable_method,
    signature_headers, signing_input_of, Authentication, AuthenticationView, Authenticator,
    CredentialLookup, CredentialLookupView, CredentialQuery, CredentialQueryView, Credentials,
    Header, HeaderView, Signature, SignatureView, SigningInput, SigningInputView, Unsigned,
    AUTHORIZATION_HEADER, CONTENT_HASH_HEADER, DATE_HEADER,
};
use crate::config::{list_conforms, RouterConfig};
use crate::error::{LocationError, ProtocolError};
use crate::location::{
    location_of, parameter_value, query_parameter, resolve_location, HostEnvironment,
    HostEnvironmentView, LOCATION_PARAMETER,
};
use crate::origin::{bucket_address, is_priority_order, Origin, OriginView, PriorityList};
use crate::region::{extract_region, region_found};
use crate::text::optional_text;

verus! {

/// Header of an outbound request that names the bucket's host.
pub const HOST_HEADER: &'static str = "Host";

/// Header of the returned response that names the host which produced it.
pub const DIAGNOSTIC_HEADER: &'static str = "X-B2-Host";

/// How many origins are attempted at most.
pub const MAX_ATTEMPTS: usize = 3;

/// What the router reads of the inbound request.
#[derive(Clone, Debug, PartialEq, Eq)]
pub struct InboundRequest {
    pub method: String,
    pub path: String,
    /// The query of the request's URL, if it has one, still encoded.
    pub query: Option<String>,
}

/// An inbound request as mathematics.
pub struct InboundRequestView {
    pub method: Seq<char>,
    pub path: Seq<char>,
    pub query: Option<Seq<char>>,
}

impl View for InboundRequest {
    type V = InboundRequestView;

    open spec fn view(&self) -> InboundRequestView {
        InboundRequestView {
            method: self.method@,
            path: self.path@,
            query: optional_text(self.query),
        }
    }
}

/// The location that a request chooses for itself, if it chooses one.
pub open spec fn chosen_location(request: InboundRequestView) -> Option<Seq<char>> {
    match request.query {
        Some(query) => parameter_value(query, LOCATION_PARAMETER@),
        None => None,
    }
}

/// What came of a dispatch.
#[derive(Clone, Copy, Debug, PartialEq, Eq)]
pub enum Outcome {
    /// The origin answered, with this status.
    Response { status: u16 },
    /// No response was obtained.
    TransportError,
}

/// The statuses that end the failover: 2xx and 3xx.
pub open spec fn is_success(status: u16) -> bool {
    200 <= status < 400
}

/// Whether an outcome ends the failover with success.
pub open spec fn succeeds(outcome: Outcome) -> bool {
    outcome matches Outcome::Response { status } && is_success(status)
}

/// Whether a response with this status ends the failover.
pub fn is_success_status(status: u16) -> (success: bool)
    ensures
        success == is_success(status),
{
    200 <= status && status < 400
}

/// What the router is waiting for.
#[derive(Clone, Copy, Debug, PartialEq, Eq)]
pub enum Phase {
    /// The credentials of the current origin.
    AwaitingCredentials,
    /// The signature for the current attempt.
    AwaitingSignature,
    /// The outcome of the current attempt's dispatch.
    AwaitingOutcome,
    /// Nothing: the request has been answered, or has failed.
    Finished,
}

/// What the caller reports to the router.
#[derive(Clone, Debug, PartialEq, Eq)]
pub enum Event {
    /// The credential store was consulted.
    Credentials(CredentialLookup),
    /// The signing collaborator has signed.
    Signed(Signature),
    /// The dispatch has ended.
    Outcome(Outcome),
}

/// An event as mathematics.
pub enum EventView {
    Credentials(CredentialLookupView),
    Signed(SignatureView),
    Outcome(Outcome),
}

impl View for Event {
    type V = EventView;

    open spec fn view(&self) -> EventView {
        match *self {
            Event::Credentials(lookup) => EventView::Credentials(lookup@),
            Event::Signed(signature) => EventView::Signed(signature@),
            Event::Outcome(outcome) => EventView::Outcome(outcome),
        }
    }
}

/// The request that one origin is sent. Method and path are those of the
/// inbound request; its other headers and its body are carried over by
/// the caller.
#[derive(Clone, Debug, PartialEq, Eq)]
pub struct BackendRequest {
    /// Name of the network destination to dispatch to.
    pub backend: &'static str,
    pub method: String,
    pub path: String,
    /// The query that the origin sees. Always `None`: the inbound query is
    /// removed before any origin is attempted.
    pub query: Option<String>,
    /// Value of the `Host` header.
    pub host: String,
    /// The signature whose headers the request carries, or the reason why
    /// it carries none.
    pub authentication: Authentication,
}

/// A backend request as mathematics.
pub struct BackendRequestView {
    pub backend: Seq<char>,
    pub method: Seq<char>,
    pub path: Seq<char>,
    pub query: Option<Seq<char>>,
    pub host: Seq<char>,
    pub authentication: AuthenticationView,
}

impl View for BackendRequest {
    type V = BackendRequestView;

    open spec fn view(&self) -> BackendRequestView {
        BackendRequestView {
            backend: self.backend@,
            method: self.method@,
            path: self.path@,
            query: optional_text(self.query),
            host: self.host@,
            authentication: self.authentication@,
        }
    }
}

impl BackendRequestView {
    /// The headers that are set on the request: the host, then the three
    /// headers of the signature where the request is signed.
    pub open spec fn headers(self) -> Seq<HeaderView> {
        let host = seq![HeaderView { name: HOST_HEADER@, value: self.host }];
        match self.authentication {
            AuthenticationView::Signed(signature) => host + signature_headers(signature),
            AuthenticationView::Unsigned(_) => host,
        }
    }
}

/// The headers of a sequence of headers, as mathematics.
pub open spec fn header_views(headers: Seq<Header>) -> Seq<HeaderView> {
    headers.map_values(|header: Header| header@)
}

impl BackendRequest {
    /// The headers to set on the outbound request, each replacing what
    /// the inbound request had under that name.
    pub fn headers(&self) -> (headers: Vec<Header>)
        ensures
            header_views(headers@) == self@.headers(),
    {
        let mut headers: Vec<Header> = Vec::new();
        headers.push(Header { name: HOST_HEADER, value: self.host.clone() });
        if let Authentication::Signed(signature) = &self.authentication {
            headers.push(
                Header { name: AUTHORIZATION_HEADER, value: signature.authorization.clone() },
            );
            headers.push(
                Header { name: CONTENT_HASH_HEADER, value: signature.content_hash.clone() },
            );
            headers.push(Header { name: DATE_HEADER, value: signature.timestamp.clone() });
        }
        headers
    }
}

/// What the caller is to do next.
#[derive(Clone, Debug, PartialEq, Eq)]
pub enum Action {
    /// Consult the credential store and report `Event::Credentials`.
    LookUpCredentials(CredentialQuery),
    /// Have this signed at the current time and report `Event::Signed`.
    Sign(SigningInput),
    /// Dispatch this request and report `Event::Outcome`.
    Dispatch(BackendRequest),
    /// Return the response of attempt `attempt`, with this header set on
    /// it. The router has finished.
    Respond { attempt: usize, diagnostic: Header },
    /// Hand the transport error of attempt `attempt` to the caller of the
    /// service. The router has finished.
    Fail { attempt: usize },
}

/// An action as mathematics.
pub enum ActionView {
    LookUpCredentials(CredentialQueryView),
    Sign(SigningInputView),
    Dispatch(BackendRequestView),
    Respond { attempt: nat, diagnostic: HeaderView },
    Fail { attempt: nat },
}

impl View for Action {
    type V = ActionView;

    open spec fn view(&self) -> ActionView {
        match *self {
            Action::LookUpCredentials(query) => ActionView::LookUpCredentials(query@),
            Action::Sign(input) => ActionView::Sign(input@),
            Action::Dispatch(request) => ActionView::Dispatch(request@),
            Action::Respond { attempt, diagnostic } => ActionView::Respond {
                attempt: attempt as nat,
                diagnostic: diagnostic@,
            },
            Action::Fail { attempt } => ActionView::Fail { attempt: attempt as nat },
        }
    }
}

/// A router as mathematics.
pub struct RouterView {
    /// The origins to attempt, in order.
    pub plan: Seq<OriginView>,
    /// Whether attempts are signed where they can be.
    pub signing: bool,
    /// Method of the inbound request.
    pub method: Seq<char>,
    /// Path of the inbound request.
    pub path: Seq<char>,
    /// Index of the current attempt.
    pub attempt: nat,
    /// What the router is waiting for.
    pub phase: Phase,
}

impl RouterView {
    /// What holds of every router: it has three distinct origins to
    /// attempt and is at one of them; it waits for credentials or for a
    /// signature only where attempts are signed; and where they are, a region
    /// is found for the host of each origin.
    pub open spec fn valid(self) -> bool {
        &&& is_priority_order(self.plan)
        &&& self.attempt < MAX_ATTEMPTS
        &&& self.signing ==> list_conforms(self.plan)
        &&& (self.phase is AwaitingCredentials || self.phase is AwaitingSignature)
            ==> self.signing
    }

    /// Whether `action` is what a router in this phase has asked for.
    pub open spec fn expects(self, action: ActionView) -> bool {
        match self.phase {
            Phase::AwaitingCredentials => action is LookUpCredentials,
            Phase::AwaitingSignature => action is Sign,
            Phase::AwaitingOutcome => action is Dispatch,
            Phase::Finished => action is Respond || action is Fail,
        }
    }

    /// The origin of the current attempt.
    pub open spec fn origin(self) -> OriginView {
        self.plan[self.attempt as int]
    }

    /// This router at attempt `attempt`, waiting for `phase`.
    pub open spec fn at(self, attempt: nat, phase: Phase) -> RouterView {
        RouterView {
            plan: self.plan,
            signing: self.signing,
            method: self.method,
            path: self.path,
            attempt,
            phase,
        }
    }

    /// The request of the current attempt: to the current origin's
    /// backend, under the host of its bucket, without a query.
    pub open spec fn request(self, authentication: AuthenticationView) -> BackendRequestView {
        BackendRequestView {
            backend: self.origin().backend_name,
            method: self.method,
            path: self.path,
            query: None,
            host: bucket_address(self.origin()),
            authentication,
        }
    }

    /// Why an attempt is dispatched without asking for credentials, if it
    /// is: attempts are not signed at all, or the method does not only
    /// read.
    pub open spec fn gate(self) -> Option<Unsigned> {
        if !self.signing {
            Some(Unsigned::SigningDisabled)
        } else if !is_signable(self.method) {
            Some(Unsigned::MethodNotSignable)
        } else {
            None
        }
    }

    /// The header that names the host of the current origin.
    pub open spec fn diagnostic(self) -> HeaderView {
        HeaderView { name: DIAGNOSTIC_HEADER@, value: bucket_address(self.origin()) }
    }

    /// Attempt `attempt` begins. Where attempts are signed and the method
    /// only reads, credentials are looked up first; else the request is
    /// dispatched unsigned, with the reason.
    pub open spec fn begin(self, attempt: nat) -> (RouterView, ActionView) {
        match self.gate() {
            None => {
                let next = self.at(attempt, Phase::AwaitingCredentials);
                (next, ActionView::LookUpCredentials(credential_query_of(next.origin())))
            },
            Some(reason) => {
                let next = self.at(attempt, Phase::AwaitingOutcome);
                (next, ActionView::Dispatch(next.request(AuthenticationView::Unsigned(reason))))
            },
        }
    }

    /// The credential store was consulted. With credentials the attempt
    /// is signed; without, it is dispatched unsigned, with the reason.
    pub open spec fn after_credentials(self, lookup: CredentialLookupView) -> (
        RouterView,
        ActionView,
    ) {
        match credentials_of(lookup) {
            Ok(credentials) => (
                self.at(self.attempt, Phase::AwaitingSignature),
                ActionView::Sign(
                    signing_input_of(self.method, self.path, self.origin(), credentials),
                ),
            ),
            Err(reason) => (
                self.at(self.attempt, Phase::AwaitingOutcome),
                ActionView::Dispatch(self.request(AuthenticationView::Unsigned(reason))),
            ),
        }
    }

    /// The attempt was signed: it is dispatched with the signature.
    pub open spec fn after_signature(self, signature: SignatureView) -> (RouterView, ActionView) {
        (
            self.at(self.attempt, Phase::AwaitingOutcome),
            ActionView::Dispatch(self.request(AuthenticationView::Signed(signature))),
        )
    }

    /// The dispatch has ended. A success is returned at once. After
    /// anything else the next origin is attempted, as long as there is
    /// one; after the last origin its response is returned as it is, and
    /// only a transport error is handed on as an error.
    pub open spec fn after_outcome(self, outcome: Outcome) -> (RouterView, ActionView) {
        let finished = self.at(self.attempt, Phase::Finished);
        if succeeds(outcome) {
            (finished, ActionView::Respond { attempt: self.attempt, diagnostic: self.diagnostic() })
        } else if self.attempt + 1 < MAX_ATTEMPTS {
            self.begin(self.attempt + 1)
        } else {
            match outcome {
                Outcome::Response { .. } => (
                    finished,
                    ActionView::Respond { attempt: self.attempt, diagnostic: self.diagnostic() },
                ),
                Outcome::TransportError => (finished, ActionView::Fail { attempt: self.attempt }),
            }
        }
    }

    /// What follows from `event`: the router afterwards and what is to be
    /// done next, or nothing where the event does not answer what the
    /// router is waiting for.
    pub open spec fn step(self, event: EventView) -> Option<(RouterView, ActionView)> {
        match (self.phase, event) {
            (Phase::AwaitingCredentials, EventView::Credentials(lookup)) => Some(
                self.after_credentials(lookup),
            ),
            (Phase::AwaitingSignature, EventView::Signed(signature)) => Some(
                self.after_signature(signature),
            ),
            (Phase::AwaitingOutcome, EventView::Outcome(outcome)) => Some(
                self.after_outcome(outcome),
            ),
            _ => None,
        }
    }
}

/// The router of `request` before its first attempt, where the request
/// counts for the location `code`: the origins that serve `code` are its
/// plan.
pub open spec fn initial(
    config: RouterConfig,
    request: InboundRequestView,
    code: Seq<char>,
) -> RouterView {
    RouterView {
        plan: config.registry().resolve_spec(code),
        signing: config.authenticator().signs(),
        method: request.method,
        path: request.path,
        attempt: 0,
        phase: Phase::AwaitingOutcome,
    }
}

/// The location that `request` counts for.
pub open spec fn location_in(
    config: RouterConfig,
    request: InboundRequestView,
    environment: HostEnvironmentView,
) -> Result<Seq<char>, LocationError> {
    location_of(chosen_location(request), environment, config.registry().default_location())
}

/// How the routing of a request begins: its location is determined, the
/// origins of that location become the plan, and the first attempt
/// begins. Fails only where the location cannot be determined.
pub open spec fn start_of(
    config: RouterConfig,
    request: InboundRequestView,
    environment: HostEnvironmentView,
) -> Result<(RouterView, ActionView), LocationError> {
    match location_in(config, request, environment) {
        Ok(code) => Ok(initial(config, request, code).begin(0)),
        Err(e) => Err(e),
    }
}

/// The routing of one request.
pub struct Router {
    plan: PriorityList,
    authenticator: Authenticator,
    method: String,
    path: String,
    attempt: usize,
    phase: Phase,
}

impl View for Router {
    type V = RouterView;

    closed spec fn view(&self) -> RouterView {
        RouterView {
            plan: self.plan@,
            signing: self.authenticator.signs(),
            method: self.method@,
            path: self.path@,
            attempt: self.attempt as nat,
            phase: self.phase,
        }
    }
}

impl Router {
    /// Holds of every router there is: see [`RouterView::valid`].
    #[verifier::type_invariant]
    pub open spec fn well_formed(&self) -> bool {
        self@.valid()
    }

    /// Begins the routing of `request`: the router, and what is to be
    /// done first.
    pub fn start(
        config: &RouterConfig,
        request: InboundRequest,
        environment: &HostEnvironment,
    ) -> (started: Result<(Router, Action), LocationError>)
        ensures
            match start_of(*config, request@, environment@) {
                Ok((router, action)) => started matches Ok(s) && s.0@ == router && s.1@ == action,
                Err(e) => started matches Err(f) && f == e,
            },
    {
        let chosen = match &request.query {
            Some(query) => query_parameter(query.as_str(), LOCATION_PARAMETER),
            None => None,
        };
        let code = match resolve_location(chosen, environment, config.default_location_code()) {
            Ok(code) => code,
            Err(e) => {
                return Err(e);
            },
        };
        let plan = config.resolve(code.as_str());
        proof {
            use_type_invariant(&plan);
        }
        let mut router = Router {
            plan,
            authenticator: config.authenticator_kind(),
            method: request.method,
            path: request.path,
            attempt: 0,
            phase: Phase::AwaitingOutcome,
        };
        let action = router.begin(0);
        Ok((router, action))
    }

    /// Reports `event` to the router and says what is to be done next.
    /// An event that does not answer what the router is waiting for is
    /// refused and changes nothing.
    pub fn step(&mut self, event: Event) -> (next: Result<Action, ProtocolError>)
        ensures
            match old(self)@.step(event@) {
                Some((router, action)) => final(self)@ == router && (next matches Ok(a) && a@
                    == action),
                None => final(self)@ == old(self)@ && next == Err::<Action, ProtocolError>(
                    ProtocolError::UnexpectedEvent,
                ),
            },
    {
        proof {
            use_type_invariant(&*self);
        }
        match event {
            Event::Credentials(lookup) => {
                match self.phase {
                    Phase::AwaitingCredentials => {},
                    _ => {
                        return Err(ProtocolError::UnexpectedEvent);
                    },
                }
                match Credentials::from_lookup(lookup) {
                    Ok(credentials) => {
                        self.phase = Phase::AwaitingSignature;
                        Ok(Action::Sign(self.signing_input(credentials)))
                    },
                    Err(reason) => {
                        self.phase = Phase::AwaitingOutcome;
                        Ok(Action::Dispatch(self.request(Authentication::Unsigned(reason))))
                    },
                }
            },
            Event::Signed(signature) => {
                match self.phase {
                    Phase::AwaitingSignature => {},
                    _ => {
                        return Err(ProtocolError::UnexpectedEvent);
                    },
                }
                self.phase = Phase::AwaitingOutcome;
                Ok(Action::Dispatch(self.request(Authentication::Signed(signature))))
            },
            Event::Outcome(outcome) => {
                match self.phase {
                    Phase::AwaitingOutcome => {},
                    _ => {
                        return Err(ProtocolError::UnexpectedEvent);
                    },
                }
                let succeeded = match outcome {
                    Outcome::Response { status } => is_success_status(status),
                    Outcome::TransportError => false,
                };
                if succeeded {
                    self.phase = Phase::Finished;
                    Ok(Action::Respond { attempt: self.attempt, diagnostic: self.diagnostic() })
                } else if self.attempt + 1 < MAX_ATTEMPTS {
                    let attempt = self.attempt + 1;
                    Ok(self.begin(attempt))
                } else {
                    self.phase = Phase::Finished;
                    match outcome {
                        Outcome::Response { .. } => Ok(
                            Action::Respond {
                                attempt: self.attempt,
                                diagnostic: self.diagnostic(),
                            },
                        ),
                        Outcome::TransportError => Ok(Action::Fail { attempt: self.attempt }),
                    }
                }
            },
        }
    }

    /// Index of the current attempt: 0, 1 or 2.
    pub fn attempt(&self) -> (attempt: usize)
        ensures
            attempt == self@.attempt,
            attempt < MAX_ATTEMPTS,
    {
        proof {
            use_type_invariant(self);
        }
        self.attempt
    }

    /// What the router is waiting for.
    pub fn phase(&self) -> (phase: Phase)
        ensures
            phase == self@.phase,
    {
        self.phase
    }

    /// Whether the request has been answered or has failed.
    pub fn is_finished(&self) -> (finished: bool)
        ensures
            finished == (self@.phase is Finished),
    {
        match self.phase {
            Phase::Finished => true,
            _ => false,
        }
    }

    /// The origin of the current attempt.
    pub fn origin(&self) -> (origin: Origin)
        ensures
            origin@ == self@.origin(),
    {
        proof {
            use_type_invariant(self);
        }
        self.plan.get(self.attempt)
    }

    fn begin(&mut self, attempt: usize) -> (action: Action)
        requires
            attempt < MAX_ATTEMPTS,
        ensures
            (final(self)@, action@) == old(self)@.begin(attempt as nat),
    {
        proof {
            use_type_invariant(&*self);
        }
        self.attempt = attempt;
        if !self.authenticator.is_signing() {
            self.phase = Phase::AwaitingOutcome;
            Action::Dispatch(self.request(Authentication::Unsigned(Unsigned::SigningDisabled)))
        } else if !is_signable_method(self.method.as_str()) {
            self.phase = Phase::AwaitingOutcome;
            Action::Dispatch(self.request(Authentication::Unsigned(Unsigned::MethodNotSignable)))
        } else {
            self.phase = Phase::AwaitingCredentials;
            let origin = self.plan.get(attempt);
            Action::LookUpCredentials(credential_query(&origin))
        }
    }

    fn request(&self, authentication: Authentication) -> (request: BackendRequest)
        ensures
            request@ == self@.request(authentication@),
    {
        let origin = self.origin();
        BackendRequest {
            backend: origin.backend_name,
            method: self.method.clone(),
            path: self.path.clone(),
            query: None,
            host: origin.host_header(),
            authentication,
        }
    }

    fn diagnostic(&self) -> (header: Header)
        ensures
            header@ == self@.diagnostic(),
    {
        Header { name: DIAGNOSTIC_HEADER, value: self.origin().host_header() }
    }

    fn signing_input(&self, credentials: Credentials) -> (input: SigningInput)
        requires
            self@.signing,
        ensures
            input@ == signing_input_of(self@.method, self@.path, self@.origin(), credentials@),
    {
        proof {
            use_type_invariant(self);
        }
        let origin = self.origin();
        assert(region_found(self@.plan[self@.attempt as int].bucket_host) is Some);
        let region = match extract_region(origin.bucket_host) {
            Some(region) => region,
            None => unreached(),
        };
        SigningInput {
            method: self.method.clone(),
            path: self.path.clone(),
            query: String::new(),
            bucket_name: origin.bucket_name,
            bucket_host: origin.bucket_host,
            region,
            credentials,
        }
    }
}

} // verus!
