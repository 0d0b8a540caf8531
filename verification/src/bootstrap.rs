//! The bootstrap of a client handle, as a state machine over plain values:
//! what the caller reports, what it is directed to do, and how the handle
//! moves from unchecked to ready.

use crate::api::resources::bridge::{Bridge, BridgeView};
use crate::error::{BridgeError, BridgeErrorView, ConfigurationError};
use crate::request::{
    assembled, joined, parsed_url, ApplicationView, BodyView, Method, Request, RequestView,
};
use crate::version::{version_fault, MINIMUM_BRIDGE_VERSION};
use vstd::prelude::*;

verus! {

/// Whether the bridge's certificate must name the host that was asked for.
#[derive(Clone, Copy, Debug, PartialEq, Eq, Structural)]
pub enum TlsPolicy {
    /// The default.
    EnforceHostname,
    /// For bridges that are reached under a name their certificate does not
    /// carry. A weakening that the user has to ask for.
    AcceptAnyHostname,
}

/// How far the bootstrap has come.
#[derive(Clone, Copy, Debug, PartialEq, Eq, Structural)]
pub enum BootstrapState {
    /// Nothing is known of the bridge yet.
    Unchecked,
    /// The bridge's firmware is new enough; the handle holds no key yet.
    VersionVerified,
    /// The handle holds a key: resource calls are permitted.
    Ready,
}

/// One element of the bridge's reply to a pairing request.
#[derive(Clone, Debug, PartialEq, Eq)]
pub struct HueResult {
    pub success: Option<Success>,
    pub error: Option<HueError>,
}

/// The key that the bridge issued.
#[derive(Clone, Debug, PartialEq, Eq)]
pub struct Success {
    pub username: String,
}

/// Why the bridge refused to pair.
#[derive(Clone, Debug, PartialEq, Eq)]
pub struct HueError {
    pub description: String,
}

impl DeepView for Success {
    type V = Seq<char>;

    open spec fn deep_view(&self) -> Seq<char> {
        self.username@
    }
}

impl DeepView for HueError {
    type V = Seq<char>;

    open spec fn deep_view(&self) -> Seq<char> {
        self.description@
    }
}

/// The mathematical form of a [`HueResult`]: the issued key and the refusal's
/// description, each where the element carries it.
pub struct HueResultView {
    pub success: Option<Seq<char>>,
    pub error: Option<Seq<char>>,
}

impl View for HueResult {
    type V = HueResultView;

    open spec fn view(&self) -> HueResultView {
        HueResultView { success: self.success.deep_view(), error: self.error.deep_view() }
    }
}

impl DeepView for HueResult {
    type V = HueResultView;

    open spec fn deep_view(&self) -> HueResultView {
        self@
    }
}

/// What the caller reports to the bootstrap.
#[derive(Clone, Debug, PartialEq, Eq)]
pub enum Event {
    /// The bootstrap begins, or begins again after a failure. Carries the
    /// bytes of the file at the configured CA path, where one is configured.
    Start(Option<Vec<u8>>),
    /// The bridge answered the configuration request.
    BridgeInfo(Bridge),
    /// The bridge answered the pairing request.
    PairingReply(Vec<HueResult>),
    /// The last request could not be exchanged.
    TransportFailure(String),
}

/// The mathematical form of an [`Event`].
pub enum EventView {
    Start(Option<Seq<u8>>),
    BridgeInfo(BridgeView),
    PairingReply(Seq<HueResultView>),
    TransportFailure(Seq<char>),
}

impl View for Event {
    type V = EventView;

    open spec fn view(&self) -> EventView {
        match self {
            Event::Start(material) => EventView::Start(material.deep_view()),
            Event::BridgeInfo(info) => EventView::BridgeInfo(info@),
            Event::PairingReply(results) => EventView::PairingReply(results.deep_view()),
            Event::TransportFailure(description) => EventView::TransportFailure(description@),
        }
    }
}

/// What the bootstrap directs the caller to do next.
#[derive(Clone, Debug, PartialEq, Eq)]
pub enum Directive {
    /// Send the request, which asks for the bridge's configuration, and come
    /// back with [`Event::BridgeInfo`].
    CheckVersion(Request),
    /// Send the request, which asks for a new application key, and come back
    /// with [`Event::PairingReply`].
    Register(Request),
    /// The handle is ready.
    Ready,
    /// The bootstrap stops here.
    Fail(BridgeError),
}

/// The mathematical form of a [`Directive`].
pub enum DirectiveView {
    CheckVersion(RequestView),
    Register(RequestView),
    Ready,
    Fail(BridgeErrorView),
}

impl View for Directive {
    type V = DirectiveView;

    open spec fn view(&self) -> DirectiveView {
        match self {
            Directive::CheckVersion(request) => DirectiveView::CheckVersion(request@),
            Directive::Register(request) => DirectiveView::Register(request@),
            Directive::Ready => DirectiveView::Ready,
            Directive::Fail(error) => DirectiveView::Fail(error@),
        }
    }
}

impl DirectiveView {
    /// Whether the directive is to send a pairing request: one that asks the
    /// bridge for a new application key. A request counts as one by the
    /// directive that carries it, by its method, and by its body.
    pub open spec fn is_pairing(self) -> bool {
        match self {
            DirectiveView::Register(_) => true,
            DirectiveView::CheckVersion(request) => request.method == Method::Post
                || request.body is Application,
            _ => false,
        }
    }
}

/// The mathematical form of a [`HueBridge`].
pub struct HueBridgeView {
    pub api_url: Option<Seq<char>>,
    pub app_name: Option<Seq<char>>,
    pub token: Option<Seq<char>>,
    pub ca_path: Option<Seq<char>>,
    pub trust_material: Option<Seq<u8>>,
    pub tls_policy: TlsPolicy,
    pub state: BootstrapState,
}

/// The endpoint that reports the bridge's configuration.
pub open spec fn config_endpoint() -> Seq<char> {
    "api/config"@
}

/// The endpoint that registers an application.
pub open spec fn pairing_endpoint() -> Seq<char> {
    "api"@
}

impl HueBridgeView {
    /// The handle that nothing was configured on.
    pub open spec fn unconfigured() -> HueBridgeView {
        HueBridgeView {
            api_url: None,
            app_name: None,
            token: None,
            ca_path: None,
            trust_material: None,
            tls_policy: TlsPolicy::EnforceHostname,
            state: BootstrapState::Unchecked,
        }
    }

    /// Whether the handle holds a key. An empty key is no key.
    pub open spec fn has_token(self) -> bool {
        self.token matches Some(token) && token.len() > 0
    }

    /// The key that requests carry.
    pub open spec fn application_key(self) -> Option<Seq<char>> {
        if self.has_token() {
            self.token
        } else {
            None
        }
    }

    /// Whether resource calls are permitted.
    pub open spec fn is_ready(self) -> bool {
        self.state == BootstrapState::Ready
    }

    /// What holds of every handle: a ready handle holds a key, and a handle
    /// that waits for pairing holds none.
    pub open spec fn wf(self) -> bool {
        &&& self.state == BootstrapState::Ready ==> self.has_token()
        &&& self.state == BootstrapState::VersionVerified ==> !self.has_token()
    }

    /// The request of the bootstrap for `endpoint`, or the fault in the
    /// configured URL. It carries the key where the handle holds one. Only
    /// the two requests of the bootstrap are planned so.
    pub open spec fn plan(self, method: Method, endpoint: Seq<char>, body: BodyView) -> Result<
        RequestView,
        BridgeErrorView,
    > {
        match self.api_url {
            None => Err(BridgeErrorView::Configuration(ConfigurationError::MissingUrl)),
            Some(base) => assembled(
                parsed_url(joined(base, endpoint)),
                method,
                self.application_key(),
                body,
            ),
        }
    }

    /// The request to a URL that was put to the parser. A handle without key
    /// makes none, whatever the URL; else the request carries the key, and
    /// fails where the parser refused the URL.
    pub open spec fn request_to(self, url: Option<Seq<char>>, method: Method, body: BodyView) -> Result<
        RequestView,
        BridgeErrorView,
    > {
        if !self.has_token() {
            Err(BridgeErrorView::NotRegistered)
        } else {
            assembled(url, method, self.token, body)
        }
    }

    /// The request for `endpoint`. A handle without key makes none, whatever
    /// the endpoint and the URL; else the request carries the key, and fails
    /// on a fault in the configured URL.
    pub open spec fn request(self, method: Method, endpoint: Seq<char>, body: BodyView) -> Result<
        RequestView,
        BridgeErrorView,
    > {
        if !self.has_token() {
            Err(BridgeErrorView::NotRegistered)
        } else {
            match self.api_url {
                None => Err(BridgeErrorView::Configuration(ConfigurationError::MissingUrl)),
                Some(base) => self.request_to(parsed_url(joined(base, endpoint)), method, body),
            }
        }
    }

    /// A request that only a ready handle may make.
    pub open spec fn authorized_request(
        self,
        method: Method,
        endpoint: Seq<char>,
        body: BodyView,
    ) -> Result<RequestView, BridgeErrorView> {
        if self.is_ready() {
            self.request(method, endpoint, body)
        } else {
            Err(BridgeErrorView::NotRegistered)
        }
    }

    /// The request for the bridge's configuration.
    pub open spec fn version_request(self) -> Result<RequestView, BridgeErrorView> {
        self.plan(Method::Get, config_endpoint(), BodyView::Empty)
    }

    /// The request for a new application key.
    pub open spec fn pairing_request(self) -> Result<RequestView, BridgeErrorView> {
        match self.app_name {
            None => Err(BridgeErrorView::Configuration(ConfigurationError::MissingAppName)),
            Some(name) => self.plan(
                Method::Post,
                pairing_endpoint(),
                BodyView::Application(
                    ApplicationView { devicetype: name, generateclientkey: true },
                ),
            ),
        }
    }

    /// The handle after the bridge reported `info`: with its version
    /// verified, and ready at once where it holds a key.
    pub open spec fn check_version(self, info: BridgeView) -> Result<
        HueBridgeView,
        BridgeErrorView,
    > {
        if self.state != BootstrapState::Unchecked {
            Err(BridgeErrorView::UnexpectedReply)
        } else {
            match version_fault(info.swversion, MINIMUM_BRIDGE_VERSION) {
                Some(fault) => Err(fault),
                None => Ok(
                    HueBridgeView {
                        state: if self.has_token() {
                            BootstrapState::Ready
                        } else {
                            BootstrapState::VersionVerified
                        },
                        ..self
                    },
                ),
            }
        }
    }

    /// The handle after the bridge answered the pairing request with
    /// `results`. Only the first element counts: its error, where it carries
    /// one, else its key.
    pub open spec fn register(self, results: Seq<HueResultView>) -> Result<
        HueBridgeView,
        BridgeErrorView,
    > {
        if self.state != BootstrapState::VersionVerified || results.len() == 0 {
            Err(BridgeErrorView::UnexpectedReply)
        } else {
            match results[0].error {
                Some(description) => Err(BridgeErrorView::PairingRejected(description)),
                None => match results[0].success {
                    Some(username) => if username.len() > 0 {
                        Ok(
                            HueBridgeView {
                                token: Some(username),
                                state: BootstrapState::Ready,
                                ..self
                            },
                        )
                    } else {
                        Err(BridgeErrorView::UnexpectedReply)
                    },
                    None => Err(BridgeErrorView::UnexpectedReply),
                },
            }
        }
    }

    /// What a handle with a verified version does next: nothing more where it
    /// is ready, else it asks for a key.
    pub open spec fn proceed(self) -> DirectiveView {
        if self.is_ready() {
            DirectiveView::Ready
        } else {
            match self.pairing_request() {
                Ok(request) => DirectiveView::Register(request),
                Err(fault) => DirectiveView::Fail(fault),
            }
        }
    }

    /// The start of the bootstrap. `accepted` says whether the trust material
    /// is a certificate. An unchecked handle has its configuration validated
    /// (the certificate, then the URL, then the application name) and asks
    /// for the bridge's configuration; a handle further on goes on where it
    /// stands.
    pub open spec fn start(self, material: Option<Seq<u8>>, accepted: bool) -> (
        HueBridgeView,
        DirectiveView,
    ) {
        if self.state != BootstrapState::Unchecked {
            (self, self.proceed())
        } else if (material is Some && !accepted) || (material is None && self.ca_path is Some) {
            (
                self,
                DirectiveView::Fail(
                    BridgeErrorView::Configuration(ConfigurationError::InvalidCertificate),
                ),
            )
        } else {
            match self.version_request() {
                Err(fault) => (self, DirectiveView::Fail(fault)),
                Ok(request) => if !self.has_token() && self.app_name is None {
                    (
                        self,
                        DirectiveView::Fail(
                            BridgeErrorView::Configuration(ConfigurationError::MissingAppName),
                        ),
                    )
                } else {
                    (
                        HueBridgeView { trust_material: material, ..self },
                        DirectiveView::CheckVersion(request),
                    )
                },
            }
        }
    }

    /// One step of the bootstrap: the handle after `event`, and what to do
    /// next.
    pub open spec fn step(self, event: EventView, accepted: bool) -> (HueBridgeView, DirectiveView) {
        match event {
            EventView::Start(material) => self.start(material, accepted),
            EventView::BridgeInfo(info) => match self.check_version(info) {
                Ok(next) => (next, next.proceed()),
                Err(fault) => (self, DirectiveView::Fail(fault)),
            },
            EventView::PairingReply(results) => match self.register(results) {
                Ok(next) => (next, DirectiveView::Ready),
                Err(fault) => (self, DirectiveView::Fail(fault)),
            },
            EventView::TransportFailure(description) => (
                self,
                DirectiveView::Fail(BridgeErrorView::TransportError(description)),
            ),
        }
    }
}

impl HueBridgeView {
    /// The handle after a series of steps, each with its event and with what
    /// the certificate parser said of it.
    pub open spec fn after(self, events: Seq<(EventView, bool)>) -> HueBridgeView
        decreases events.len(),
    {
        if events.len() == 0 {
            self
        } else {
            self.after(events.drop_last()).step(events.last().0, events.last().1).0
        }
    }

    /// The directive that the last of a series of steps returns.
    pub open spec fn last_directive(self, events: Seq<(EventView, bool)>) -> DirectiveView
        recommends
            events.len() > 0,
    {
        self.after(events.drop_last()).step(events.last().0, events.last().1).1
    }
}

/// A step of the bootstrap keeps a handle well formed: whatever the event, a
/// ready handle holds a key and a handle that waits for pairing holds none.
pub proof fn lemma_step_keeps_well_formed(handle: HueBridgeView, event: EventView, accepted: bool)
    requires
        handle.wf(),
    ensures
        handle.step(event, accepted).0.wf(),
{
}

/// What the certificate parser says counts only for a start that carries
/// trust material.
pub proof fn lemma_verdict_counts_for_material_only(
    handle: HueBridgeView,
    event: EventView,
    accepted: bool,
)
    requires
        !(event matches EventView::Start(Some(_))),
    ensures
        handle.step(event, accepted) == handle.step(event, !accepted),
{
}

/// A step that fails changes nothing but, at most, the state: where the
/// bridge's version was verified and the pairing request could not be made,
/// the handle waits for pairing. After a refused pairing, in particular, the
/// handle is as it was: it still waits for pairing.
pub proof fn lemma_failure_keeps_handle(handle: HueBridgeView, event: EventView, accepted: bool)
    requires
        handle.step(event, accepted).1 is Fail,
    ensures
        ({
            let next = handle.step(event, accepted).0;
            &&& !(event is BridgeInfo) ==> next == handle
            &&& next == (HueBridgeView { state: next.state, ..handle })
            &&& next.state == handle.state || (handle.state == BootstrapState::Unchecked
                && next.state == BootstrapState::VersionVerified)
        }),
{
}

/// A step changes nothing of the configuration, and the key only where the
/// bridge issued one in a pairing reply.
pub proof fn lemma_step_keeps_configuration(
    handle: HueBridgeView,
    event: EventView,
    accepted: bool,
)
    ensures
        ({
            let next = handle.step(event, accepted).0;
            &&& next.api_url == handle.api_url
            &&& next.app_name == handle.app_name
            &&& next.ca_path == handle.ca_path
            &&& next.tls_policy == handle.tls_policy
            &&& !(event is PairingReply) ==> next.token == handle.token
            &&& !(event is Start) ==> next.trust_material == handle.trust_material
        }),
{
}

/// A handle becomes ready only by a step that returns [`DirectiveView::Ready`],
/// and a step that returns it leaves the handle ready.
pub proof fn lemma_ready_is_announced(handle: HueBridgeView, event: EventView, accepted: bool)
    requires
        handle.wf(),
    ensures
        ({
            let (next, directive) = handle.step(event, accepted);
            &&& directive is Ready ==> next.is_ready()
            &&& next.is_ready() && !handle.is_ready() ==> directive is Ready
            &&& handle.is_ready() ==> next.is_ready()
        }),
{
}

/// A handle without key, or with an empty one, makes no request but those of
/// the bootstrap: for every method, endpoint, URL and body the call fails
/// with [`BridgeErrorView::NotRegistered`], whatever is configured.
pub proof fn lemma_keyless_handle_makes_no_request(
    handle: HueBridgeView,
    method: Method,
    endpoint: Seq<char>,
    url: Option<Seq<char>>,
    body: BodyView,
)
    requires
        !handle.has_token(),
    ensures
        handle.request(method, endpoint, body) == Err::<RequestView, BridgeErrorView>(
            BridgeErrorView::NotRegistered,
        ),
        handle.request_to(url, method, body) == Err::<RequestView, BridgeErrorView>(
            BridgeErrorView::NotRegistered,
        ),
        handle.wf() ==> handle.authorized_request(method, endpoint, body) == Err::<
            RequestView,
            BridgeErrorView,
        >(BridgeErrorView::NotRegistered),
{
}

/// The requests that the bootstrap sends. For the bridge's configuration it
/// is a GET without body to the configuration endpoint; for a new key it is a
/// POST of the application name, with the wish for a client key, to the
/// pairing endpoint, and carries no key.
pub proof fn lemma_bootstrap_requests(handle: HueBridgeView, event: EventView, accepted: bool)
    requires
        handle.wf(),
    ensures
        handle.step(event, accepted).1 matches DirectiveView::CheckVersion(request) ==> {
            &&& handle.version_request() == Ok::<RequestView, BridgeErrorView>(request)
            &&& request.method == Method::Get
            &&& request.body == BodyView::Empty
        },
        handle.step(event, accepted).1 matches DirectiveView::Register(request) ==> {
            &&& handle.pairing_request() == Ok::<RequestView, BridgeErrorView>(request)
            &&& request.method == Method::Post
            &&& request.application_key is None
            &&& handle.app_name matches Some(name)
            &&& request.body == BodyView::Application(
                ApplicationView { devicetype: name, generateclientkey: true },
            )
        },
{
}

/// What a pairing reply does to a handle that waits for pairing. Where the
/// first element carries an error, the bootstrap fails with the bridge's
/// description and the handle still waits for pairing. Where it carries a key
/// and no error, the handle holds that key and is ready.
pub proof fn lemma_pairing_reply(handle: HueBridgeView, results: Seq<HueResultView>, accepted: bool)
    requires
        handle.state == BootstrapState::VersionVerified,
        results.len() > 0,
    ensures
        results[0].error matches Some(description) ==> handle.step(
            EventView::PairingReply(results),
            accepted,
        ) == (handle, DirectiveView::Fail(BridgeErrorView::PairingRejected(description))),
        results[0].success matches Some(username) ==> results[0].error is None && username.len()
            > 0 ==> handle.step(EventView::PairingReply(results), accepted) == (
            HueBridgeView { token: Some(username), state: BootstrapState::Ready, ..handle },
            DirectiveView::Ready,
        ),
{
}

/// A handle that holds a key never asks for one: no step on it returns a
/// pairing request, and it holds the same key afterwards.
pub proof fn lemma_token_holder_never_pairs(handle: HueBridgeView, event: EventView, accepted: bool)
    requires
        handle.wf(),
        handle.has_token(),
    ensures
        !handle.step(event, accepted).1.is_pairing(),
        handle.step(event, accepted).0.token == handle.token,
{
}

/// A bootstrap with a supplied key never issues a pairing request, however
/// long it runs and whatever it is told: none of its steps returns one, and
/// the handle holds the supplied key throughout.
pub proof fn lemma_supplied_token_never_pairs(handle: HueBridgeView, events: Seq<(EventView, bool)>)
    requires
        handle.wf(),
        handle.has_token(),
    ensures
        handle.after(events).wf(),
        handle.after(events).token == handle.token,
        events.len() > 0 ==> !handle.last_directive(events).is_pairing(),
        forall|k: int|
            0 < k <= events.len() ==> !(#[trigger] handle.last_directive(events.take(k))).is_pairing(),
    decreases events.len(),
{
    if events.len() > 0 {
        let before = events.drop_last();
        lemma_supplied_token_never_pairs(handle, before);
        let (event, accepted) = events.last();
        lemma_step_keeps_well_formed(handle.after(before), event, accepted);
        lemma_token_holder_never_pairs(handle.after(before), event, accepted);
        assert forall|k: int| 0 < k <= events.len() implies !(#[trigger] handle.last_directive(
            events.take(k),
        )).is_pairing() by {
            if k == events.len() {
                assert(events.take(k) =~= events);
            } else {
                assert(events.take(k) =~= before.take(k));
            }
        }
    }
}

} // verus!
