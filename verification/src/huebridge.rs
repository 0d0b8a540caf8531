//! The client handle: its configuration, its credential, and the bootstrap
//! that takes it from unchecked to ready.
//!
//! The bootstrap is a state machine. The caller hands it one event at a time
//! and does what the directive that comes back says: it sends the request and
//! returns with the reply, or it stops.

use crate::api::resources::bridge::Bridge;
use crate::bootstrap::{
    BootstrapState, Directive, Event, EventView, HueBridgeView, HueResult, TlsPolicy,
};
use crate::error::{outcome, BridgeError, BridgeErrorView, ConfigurationError};
use crate::request::{join, parse_url, parsed, Application, Body, Method, Request, RequestView};
use vstd::prelude::*;
use vstd::string::*;

verus! {

/// The client handle.
#[derive(Debug, PartialEq, Eq)]
pub struct HueBridge {
    api_url: Option<String>,
    app_name: Option<String>,
    token: Option<String>,
    ca_path: Option<String>,
    trust_material: Option<Vec<u8>>,
    disable_tls: bool,
    state: BootstrapState,
}

impl View for HueBridge {
    type V = HueBridgeView;

    closed spec fn view(&self) -> HueBridgeView {
        HueBridgeView {
            api_url: self.api_url.deep_view(),
            app_name: self.app_name.deep_view(),
            token: self.token.deep_view(),
            ca_path: self.ca_path.deep_view(),
            trust_material: self.trust_material.deep_view(),
            tls_policy: if self.disable_tls {
                TlsPolicy::AcceptAnyHostname
            } else {
                TlsPolicy::EnforceHostname
            },
            state: self.state,
        }
    }
}

impl DeepView for HueBridge {
    type V = HueBridgeView;

    open spec fn deep_view(&self) -> HueBridgeView {
        self@
    }
}

impl Default for HueBridge {
    /// The handle that nothing was configured on: no URL, no credential,
    /// host names enforced, unchecked.
    fn default() -> (bridge: HueBridge)
        ensures
            bridge@ == HueBridgeView::unconfigured(),
    {
        HueBridge {
            api_url: None,
            app_name: None,
            token: None,
            ca_path: None,
            trust_material: None,
            disable_tls: false,
            state: BootstrapState::Unchecked,
        }
    }
}

impl Clone for HueBridge {
    fn clone(&self) -> (bridge: HueBridge)
        ensures
            bridge@ == self@,
    {
        proof {
            use_type_invariant(self);
        }
        let bridge = HueBridge {
            api_url: self.api_url.clone(),
            app_name: self.app_name.clone(),
            token: self.token.clone(),
            ca_path: self.ca_path.clone(),
            trust_material: self.trust_material.clone(),
            disable_tls: self.disable_tls,
            state: self.state,
        };
        assert(bridge.trust_material.deep_view() == self.trust_material.deep_view()) by {
            if self.trust_material is Some {
                assert(bridge.trust_material.unwrap()@ =~= self.trust_material.unwrap()@);
                assert(bridge.trust_material.unwrap().deep_view()
                    =~= self.trust_material.unwrap().deep_view());
            }
        }
        bridge
    }
}

impl HueBridge {
    #[verifier::type_invariant]
    spec fn well_formed(self) -> bool {
        self@.wf()
    }

    /// Begins the configuration of a client handle:
    /// `HueBridge::builder().api(..).ca_pem(..).app_name(..)`, then the
    /// bootstrap with [`HueBridge::build`].
    pub fn builder() -> (bridge: HueBridge)
        ensures
            bridge@ == HueBridgeView::unconfigured(),
    {
        HueBridge::default()
    }

    /// Sets the path of the root CA, in PEM format, that the bridge's
    /// certificate is checked against. The handle is unchecked afterwards and
    /// holds no trust material.
    pub fn ca_pem(self, ca_path: &str) -> (bridge: HueBridge)
        ensures
            bridge@ == (HueBridgeView {
                ca_path: Some(ca_path@),
                trust_material: None,
                state: BootstrapState::Unchecked,
                ..self@
            }),
    {
        let mut bridge = self;
        proof {
            use_type_invariant(&bridge);
        }
        bridge.state = BootstrapState::Unchecked;
        bridge.trust_material = None;
        bridge.ca_path = Some(ca_path.to_owned());
        bridge
    }

    /// Sets the key of an application that is registered already. The handle
    /// is unchecked afterwards.
    pub fn token(self, token: &str) -> (bridge: HueBridge)
        ensures
            bridge@ == (HueBridgeView {
                token: Some(token@),
                state: BootstrapState::Unchecked,
                ..self@
            }),
    {
        let mut bridge = self;
        proof {
            use_type_invariant(&bridge);
        }
        bridge.state = BootstrapState::Unchecked;
        bridge.token = Some(token.to_owned());
        bridge
    }

    /// Sets the URL of the bridge. The handle is unchecked afterwards.
    pub fn api(self, api_url: &str) -> (bridge: HueBridge)
        ensures
            bridge@ == (HueBridgeView {
                api_url: Some(api_url@),
                state: BootstrapState::Unchecked,
                ..self@
            }),
    {
        let mut bridge = self;
        proof {
            use_type_invariant(&bridge);
        }
        bridge.state = BootstrapState::Unchecked;
        bridge.api_url = Some(api_url.to_owned());
        bridge
    }

    /// Accepts a bridge certificate whatever host it names. The handle is
    /// unchecked afterwards.
    pub fn disable_tls(self) -> (bridge: HueBridge)
        ensures
            bridge@ == (HueBridgeView {
                tls_policy: TlsPolicy::AcceptAnyHostname,
                state: BootstrapState::Unchecked,
                ..self@
            }),
    {
        let mut bridge = self;
        proof {
            use_type_invariant(&bridge);
        }
        bridge.state = BootstrapState::Unchecked;
        bridge.disable_tls = true;
        bridge
    }

    /// Sets the name under which the application registers. The handle is
    /// unchecked afterwards.
    pub fn app_name(self, app_name: &str) -> (bridge: HueBridge)
        ensures
            bridge@ == (HueBridgeView {
                app_name: Some(app_name@),
                state: BootstrapState::Unchecked,
                ..self@
            }),
    {
        let mut bridge = self;
        proof {
            use_type_invariant(&bridge);
        }
        bridge.state = BootstrapState::Unchecked;
        bridge.app_name = Some(app_name.to_owned());
        bridge
    }

    /// Whether the handle holds a key. An empty key is no key.
    pub fn has_token(&self) -> (held: bool)
        ensures
            held == self@.has_token(),
    {
        match &self.token {
            Some(token) => !token.as_str().is_empty(),
            None => false,
        }
    }

    /// How far the bootstrap has come.
    pub fn state(&self) -> (state: BootstrapState)
        ensures
            state == self@.state,
            self@.wf(),
    {
        proof {
            use_type_invariant(self);
        }
        self.state
    }

    /// Whether resource calls are permitted. A ready handle holds a key.
    pub fn is_ready(&self) -> (ready: bool)
        ensures
            ready == self@.is_ready(),
            ready ==> self@.has_token(),
    {
        proof {
            use_type_invariant(self);
        }
        self.state == BootstrapState::Ready
    }

    /// Whether the bridge's certificate must name the host asked for.
    pub fn tls_policy(&self) -> (policy: TlsPolicy)
        ensures
            policy == self@.tls_policy,
    {
        if self.disable_tls {
            TlsPolicy::AcceptAnyHostname
        } else {
            TlsPolicy::EnforceHostname
        }
    }

    /// The configured URL of the bridge.
    pub fn api_url(&self) -> (url: Option<&str>)
        ensures
            url.deep_view() == self@.api_url,
    {
        match &self.api_url {
            Some(url) => Some(url.as_str()),
            None => None,
        }
    }

    /// The configured path of the root CA.
    pub fn ca_path(&self) -> (path: Option<&str>)
        ensures
            path.deep_view() == self@.ca_path,
    {
        match &self.ca_path {
            Some(path) => Some(path.as_str()),
            None => None,
        }
    }

    /// The root CA that the bootstrap accepted, as PEM bytes.
    pub fn trust_material(&self) -> (material: &Option<Vec<u8>>)
        ensures
            material.deep_view() == self@.trust_material,
    {
        &self.trust_material
    }

    /// The key that was supplied or that the bridge issued, where the handle
    /// holds one.
    pub fn username(&self) -> (username: Option<&str>)
        ensures
            username.deep_view() == self@.token,
    {
        match &self.token {
            Some(token) => Some(token.as_str()),
            None => None,
        }
    }

    /// The configured application name.
    pub fn application_name(&self) -> (name: Option<&str>)
        ensures
            name.deep_view() == self@.app_name,
    {
        match &self.app_name {
            Some(name) => Some(name.as_str()),
            None => None,
        }
    }

    /// The key of the application: the one that was supplied, or the one that
    /// the bridge issued. For a handle that holds one.
    pub fn get_username(&self) -> (username: &str)
        requires
            self@.token is Some,
        ensures
            Some(username@) == self@.token,
    {
        match &self.token {
            Some(token) => token.as_str(),
            None => "",
        }
    }

    /// The name under which the application registers. For a handle on which
    /// one is configured.
    pub fn get_app_name(&self) -> (name: &str)
        requires
            self@.app_name is Some,
        ensures
            Some(name@) == self@.app_name,
    {
        match &self.app_name {
            Some(name) => name.as_str(),
            None => "",
        }
    }

    /// The key that requests carry: the handle's, where it holds one.
    fn application_key(&self) -> (key: Option<String>)
        ensures
            key.deep_view() == self@.application_key(),
    {
        if self.has_token() {
            self.token.clone()
        } else {
            None
        }
    }

    /// The request of the bootstrap for `endpoint` below the configured URL.
    /// It carries the key where the handle holds one.
    fn plan(&self, method: Method, endpoint: &str, body: Body) -> (r: Result<Request, BridgeError>)
        ensures
            outcome(r) == self@.plan(method, endpoint@, body@),
    {
        match &self.api_url {
            None => Err(BridgeError::Configuration(ConfigurationError::MissingUrl)),
            Some(base) => {
                let text = join(base.as_str(), endpoint);
                let url = parse_url(text.as_str());
                Request::assemble(url, method, self.application_key(), body)
            },
        }
    }

    /// The request with `method` and `body` to a URL that was put to the
    /// parser already: `url` is what the parser made of it. A handle without
    /// key, or with an empty one, makes no request: the call fails with
    /// [`BridgeError::NotRegistered`] before the URL is looked at. Else the
    /// request carries the key, and the call fails where the parser refused
    /// the URL.
    pub fn request_to(
        &self,
        url: Result<String, url::ParseError>,
        method: Method,
        body: Body,
    ) -> (r: Result<Request, BridgeError>)
        ensures
            outcome(r) == self@.request_to(parsed(url), method, body@),
            !self@.has_token() ==> outcome(r) == Err::<RequestView, BridgeErrorView>(
                BridgeErrorView::NotRegistered,
            ),
            r matches Ok(request) ==> request@.application_key == self@.token
                && self@.has_token(),
    {
        if !self.has_token() {
            return Err(BridgeError::NotRegistered);
        }
        Request::assemble(url, method, self.token.clone(), body)
    }

    /// The request with `method` and `body` for `endpoint` below the
    /// configured URL. A handle without key, or with an empty one, makes no
    /// request: the call fails with [`BridgeError::NotRegistered`] before the
    /// URL is looked at. Else the request carries the key, and the call fails
    /// where no URL is configured, or where the URL with the endpoint behind
    /// it is not an absolute URL.
    pub fn do_request(&self, method: Method, endpoint: &str, body: Body) -> (r: Result<
        Request,
        BridgeError,
    >)
        ensures
            outcome(r) == self@.request(method, endpoint@, body@),
            !self@.has_token() ==> outcome(r) == Err::<RequestView, BridgeErrorView>(
                BridgeErrorView::NotRegistered,
            ),
            r matches Ok(request) ==> request@.application_key == self@.token
                && self@.has_token(),
    {
        if !self.has_token() {
            return Err(BridgeError::NotRegistered);
        }
        match &self.api_url {
            None => Err(BridgeError::Configuration(ConfigurationError::MissingUrl)),
            Some(base) => {
                let text = join(base.as_str(), endpoint);
                let url = parse_url(text.as_str());
                self.request_to(url, method, body)
            },
        }
    }

    /// A request that only a ready handle may make: for any other handle the
    /// call fails and there is nothing to send.
    pub fn authorized_request(&self, method: Method, endpoint: &str, body: Body) -> (r: Result<
        Request,
        BridgeError,
    >)
        ensures
            outcome(r) == self@.authorized_request(method, endpoint@, body@),
            r matches Ok(request) ==> request@.application_key matches Some(key) && key.len() > 0,
    {
        if self.is_ready() {
            self.do_request(method, endpoint, body)
        } else {
            Err(BridgeError::NotRegistered)
        }
    }

    /// The request for the bridge's configuration, which a handle may make
    /// before it holds a key.
    pub fn version_request(&self) -> (r: Result<Request, BridgeError>)
        ensures
            outcome(r) == self@.version_request(),
    {
        self.plan(Method::Get, "api/config", Body::Empty)
    }

    /// The request for a new application key, under the configured
    /// application name, which a handle may make before it holds a key.
    pub fn pairing_request(&self) -> (r: Result<Request, BridgeError>)
        ensures
            outcome(r) == self@.pairing_request(),
    {
        match &self.app_name {
            None => Err(BridgeError::Configuration(ConfigurationError::MissingAppName)),
            Some(name) => {
                let application = Application { devicetype: name.clone(), generateclientkey: true };
                self.plan(Method::Post, "api", Body::Application(application))
            },
        }
    }

    /// Takes in the bridge's configuration: the step from unchecked to
    /// version-verified. A handle that holds a key is ready at once, with no
    /// further exchange. Fails, and leaves the handle as it was, where the
    /// handle is not unchecked, where the reported firmware version is not a
    /// number, and where it is a number below [`MINIMUM_BRIDGE_VERSION`].
    pub fn check_version(&mut self, info: &Bridge) -> (r: Result<(), BridgeError>)
        ensures
            match old(self)@.check_version(info@) {
                Ok(next) => r is Ok && final(self)@ == next,
                Err(fault) => r matches Err(e) && e@ == fault && final(self)@ == old(self)@,
            },
            final(self)@.wf(),
    {
        proof {
            use_type_invariant(&*self);
        }
        if self.state != BootstrapState::Unchecked {
            return Err(BridgeError::UnexpectedReply);
        }
        match info.check_version() {
            Err(fault) => Err(fault),
            Ok(()) => {
                if self.has_token() {
                    self.state = BootstrapState::Ready;
                } else {
                    self.state = BootstrapState::VersionVerified;
                }
                Ok(())
            },
        }
    }

    /// Takes in the bridge's reply to the pairing request: the step from
    /// version-verified to ready. Only the first element of the reply counts.
    /// Where it carries an error, the bridge refused and the handle stays as
    /// it was; where it carries a key, the handle holds that key and is
    /// ready. A reply without elements, a first element with neither, an
    /// empty key, and a reply that the handle was not waiting for are
    /// unexpected, and leave the handle as it was.
    pub fn register(&mut self, results: Vec<HueResult>) -> (r: Result<(), BridgeError>)
        ensures
            match old(self)@.register(results.deep_view()) {
                Ok(next) => r is Ok && final(self)@ == next,
                Err(fault) => r matches Err(e) && e@ == fault && final(self)@ == old(self)@,
            },
            final(self)@.wf(),
    {
        proof {
            use_type_invariant(&*self);
        }
        let mut results = results;
        if self.state != BootstrapState::VersionVerified || results.len() == 0 {
            return Err(BridgeError::UnexpectedReply);
        }
        let first = results.remove(0);
        match first.error {
            Some(refusal) => Err(BridgeError::PairingRejected(refusal.description)),
            None => match first.success {
                Some(success) => {
                    if success.username.as_str().is_empty() {
                        Err(BridgeError::UnexpectedReply)
                    } else {
                        self.state = BootstrapState::Unchecked;
                        self.token = Some(success.username);
                        self.state = BootstrapState::Ready;
                        Ok(())
                    }
                },
                None => Err(BridgeError::UnexpectedReply),
            },
        }
    }

    /// What a handle with a verified version does next.
    fn proceed(&self) -> (directive: Directive)
        ensures
            directive@ == self@.proceed(),
    {
        if self.is_ready() {
            Directive::Ready
        } else {
            match self.pairing_request() {
                Ok(request) => Directive::Register(request),
                Err(fault) => Directive::Fail(fault),
            }
        }
    }

    /// The start of the bootstrap, for trust material of which `accepted`
    /// says whether it is a certificate.
    fn start(&mut self, material: Option<Vec<u8>>, accepted: bool) -> (directive: Directive)
        ensures
            (final(self)@, directive@) == old(self)@.start(material.deep_view(), accepted),
    {
        proof {
            use_type_invariant(&*self);
        }
        if self.state != BootstrapState::Unchecked {
            return self.proceed();
        }
        if (material.is_some() && !accepted) || (material.is_none() && self.ca_path.is_some()) {
            return Directive::Fail(
                BridgeError::Configuration(ConfigurationError::InvalidCertificate),
            );
        }
        match self.version_request() {
            Err(fault) => Directive::Fail(fault),
            Ok(request) => {
                if !self.has_token() && self.app_name.is_none() {
                    Directive::Fail(BridgeError::Configuration(ConfigurationError::MissingAppName))
                } else {
                    self.trust_material = material;
                    Directive::CheckVersion(request)
                }
            },
        }
    }

    /// One step of the bootstrap, for an event of which the certificate check
    /// is done: `accepted` says whether the trust material of a
    /// [`Event::Start`] is a certificate, and is not looked at for any other
    /// event. Returns what to do next.
    pub fn step(&mut self, event: Event, accepted: bool) -> (directive: Directive)
        ensures
            (final(self)@, directive@) == old(self)@.step(event@, accepted),
            final(self)@.wf(),
    {
        proof {
            use_type_invariant(&*self);
        }
        let directive = match event {
            Event::Start(material) => self.start(material, accepted),
            Event::BridgeInfo(info) => match self.check_version(&info) {
                Ok(()) => self.proceed(),
                Err(fault) => Directive::Fail(fault),
            },
            Event::PairingReply(results) => match self.register(results) {
                Ok(()) => Directive::Ready,
                Err(fault) => Directive::Fail(fault),
            },
            Event::TransportFailure(description) => Directive::Fail(
                BridgeError::TransportError(description),
            ),
        };
        proof {
            use_type_invariant(&*self);
        }
        directive
    }

    /// One step of the bootstrap: takes in `event` and returns what to do
    /// next. The caller begins with [`Event::Start`], sends each request that
    /// a directive carries and comes back with the reply, until the directive
    /// is [`Directive::Ready`] or [`Directive::Fail`].
    ///
    /// The trust material of a start is put to the certificate parser, which
    /// accepts or refuses it; material longer than
    /// [`MAX_TRUST_MATERIAL_LEN`] is refused without being put to it. Apart
    /// from that, the step is [`HueBridgeView::step`].
    pub fn build(&mut self, event: Event) -> (directive: Directive)
        ensures
            (final(self)@, directive@) == old(self)@.step(event@, true) || (final(self)@, directive@)
                == old(self)@.step(event@, false),
            !(event@ matches EventView::Start(Some(_))) ==> (final(self)@, directive@) == old(
                self,
            )@.step(event@, true),
            event@ matches EventView::Start(Some(material)) ==> material.len()
                > MAX_TRUST_MATERIAL_LEN ==> (final(self)@, directive@) == old(self)@.step(
                event@,
                false,
            ),
            final(self)@.wf(),
    {
        let accepted = match &event {
            Event::Start(Some(material)) => material.len() <= MAX_TRUST_MATERIAL_LEN
                && certificate_from_pem(material.as_slice()).is_ok(),
            _ => true,
        };
        self.step(event, accepted)
    }
}

/// The longest trust material, in bytes, that is put to the certificate
/// parser.
pub const MAX_TRUST_MATERIAL_LEN: usize = 0x7fff_ffff;

/// `reqwest::Certificate`, a parsed root certificate. Opaque here.
#[verifier::external_type_specification]
#[verifier::external_body]
pub struct ExCertificate(reqwest::Certificate);

/// `reqwest::Error`, the error of the HTTP client. Opaque here.
#[verifier::external_type_specification]
#[verifier::external_body]
pub struct ExTransportError(reqwest::Error);

/// `reqwest::Certificate::from_pem`: the certificate that the PEM bytes hold,
/// or the error of the TLS backend that refused them. Nothing is claimed of
/// the outcome: which bytes a backend accepts is its own matter. The backend
/// takes no more bytes than the largest 32-bit signed number and panics on
/// more, so longer input is left out.
#[verifier::external_body]
pub(crate) fn certificate_from_pem(pem: &[u8]) -> (r: Result<
    reqwest::Certificate,
    reqwest::Error,
>)
    requires
        pem@.len() <= MAX_TRUST_MATERIAL_LEN,
{
    reqwest::Certificate::from_pem(pem)
}

} // verus!
