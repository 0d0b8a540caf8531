//! The exchanges with the bridge, as values: what to send, to which URL, with
//! which key. Sending them is the caller's part.

use crate::api::resources::light::{LightPayload, LightPayloadView};
use crate::error::{outcome, BridgeError, BridgeErrorView, ConfigurationError};
use vstd::prelude::*;
use vstd::string::*;

verus! {

/// The name of the header that carries the application key.
pub const APPLICATION_KEY_HEADER: &'static str = "hue-application-key";

/// The HTTP methods that the client uses.
#[derive(Clone, Copy, Debug, PartialEq, Eq, Structural)]
pub enum Method {
    Get,
    Put,
    Post,
}

/// The body of the pairing request: who asks for a key.
#[derive(Clone, Debug, PartialEq, Eq)]
pub struct Application {
    pub devicetype: String,
    pub generateclientkey: bool,
}

/// The mathematical form of an [`Application`].
pub struct ApplicationView {
    pub devicetype: Seq<char>,
    pub generateclientkey: bool,
}

impl View for Application {
    type V = ApplicationView;

    open spec fn view(&self) -> ApplicationView {
        ApplicationView { devicetype: self.devicetype@, generateclientkey: self.generateclientkey }
    }
}

impl DeepView for Application {
    type V = ApplicationView;

    open spec fn deep_view(&self) -> ApplicationView {
        self@
    }
}

/// What a request carries, before it is encoded for the wire.
#[derive(Clone, Debug, PartialEq, Eq)]
pub enum Body {
    Empty,
    Application(Application),
    Light(LightPayload),
}

/// The mathematical form of a [`Body`].
pub enum BodyView {
    Empty,
    Application(ApplicationView),
    Light(LightPayloadView),
}

impl View for Body {
    type V = BodyView;

    open spec fn view(&self) -> BodyView {
        match self {
            Body::Empty => BodyView::Empty,
            Body::Application(application) => BodyView::Application(application@),
            Body::Light(light) => BodyView::Light(light@),
        }
    }
}

impl DeepView for Body {
    type V = BodyView;

    open spec fn deep_view(&self) -> BodyView {
        self@
    }
}

/// One exchange to perform with the bridge.
#[derive(Clone, Debug, PartialEq, Eq)]
pub struct Request {
    pub method: Method,
    /// The absolute URL to send to.
    pub url: String,
    /// The value of the [`APPLICATION_KEY_HEADER`] header, where the handle
    /// holds a key.
    pub application_key: Option<String>,
    pub body: Body,
}

/// The mathematical form of a [`Request`].
pub struct RequestView {
    pub method: Method,
    pub url: Seq<char>,
    pub application_key: Option<Seq<char>>,
    pub body: BodyView,
}

impl View for Request {
    type V = RequestView;

    open spec fn view(&self) -> RequestView {
        RequestView {
            method: self.method,
            url: self.url@,
            application_key: self.application_key.deep_view(),
            body: self.body@,
        }
    }
}

impl DeepView for Request {
    type V = RequestView;

    open spec fn deep_view(&self) -> RequestView {
        self@
    }
}

/// The request to a URL that was put to the parser: `url` is what the parser
/// made of it, nothing where it refused.
pub open spec fn assembled(
    url: Option<Seq<char>>,
    method: Method,
    application_key: Option<Seq<char>>,
    body: BodyView,
) -> Result<RequestView, BridgeErrorView> {
    match url {
        None => Err(BridgeErrorView::Configuration(ConfigurationError::InvalidUrl)),
        Some(url) => Ok(RequestView { method, url, application_key, body }),
    }
}

/// What the URL parser made of a text, as a plain value.
pub open spec fn parsed(url: Result<String, url::ParseError>) -> Option<Seq<char>> {
    match url {
        Ok(url) => Some(url@),
        Err(_) => None,
    }
}

impl Request {
    /// Puts a request together from its parts, for a URL that was put to the
    /// parser: `url` is what the parser made of it. Fails where the parser
    /// refused the URL. Whether a handle may make the request is not looked
    /// at here: [`crate::HueBridge::do_request`] decides that.
    pub fn assemble(
        url: Result<String, url::ParseError>,
        method: Method,
        application_key: Option<String>,
        body: Body,
    ) -> (r: Result<Request, BridgeError>)
        ensures
            outcome(r) == assembled(parsed(url), method, application_key.deep_view(), body@),
    {
        match url {
            Err(_) => Err(BridgeError::Configuration(ConfigurationError::InvalidUrl)),
            Ok(url) => Ok(Request { method, url, application_key, body }),
        }
    }
}

/// The URL of `endpoint` below `base`, before it is parsed: the two, with a
/// slash between them.
pub open spec fn joined(base: Seq<char>, endpoint: Seq<char>) -> Seq<char> {
    base + seq!['/'] + endpoint
}

/// Writes `endpoint` behind `base`, with a slash between them.
pub fn join(base: &str, endpoint: &str) -> (text: String)
    ensures
        text@ == joined(base@, endpoint@),
{
    proof {
        reveal_strlit("/");
    }
    let mut text = String::from_str(base);
    text.append("/");
    text.append(endpoint);
    assert("/"@ =~= seq!['/']);
    text
}

/// `url::ParseError`, the error of the URL parser. Opaque here.
#[verifier::external_type_specification]
#[verifier::external_body]
pub struct ExUrlParseError(url::ParseError);

/// The absolute URL that a text denotes, in the form in which the `url` crate
/// writes it back, where the text denotes one.
pub uninterp spec fn parsed_url(input: Seq<char>) -> Option<Seq<char>>;

/// `reqwest::Url::parse`, with the URL turned back into text: the normal form
/// of the absolute URL that `input` denotes, or the parser's error where it
/// denotes none. The contract names the outcome and claims nothing else of it.
#[verifier::external_body]
pub(crate) fn parse_url(input: &str) -> (r: Result<String, url::ParseError>)
    ensures
        match r {
            Ok(url) => parsed_url(input@) == Some(url@),
            Err(_) => parsed_url(input@) is None,
        },
{
    reqwest::Url::parse(input).map(String::from)
}

} // verus!
