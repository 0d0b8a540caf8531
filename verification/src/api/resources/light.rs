//! The light resource: what the bridge reports of a light, and the calls that
//! list, read and change lights.

use crate::error::{outcome, BridgeError, BridgeErrorView};
use crate::bootstrap::HueBridgeView;
use crate::huebridge::HueBridge;
use crate::request::{join, joined, parsed_url, Body, BodyView, Method, Request, RequestView};
use vstd::prelude::*;
use vstd::string::*;

verus! {

/// What a light is called and what kind of fixture it is.
#[derive(Clone, Debug, PartialEq, Eq)]
pub struct Meta {
    name: String,
    archetype: String,
}

/// The mathematical form of a [`Meta`].
pub struct MetaView {
    pub name: Seq<char>,
    pub archetype: Seq<char>,
}

impl View for Meta {
    type V = MetaView;

    closed spec fn view(&self) -> MetaView {
        MetaView { name: self.name@, archetype: self.archetype@ }
    }
}

impl DeepView for Meta {
    type V = MetaView;

    open spec fn deep_view(&self) -> MetaView {
        self@
    }
}

impl Meta {
    pub fn new(name: String, archetype: String) -> (meta: Meta)
        ensures
            meta@ == (MetaView { name: name@, archetype: archetype@ }),
    {
        Meta { name, archetype }
    }

    pub fn name(&self) -> (name: &str)
        ensures
            name@ == self@.name,
    {
        self.name.as_str()
    }

    pub fn archetype(&self) -> (archetype: &str)
        ensures
            archetype@ == self@.archetype,
    {
        self.archetype.as_str()
    }
}

/// Whether the light is switched on.
#[derive(Clone, Copy, Debug, PartialEq, Eq, Structural)]
pub struct On {
    pub on: bool,
}

impl View for On {
    type V = On;

    open spec fn view(&self) -> On {
        *self
    }
}

impl DeepView for On {
    type V = On;

    open spec fn deep_view(&self) -> On {
        *self
    }
}

/// One failure that the bridge reports in a reply.
#[derive(Clone, Debug, PartialEq, Eq)]
pub struct ResourceErr {
    description: String,
}

/// The mathematical form of a [`ResourceErr`].
pub struct ResourceErrView {
    pub description: Seq<char>,
}

impl View for ResourceErr {
    type V = ResourceErrView;

    closed spec fn view(&self) -> ResourceErrView {
        ResourceErrView { description: self.description@ }
    }
}

impl DeepView for ResourceErr {
    type V = ResourceErrView;

    open spec fn deep_view(&self) -> ResourceErrView {
        self@
    }
}

impl ResourceErr {
    pub fn new(description: String) -> (err: ResourceErr)
        ensures
            err@ == (ResourceErrView { description: description@ }),
    {
        ResourceErr { description }
    }

    pub fn description(&self) -> (description: &str)
        ensures
            description@ == self@.description,
    {
        self.description.as_str()
    }
}

/// How bright the light is. The brightness is a single-precision number in a
/// range that the device defines; the client carries it as the number's bit
/// pattern and never computes with it.
#[derive(Clone, Copy, Debug, PartialEq, Eq, Structural)]
pub struct Dimming {
    pub brightness_bits: u32,
}

impl View for Dimming {
    type V = Dimming;

    open spec fn view(&self) -> Dimming {
        *self
    }
}

impl DeepView for Dimming {
    type V = Dimming;

    open spec fn deep_view(&self) -> Dimming {
        *self
    }
}

impl Default for Dimming {
    /// Brightness zero.
    fn default() -> (dimming: Dimming)
        ensures
            dimming == (Dimming { brightness_bits: 0 }),
    {
        Dimming { brightness_bits: 0 }
    }
}

/// A dimming movement that is under way.
#[derive(Clone, Copy, Debug, PartialEq, Eq, Structural)]
pub enum Action {
    Up,
    Down,
    Stop,
}

impl View for Action {
    type V = Action;

    open spec fn view(&self) -> Action {
        *self
    }
}

impl DeepView for Action {
    type V = Action;

    open spec fn deep_view(&self) -> Action {
        *self
    }
}

impl Default for Action {
    fn default() -> (action: Action)
        ensures
            action == Action::Up,
    {
        Action::Up
    }
}

/// The dimming movement of a light, if one is pending.
#[derive(Clone, Copy, Debug, PartialEq, Eq, Structural)]
pub struct DimmingDelta {
    pub action: Option<Action>,
}

impl View for DimmingDelta {
    type V = DimmingDelta;

    open spec fn view(&self) -> DimmingDelta {
        *self
    }
}

impl DeepView for DimmingDelta {
    type V = DimmingDelta;

    open spec fn deep_view(&self) -> DimmingDelta {
        *self
    }
}

impl Default for DimmingDelta {
    fn default() -> (delta: DimmingDelta)
        ensures
            delta == (DimmingDelta { action: None }),
    {
        DimmingDelta { action: None }
    }
}

/// The colour temperature of a light in mired, where the light has one.
#[derive(Clone, Copy, Debug, PartialEq, Eq, Structural)]
pub struct ColorTemperature {
    pub mirek: Option<u16>,
}

impl View for ColorTemperature {
    type V = ColorTemperature;

    open spec fn view(&self) -> ColorTemperature {
        *self
    }
}

impl DeepView for ColorTemperature {
    type V = ColorTemperature;

    open spec fn deep_view(&self) -> ColorTemperature {
        *self
    }
}

impl Default for ColorTemperature {
    fn default() -> (temperature: ColorTemperature)
        ensures
            temperature == (ColorTemperature { mirek: None }),
    {
        ColorTemperature { mirek: None }
    }
}

/// One light, as the bridge reports it and as the client sends it back.
#[derive(Clone, Debug, PartialEq, Eq)]
pub struct LightPayload {
    pub id: String,
    pub metadata: Meta,
    pub on: On,
    pub dimming: Dimming,
    pub dimming_delta: Option<DimmingDelta>,
    pub color_temperature: ColorTemperature,
    resource_type: String,
}

/// The mathematical form of a [`LightPayload`].
pub struct LightPayloadView {
    pub id: Seq<char>,
    pub metadata: MetaView,
    pub on: On,
    pub dimming: Dimming,
    pub dimming_delta: Option<DimmingDelta>,
    pub color_temperature: ColorTemperature,
    pub resource_type: Seq<char>,
}

impl View for LightPayload {
    type V = LightPayloadView;

    closed spec fn view(&self) -> LightPayloadView {
        LightPayloadView {
            id: self.id@,
            metadata: self.metadata@,
            on: self.on,
            dimming: self.dimming,
            dimming_delta: self.dimming_delta,
            color_temperature: self.color_temperature,
            resource_type: self.resource_type@,
        }
    }
}

impl DeepView for LightPayload {
    type V = LightPayloadView;

    open spec fn deep_view(&self) -> LightPayloadView {
        self@
    }
}

impl LightPayload {
    pub fn new(
        id: String,
        metadata: Meta,
        on: On,
        dimming: Dimming,
        dimming_delta: Option<DimmingDelta>,
        color_temperature: ColorTemperature,
        resource_type: String,
    ) -> (light: LightPayload)
        ensures
            light@ == (LightPayloadView {
                id: id@,
                metadata: metadata@,
                on,
                dimming,
                dimming_delta,
                color_temperature,
                resource_type: resource_type@,
            }),
    {
        LightPayload { id, metadata, on, dimming, dimming_delta, color_temperature, resource_type }
    }

    /// The identifier of the light.
    pub fn id(&self) -> (id: &str)
        ensures
            id@ == self@.id,
    {
        self.id.as_str()
    }

    /// What the light is called and what kind of fixture it is.
    pub fn metadata(&self) -> (metadata: &Meta)
        ensures
            metadata@ == self@.metadata,
    {
        &self.metadata
    }

    /// Whether the light is switched on.
    pub fn on(&self) -> (on: On)
        ensures
            on == self@.on,
    {
        self.on
    }

    /// How bright the light is.
    pub fn dimming(&self) -> (dimming: Dimming)
        ensures
            dimming == self@.dimming,
    {
        self.dimming
    }

    /// The dimming movement of the light, if one is pending.
    pub fn dimming_delta(&self) -> (delta: Option<DimmingDelta>)
        ensures
            delta == self@.dimming_delta,
    {
        self.dimming_delta
    }

    /// The colour temperature of the light.
    pub fn color_temperature(&self) -> (temperature: ColorTemperature)
        ensures
            temperature == self@.color_temperature,
    {
        self.color_temperature
    }

    /// The resource type that the bridge gives the item: `light` for a light.
    pub fn resource_type(&self) -> (resource_type: &str)
        ensures
            resource_type@ == self@.resource_type,
    {
        self.resource_type.as_str()
    }
}

/// The envelope of every reply to a light call: the items, and the errors
/// where the bridge reports any.
#[derive(Clone, Debug, PartialEq, Eq)]
pub struct LightResponse {
    data: Vec<LightPayload>,
    error: Option<Vec<ResourceErr>>,
}

/// The mathematical form of a [`LightResponse`].
pub struct LightResponseView {
    pub data: Seq<LightPayloadView>,
    pub error: Option<Seq<ResourceErrView>>,
}

impl LightResponseView {
    /// The error that the envelope reports: the description of the first of
    /// its errors, where it lists any. Further errors are not looked at.
    pub open spec fn reported_error(self) -> Option<Seq<char>> {
        match self.error {
            Some(errors) => if errors.len() > 0 {
                Some(errors[0].description)
            } else {
                None
            },
            None => None,
        }
    }
}

impl View for LightResponse {
    type V = LightResponseView;

    closed spec fn view(&self) -> LightResponseView {
        LightResponseView { data: self.data.deep_view(), error: self.error.deep_view() }
    }
}

impl DeepView for LightResponse {
    type V = LightResponseView;

    open spec fn deep_view(&self) -> LightResponseView {
        self@
    }
}

impl LightResponse {
    pub fn new(data: Vec<LightPayload>, error: Option<Vec<ResourceErr>>) -> (envelope: LightResponse)
        ensures
            envelope@ == (LightResponseView { data: data.deep_view(), error: error.deep_view() }),
    {
        LightResponse { data, error }
    }

    /// The items of the reply, in the bridge's order.
    pub fn data(&self) -> (data: &Vec<LightPayload>)
        ensures
            data.deep_view() == self@.data,
    {
        &self.data
    }

    /// The errors of the reply, where the bridge listed any.
    pub fn error(&self) -> (error: &Option<Vec<ResourceErr>>)
        ensures
            error.deep_view() == self@.error,
    {
        &self.error
    }

    /// The error that the envelope reports: the description of the first of
    /// its errors, where it lists any.
    pub fn reported_error(&self) -> (description: Option<String>)
        ensures
            description.deep_view() == self@.reported_error(),
    {
        match &self.error {
            Some(errors) => if errors.len() > 0 {
                Some(errors[0].description.clone())
            } else {
                None
            },
            None => None,
        }
    }
}

/// The endpoint of the light resource, below the bridge's URL.
pub open spec fn light_endpoint() -> Seq<char> {
    "clip/v2/resource/light"@
}

/// The light resource of one bridge.
#[derive(Clone, Debug, PartialEq, Eq)]
pub struct Light {
    endpoint: String,
    bridge: HueBridge,
}

/// The mathematical form of a [`Light`].
pub struct LightView {
    pub endpoint: Seq<char>,
    pub bridge: HueBridgeView,
}

impl LightView {
    /// The request that lists all lights.
    pub open spec fn list_request(self) -> Result<RequestView, BridgeErrorView> {
        self.bridge.authorized_request(Method::Get, self.endpoint, BodyView::Empty)
    }

    /// The request that reads the light `id`.
    pub open spec fn get_request(self, id: Seq<char>) -> Result<RequestView, BridgeErrorView> {
        self.bridge.authorized_request(Method::Get, joined(self.endpoint, id), BodyView::Empty)
    }

    /// The request that puts `light` to the resource's endpoint.
    pub open spec fn set_request(self, light: LightPayloadView) -> Result<
        RequestView,
        BridgeErrorView,
    > {
        self.bridge.authorized_request(Method::Put, self.endpoint, BodyView::Light(light))
    }

    /// What a reply means before its items are looked at. The handle has to
    /// be ready; an error that the bridge reports goes before any item; else
    /// the envelope stands as it came.
    pub open spec fn reply(self, envelope: LightResponseView) -> Result<
        LightResponseView,
        BridgeErrorView,
    > {
        if !self.bridge.is_ready() {
            Err(BridgeErrorView::NotRegistered)
        } else {
            match envelope.reported_error() {
                Some(description) => Err(BridgeErrorView::ServerError(description)),
                None => Ok(envelope),
            }
        }
    }

    /// What a reply to [`LightView::set_request`] means: the envelope as it
    /// came, unless it reports an error.
    pub open spec fn set(self, envelope: LightResponseView) -> Result<
        LightResponseView,
        BridgeErrorView,
    > {
        self.reply(envelope)
    }

    /// The lights that a reply lists: its items, as they came.
    pub open spec fn list(self, envelope: LightResponseView) -> Result<
        Seq<LightPayloadView>,
        BridgeErrorView,
    > {
        match self.reply(envelope) {
            Ok(envelope) => Ok(envelope.data),
            Err(fault) => Err(fault),
        }
    }

    /// The light that a reply holds: the first of its items.
    pub open spec fn get(self, envelope: LightResponseView) -> Result<
        LightPayloadView,
        BridgeErrorView,
    > {
        match self.reply(envelope) {
            Ok(envelope) => if envelope.data.len() > 0 {
                Ok(envelope.data[0])
            } else {
                Err(BridgeErrorView::NotFound)
            },
            Err(fault) => Err(fault),
        }
    }
}

/// Before the handle is ready, every light call fails with
/// [`BridgeErrorView::NotRegistered`]: there is no request to send, and no
/// reply is read.
pub proof fn lemma_unready_light_makes_no_call(
    light: LightView,
    id: Seq<char>,
    payload: LightPayloadView,
    envelope: LightResponseView,
)
    requires
        !light.bridge.is_ready(),
    ensures
        light.list_request() == Err::<RequestView, BridgeErrorView>(BridgeErrorView::NotRegistered),
        light.get_request(id) == Err::<RequestView, BridgeErrorView>(BridgeErrorView::NotRegistered),
        light.set_request(payload) == Err::<RequestView, BridgeErrorView>(
            BridgeErrorView::NotRegistered,
        ),
        light.list(envelope) == Err::<Seq<LightPayloadView>, BridgeErrorView>(
            BridgeErrorView::NotRegistered,
        ),
        light.get(envelope) == Err::<LightPayloadView, BridgeErrorView>(
            BridgeErrorView::NotRegistered,
        ),
        light.set(envelope) == Err::<LightResponseView, BridgeErrorView>(
            BridgeErrorView::NotRegistered,
        ),
{
}

/// Every request of a light call carries the handle's key, which is not
/// empty, and goes to the URL that the parser makes of the bridge's URL with
/// the endpoint behind it.
pub proof fn lemma_light_requests_carry_key(
    light: LightView,
    id: Seq<char>,
    payload: LightPayloadView,
)
    requires
        light.bridge.wf(),
    ensures
        light.list_request() matches Ok(request) ==> {
            &&& light.bridge.has_token()
            &&& request.application_key == light.bridge.token
            &&& request.method == Method::Get
            &&& request.body == BodyView::Empty
            &&& light.bridge.api_url matches Some(base)
            &&& parsed_url(joined(base, light.endpoint)) == Some(request.url)
        },
        light.get_request(id) matches Ok(request) ==> {
            &&& light.bridge.has_token()
            &&& request.application_key == light.bridge.token
            &&& request.method == Method::Get
            &&& request.body == BodyView::Empty
            &&& light.bridge.api_url matches Some(base)
            &&& parsed_url(joined(base, joined(light.endpoint, id))) == Some(request.url)
        },
        light.set_request(payload) matches Ok(request) ==> {
            &&& light.bridge.has_token()
            &&& request.application_key == light.bridge.token
            &&& request.method == Method::Put
            &&& request.body == BodyView::Light(payload)
            &&& light.bridge.api_url matches Some(base)
            &&& parsed_url(joined(base, light.endpoint)) == Some(request.url)
        },
{
}

/// An error that the bridge reports goes before the items: with a ready
/// handle, a reply that lists an error is that error for every light call,
/// whatever items it holds.
pub proof fn lemma_reported_error_goes_first(light: LightView, envelope: LightResponseView)
    requires
        light.bridge.is_ready(),
        envelope.reported_error() is Some,
    ensures
        light.list(envelope) == Err::<Seq<LightPayloadView>, BridgeErrorView>(
            BridgeErrorView::ServerError(envelope.reported_error().unwrap()),
        ),
        light.get(envelope) == Err::<LightPayloadView, BridgeErrorView>(
            BridgeErrorView::ServerError(envelope.reported_error().unwrap()),
        ),
        light.set(envelope) == Err::<LightResponseView, BridgeErrorView>(
            BridgeErrorView::ServerError(envelope.reported_error().unwrap()),
        ),
{
}

/// With a ready handle, a reply without error gives its items unchanged and
/// in the bridge's order; reading one light from it gives the first item, and
/// fails with [`BridgeErrorView::NotFound`] where there is none.
pub proof fn lemma_reply_without_error(light: LightView, envelope: LightResponseView)
    requires
        light.bridge.is_ready(),
        envelope.reported_error() is None,
    ensures
        light.list(envelope) == Ok::<Seq<LightPayloadView>, BridgeErrorView>(envelope.data),
        light.set(envelope) == Ok::<LightResponseView, BridgeErrorView>(envelope),
        envelope.data.len() > 0 ==> light.get(envelope) == Ok::<LightPayloadView, BridgeErrorView>(
            envelope.data[0],
        ),
        envelope.data.len() == 0 ==> light.get(envelope) == Err::<LightPayloadView, BridgeErrorView>(
            BridgeErrorView::NotFound,
        ),
{
}

impl View for Light {
    type V = LightView;

    closed spec fn view(&self) -> LightView {
        LightView { endpoint: self.endpoint@, bridge: self.bridge@ }
    }
}

impl DeepView for Light {
    type V = LightView;

    open spec fn deep_view(&self) -> LightView {
        self@
    }
}

impl Light {
    /// The light resource of `bridge`.
    pub fn new(bridge: HueBridge) -> (light: Light)
        ensures
            light@ == (LightView { endpoint: light_endpoint(), bridge: bridge@ }),
    {
        Light { endpoint: String::from_str("clip/v2/resource/light"), bridge }
    }

    /// The endpoint of the resource, below the bridge's URL.
    pub fn endpoint(&self) -> (endpoint: &str)
        ensures
            endpoint@ == self@.endpoint,
    {
        self.endpoint.as_str()
    }

    /// The handle that the calls go through.
    pub fn bridge(&self) -> (bridge: &HueBridge)
        ensures
            bridge@ == self@.bridge,
    {
        &self.bridge
    }

    /// The request that lists all lights. Fails with
    /// [`BridgeError::NotRegistered`] on a handle that is not ready.
    pub fn list_request(&self) -> (r: Result<Request, BridgeError>)
        ensures
            outcome(r) == self@.list_request(),
            !self@.bridge.is_ready() ==> outcome(r) == Err::<RequestView, BridgeErrorView>(
                BridgeErrorView::NotRegistered,
            ),
    {
        self.bridge.authorized_request(Method::Get, self.endpoint.as_str(), Body::Empty)
    }

    /// Reads the reply to [`Light::list_request`]: the lights, in the
    /// bridge's order. An error that the bridge reports goes before the
    /// items.
    pub fn list(&self, envelope: LightResponse) -> (r: Result<Vec<LightPayload>, BridgeError>)
        ensures
            outcome(r) == self@.list(envelope@),
            !self@.bridge.is_ready() ==> outcome(r) == Err::<Seq<LightPayloadView>, BridgeErrorView>(
                BridgeErrorView::NotRegistered,
            ),
    {
        match self.set(envelope) {
            Ok(envelope) => Ok(envelope.data),
            Err(fault) => Err(fault),
        }
    }

    /// The request that puts `light` to the resource's endpoint. Fails with
    /// [`BridgeError::NotRegistered`] on a handle that is not ready.
    pub fn set_request(&self, light: LightPayload) -> (r: Result<Request, BridgeError>)
        ensures
            outcome(r) == self@.set_request(light@),
            !self@.bridge.is_ready() ==> outcome(r) == Err::<RequestView, BridgeErrorView>(
                BridgeErrorView::NotRegistered,
            ),
    {
        self.bridge.authorized_request(Method::Put, self.endpoint.as_str(), Body::Light(light))
    }

    /// Reads the reply to [`Light::set_request`]: the envelope as it came,
    /// unless the bridge reports an error in it.
    pub fn set(&self, envelope: LightResponse) -> (r: Result<LightResponse, BridgeError>)
        ensures
            outcome(r) == self@.set(envelope@),
            !self@.bridge.is_ready() ==> outcome(r) == Err::<LightResponseView, BridgeErrorView>(
                BridgeErrorView::NotRegistered,
            ),
    {
        if !self.bridge.is_ready() {
            return Err(BridgeError::NotRegistered);
        }
        match envelope.reported_error() {
            Some(description) => Err(BridgeError::ServerError(description)),
            None => Ok(envelope),
        }
    }

    /// The request that reads the light `id`. Fails with
    /// [`BridgeError::NotRegistered`] on a handle that is not ready.
    pub fn get_request(&self, id: &str) -> (r: Result<Request, BridgeError>)
        ensures
            outcome(r) == self@.get_request(id@),
            !self@.bridge.is_ready() ==> outcome(r) == Err::<RequestView, BridgeErrorView>(
                BridgeErrorView::NotRegistered,
            ),
    {
        let endpoint = join(self.endpoint.as_str(), id);
        self.bridge.authorized_request(Method::Get, endpoint.as_str(), Body::Empty)
    }

    /// Reads the reply to [`Light::get_request`]: the first item. A reply
    /// without error and without items is [`BridgeError::NotFound`].
    pub fn get(&self, envelope: LightResponse) -> (r: Result<LightPayload, BridgeError>)
        ensures
            outcome(r) == self@.get(envelope@),
            !self@.bridge.is_ready() ==> outcome(r) == Err::<LightPayloadView, BridgeErrorView>(
                BridgeErrorView::NotRegistered,
            ),
    {
        match self.set(envelope) {
            Ok(envelope) => {
                let mut data = envelope.data;
                if data.len() > 0 {
                    Ok(data.remove(0))
                } else {
                    Err(BridgeError::NotFound)
                }
            },
            Err(fault) => Err(fault),
        }
    }
}

} // verus!
