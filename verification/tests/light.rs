use hue_bridge::api::resources::light::{
    Action, ColorTemperature, Dimming, DimmingDelta, LightPayload, LightResponse, Meta, On,
    ResourceErr,
};
use hue_bridge::bootstrap::Event;
use hue_bridge::request::{Body, Method, Request};
use hue_bridge::{Bridge, BridgeError, HueBridge, Light};

fn ready_bridge() -> HueBridge {
    let mut bridge = HueBridge::builder().api("https://bridge").token("abc");
    let info = Bridge {
        name: "Philips hue".to_string(),
        datastoreversion: "126".to_string(),
        swversion: "1948086000".to_string(),
        apiversion: "1.50.0".to_string(),
        mac: "00:17:88:00:00:00".to_string(),
        bridgeid: "001788FFFE000000".to_string(),
        factorynew: false,
        modelid: "BSB002".to_string(),
    };
    bridge.build(Event::BridgeInfo(info));
    assert!(bridge.is_ready());
    bridge
}

fn lamp(id: &str, name: &str) -> LightPayload {
    LightPayload::new(
        id.to_string(),
        Meta::new(name.to_string(), "sultan_bulb".to_string()),
        On { on: true },
        Dimming { brightness_bits: 54.33f32.to_bits() },
        Some(DimmingDelta { action: Some(Action::Stop) }),
        ColorTemperature { mirek: Some(366) },
        "light".to_string(),
    )
}

fn failure(description: &str) -> ResourceErr {
    ResourceErr::new(description.to_string())
}

#[test]
fn payload_holds_what_it_was_made_of() {
    let light = lamp("235eb2fc-98de-4462-850b-f255d9a39995", "Desk");
    assert_eq!(light.id, "235eb2fc-98de-4462-850b-f255d9a39995");
    assert_eq!(light.metadata.name(), "Desk");
    assert_eq!(light.metadata.archetype(), "sultan_bulb");
    assert_eq!(light.on, On { on: true });
    assert_eq!(f32::from_bits(light.dimming.brightness_bits), 54.33f32);
    assert_eq!(light.dimming_delta, Some(DimmingDelta { action: Some(Action::Stop) }));
    assert_eq!(light.color_temperature.mirek, Some(366));
    assert_eq!(light.resource_type(), "light");
    assert_eq!(failure("x").description(), "x");
}

#[test]
fn payload_getters_give_the_fields() {
    let light = lamp("a", "Desk");
    assert_eq!(light.id(), "a");
    assert_eq!(light.metadata(), &Meta::new("Desk".to_string(), "sultan_bulb".to_string()));
    assert_eq!(light.on(), On { on: true });
    assert_eq!(light.dimming(), Dimming { brightness_bits: 54.33f32.to_bits() });
    assert_eq!(light.dimming_delta(), Some(DimmingDelta { action: Some(Action::Stop) }));
    assert_eq!(light.color_temperature(), ColorTemperature { mirek: Some(366) });
    let plain = LightPayload::new(
        "b".to_string(),
        Meta::new(String::new(), String::new()),
        On { on: false },
        Dimming::default(),
        None,
        ColorTemperature::default(),
        "light".to_string(),
    );
    assert_eq!(plain.id(), "b");
    assert_eq!(plain.on(), On { on: false });
    assert_eq!(plain.dimming_delta(), None);
    assert_eq!(plain.color_temperature(), ColorTemperature { mirek: None });
}

#[test]
fn defaults_are_the_empty_values() {
    assert_eq!(Action::default(), Action::Up);
    assert_eq!(DimmingDelta::default(), DimmingDelta { action: None });
    assert_eq!(ColorTemperature::default(), ColorTemperature { mirek: None });
    assert_eq!(Dimming::default(), Dimming { brightness_bits: 0.0f32.to_bits() });
}

#[test]
fn envelope_reports_its_first_error() {
    assert_eq!(LightResponse::new(vec![], None).reported_error(), None);
    assert_eq!(LightResponse::new(vec![], Some(vec![])).reported_error(), None);
    assert_eq!(
        LightResponse::new(vec![], Some(vec![failure("x")])).reported_error(),
        Some("x".to_string())
    );
    assert_eq!(
        LightResponse::new(vec![lamp("a", "A")], Some(vec![failure("first"), failure("second")]))
            .reported_error(),
        Some("first".to_string())
    );
}

#[test]
fn envelope_gives_back_its_parts() {
    let envelope = LightResponse::new(vec![lamp("a", "A")], Some(vec![failure("x")]));
    assert_eq!(envelope.data(), &vec![lamp("a", "A")]);
    assert_eq!(envelope.error(), &Some(vec![failure("x")]));
}

#[test]
fn new_light_uses_the_light_endpoint() {
    let light = Light::new(ready_bridge());
    assert_eq!(light.bridge(), &ready_bridge());
    assert_eq!(light.endpoint(), "clip/v2/resource/light");
    assert_eq!(
        light.list_request(),
        Ok(Request {
            method: Method::Get,
            url: "https://bridge/clip/v2/resource/light".to_string(),
            application_key: Some("abc".to_string()),
            body: Body::Empty,
        })
    );
}

#[test]
fn get_request_names_the_light() {
    let light = Light::new(ready_bridge());
    assert_eq!(
        light.get_request("235eb2fc-98de-4462-850b-f255d9a39995"),
        Ok(Request {
            method: Method::Get,
            url: "https://bridge/clip/v2/resource/light/235eb2fc-98de-4462-850b-f255d9a39995"
                .to_string(),
            application_key: Some("abc".to_string()),
            body: Body::Empty,
        })
    );
}

#[test]
fn set_request_puts_the_payload() {
    let light = Light::new(ready_bridge());
    assert_eq!(
        light.set_request(lamp("a", "Desk")),
        Ok(Request {
            method: Method::Put,
            url: "https://bridge/clip/v2/resource/light".to_string(),
            application_key: Some("abc".to_string()),
            body: Body::Light(lamp("a", "Desk")),
        })
    );
}

#[test]
fn list_returns_the_one_item_unchanged() {
    let light = Light::new(ready_bridge());
    let envelope = LightResponse::new(vec![lamp("a", "Desk")], None);
    assert_eq!(light.list(envelope), Ok(vec![lamp("a", "Desk")]));
}

#[test]
fn list_keeps_the_bridges_order() {
    let light = Light::new(ready_bridge());
    let items = vec![lamp("c", "Third"), lamp("a", "First"), lamp("b", "Second"), lamp("a", "First")];
    assert_eq!(light.list(LightResponse::new(items.clone(), None)), Ok(items));
    assert_eq!(light.list(LightResponse::new(vec![], None)), Ok(vec![]));
}

#[test]
fn list_reports_the_server_error() {
    let light = Light::new(ready_bridge());
    let envelope = LightResponse::new(vec![], Some(vec![failure("x")]));
    assert_eq!(light.list(envelope), Err(BridgeError::ServerError("x".to_string())));
}

#[test]
fn error_goes_before_data() {
    let light = Light::new(ready_bridge());
    let envelope = || LightResponse::new(vec![lamp("a", "Desk")], Some(vec![failure("x"), failure("y")]));
    assert_eq!(light.list(envelope()), Err(BridgeError::ServerError("x".to_string())));
    assert_eq!(light.get(envelope()), Err(BridgeError::ServerError("x".to_string())));
    assert_eq!(light.set(envelope()), Err(BridgeError::ServerError("x".to_string())));
}

#[test]
fn empty_error_list_is_no_error() {
    let light = Light::new(ready_bridge());
    let envelope = || LightResponse::new(vec![lamp("a", "Desk")], Some(vec![]));
    assert_eq!(light.list(envelope()), Ok(vec![lamp("a", "Desk")]));
    assert_eq!(light.get(envelope()), Ok(lamp("a", "Desk")));
    assert_eq!(light.set(envelope()), Ok(envelope()));
}

#[test]
fn get_returns_the_first_item() {
    let light = Light::new(ready_bridge());
    assert_eq!(light.get(LightResponse::new(vec![lamp("a", "Desk")], None)), Ok(lamp("a", "Desk")));
    assert_eq!(
        light.get(LightResponse::new(vec![lamp("b", "Hall"), lamp("a", "Desk")], None)),
        Ok(lamp("b", "Hall"))
    );
}

#[test]
fn get_on_empty_success_is_not_found() {
    let light = Light::new(ready_bridge());
    assert_eq!(light.get(LightResponse::new(vec![], None)), Err(BridgeError::NotFound));
    assert_eq!(light.get(LightResponse::new(vec![], Some(vec![]))), Err(BridgeError::NotFound));
}

#[test]
fn set_returns_the_envelope() {
    let light = Light::new(ready_bridge());
    let envelope = LightResponse::new(vec![lamp("a", "Desk")], None);
    assert_eq!(light.set(envelope.clone()), Ok(envelope));
    assert_eq!(light.set(LightResponse::new(vec![], None)), Ok(LightResponse::new(vec![], None)));
}

#[test]
fn calls_before_ready_fail_with_not_registered() {
    let handles = [
        HueBridge::builder(),
        HueBridge::builder().api("https://bridge"),
        HueBridge::builder().api("https://bridge").token("abc"),
        HueBridge::builder().api("https://bridge").app_name("hue-bindings").token(""),
    ];
    for bridge in handles {
        let light = Light::new(bridge);
        assert_eq!(light.list_request(), Err(BridgeError::NotRegistered));
        assert_eq!(light.get_request("a"), Err(BridgeError::NotRegistered));
        assert_eq!(light.set_request(lamp("a", "Desk")), Err(BridgeError::NotRegistered));
        let envelope = || LightResponse::new(vec![lamp("a", "Desk")], Some(vec![failure("x")]));
        assert_eq!(light.list(envelope()), Err(BridgeError::NotRegistered));
        assert_eq!(light.get(envelope()), Err(BridgeError::NotRegistered));
        assert_eq!(light.set(envelope()), Err(BridgeError::NotRegistered));
    }
}

#[test]
fn calls_while_waiting_for_pairing_fail_with_not_registered() {
    let mut bridge = HueBridge::builder().api("https://bridge").app_name("hue-bindings");
    let info = Bridge {
        name: String::new(),
        datastoreversion: String::new(),
        swversion: "1948086000".to_string(),
        apiversion: String::new(),
        mac: String::new(),
        bridgeid: String::new(),
        factorynew: true,
        modelid: String::new(),
    };
    bridge.build(Event::BridgeInfo(info));
    let light = Light::new(bridge);
    assert_eq!(light.list_request(), Err(BridgeError::NotRegistered));
    assert_eq!(light.list(LightResponse::new(vec![], None)), Err(BridgeError::NotRegistered));
}
