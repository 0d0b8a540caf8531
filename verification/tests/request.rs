use hue_bridge::error::ConfigurationError;
use hue_bridge::request::{join, Application, Body, Method, Request, APPLICATION_KEY_HEADER};
use hue_bridge::{BridgeError, HueBridge};

#[test]
fn header_name_is_the_vendors() {
    assert_eq!(APPLICATION_KEY_HEADER, "hue-application-key");
}

#[test]
fn join_puts_one_slash_between() {
    assert_eq!(join("https://bridge", "api/config"), "https://bridge/api/config");
    assert_eq!(join("", ""), "/");
    assert_eq!(join("a/", "/b"), "a///b");
}

#[test]
fn do_request_builds_the_url_below_the_base() {
    let bridge = HueBridge::builder().api("https://my-hue-bridge").token("k");
    assert_eq!(
        bridge.do_request(Method::Get, "clip/v2/resource/light", Body::Empty),
        Ok(Request {
            method: Method::Get,
            url: "https://my-hue-bridge/clip/v2/resource/light".to_string(),
            application_key: Some("k".to_string()),
            body: Body::Empty,
        })
    );
}

#[test]
fn do_request_returns_the_url_in_normal_form() {
    let bridge = HueBridge::builder().api("HTTPS://My-Hue-Bridge:443").token("k");
    let request = bridge.do_request(Method::Get, "clip/v2/../v2/resource/light", Body::Empty).unwrap();
    assert_eq!(request.url, "https://my-hue-bridge/clip/v2/resource/light");
}

#[test]
fn do_request_attaches_the_key() {
    let bridge = HueBridge::builder().api("https://bridge").token("secret-key");
    let request = bridge.do_request(Method::Put, "x", Body::Empty).unwrap();
    assert_eq!(request.application_key, Some("secret-key".to_string()));
    assert_eq!(request.method, Method::Put);
}

#[test]
fn do_request_without_key_is_not_registered() {
    let handles = [
        HueBridge::builder(),
        HueBridge::builder().api("https://bridge"),
        HueBridge::builder().api("https://bridge").app_name("hue-bindings"),
        HueBridge::builder().api("https://bridge").token(""),
        HueBridge::builder().api("not a url").token(""),
    ];
    for bridge in handles {
        for endpoint in ["clip/v2/resource/light", "clip/v2/resource/light/a", "api/config", "api", ""] {
            assert_eq!(
                bridge.do_request(Method::Get, endpoint, Body::Empty),
                Err(BridgeError::NotRegistered)
            );
            assert_eq!(
                bridge.do_request(Method::Put, endpoint, Body::Empty),
                Err(BridgeError::NotRegistered)
            );
        }
    }
}

#[test]
fn do_request_carries_the_body() {
    let bridge = HueBridge::builder().api("https://bridge").token("k");
    let body = Body::Application(Application {
        devicetype: "hue-bindings".to_string(),
        generateclientkey: true,
    });
    let request = bridge.do_request(Method::Post, "api", body.clone()).unwrap();
    assert_eq!(request.body, body);
    assert_eq!(request.method, Method::Post);
    assert_eq!(request.url, "https://bridge/api");
}

#[test]
fn do_request_without_url_is_a_configuration_error() {
    let bridge = HueBridge::builder().token("k");
    assert_eq!(
        bridge.do_request(Method::Get, "api/config", Body::Empty),
        Err(BridgeError::Configuration(ConfigurationError::MissingUrl))
    );
}

#[test]
fn do_request_with_bad_url_is_a_configuration_error() {
    for base in ["", "my-hue-bridge", "//bridge", "https://exa mple.com", "https://bridge:99999"] {
        let bridge = HueBridge::builder().api(base).token("k");
        assert_eq!(
            bridge.do_request(Method::Get, "api/config", Body::Empty),
            Err(BridgeError::Configuration(ConfigurationError::InvalidUrl)),
            "{:?}",
            base
        );
    }
}

#[test]
fn request_to_takes_the_parsers_outcome() {
    let bridge = HueBridge::builder().api("https://ignored").token("k");
    assert_eq!(
        bridge.request_to(Ok("https://elsewhere/x".to_string()), Method::Get, Body::Empty),
        Ok(Request {
            method: Method::Get,
            url: "https://elsewhere/x".to_string(),
            application_key: Some("k".to_string()),
            body: Body::Empty,
        })
    );
    assert_eq!(
        bridge.request_to(Err(url::ParseError::EmptyHost), Method::Get, Body::Empty),
        Err(BridgeError::Configuration(ConfigurationError::InvalidUrl))
    );
}

#[test]
fn request_to_without_key_is_not_registered() {
    for bridge in [HueBridge::builder().api("https://bridge"), HueBridge::builder().token("")] {
        assert_eq!(
            bridge.request_to(
                Ok("https://bridge/clip/v2/resource/light".to_string()),
                Method::Get,
                Body::Empty
            ),
            Err(BridgeError::NotRegistered)
        );
        // decided before the URL is looked at
        assert_eq!(
            bridge.request_to(Err(url::ParseError::EmptyHost), Method::Get, Body::Empty),
            Err(BridgeError::NotRegistered)
        );
    }
}

#[test]
fn assemble_puts_the_parts_together() {
    assert_eq!(
        Request::assemble(
            Ok("https://bridge/api/config".to_string()),
            Method::Get,
            None,
            Body::Empty
        ),
        Ok(Request {
            method: Method::Get,
            url: "https://bridge/api/config".to_string(),
            application_key: None,
            body: Body::Empty,
        })
    );
    assert_eq!(
        Request::assemble(
            Ok("https://bridge/x".to_string()),
            Method::Put,
            Some("k".to_string()),
            Body::Empty
        ),
        Ok(Request {
            method: Method::Put,
            url: "https://bridge/x".to_string(),
            application_key: Some("k".to_string()),
            body: Body::Empty,
        })
    );
    assert_eq!(
        Request::assemble(
            Err(url::ParseError::RelativeUrlWithoutBase),
            Method::Get,
            Some("k".to_string()),
            Body::Empty
        ),
        Err(BridgeError::Configuration(ConfigurationError::InvalidUrl))
    );
}

#[test]
fn authorized_request_needs_a_ready_handle() {
    let bridge = HueBridge::builder().api("https://bridge").token("k");
    assert_eq!(
        bridge.authorized_request(Method::Get, "clip/v2/resource/light", Body::Empty),
        Err(BridgeError::NotRegistered)
    );
}

#[test]
fn version_request_gets_the_configuration() {
    let bridge = HueBridge::builder().api("https://bridge");
    assert_eq!(
        bridge.version_request(),
        Ok(Request {
            method: Method::Get,
            url: "https://bridge/api/config".to_string(),
            application_key: None,
            body: Body::Empty,
        })
    );
    // an empty key is no key
    assert_eq!(
        HueBridge::builder().api("https://bridge").token("").version_request().unwrap().application_key,
        None
    );
    assert_eq!(
        HueBridge::builder().api("https://bridge").token("k").version_request().unwrap().application_key,
        Some("k".to_string())
    );
    assert_eq!(
        HueBridge::builder().version_request(),
        Err(BridgeError::Configuration(ConfigurationError::MissingUrl))
    );
    assert_eq!(
        HueBridge::builder().api("my-hue-bridge").version_request(),
        Err(BridgeError::Configuration(ConfigurationError::InvalidUrl))
    );
}

#[test]
fn version_request_returns_the_url_in_normal_form() {
    let bridge = HueBridge::builder().api("HTTPS://My-Hue-Bridge:443");
    assert_eq!(bridge.version_request().unwrap().url, "https://my-hue-bridge/api/config");
}

#[test]
fn pairing_request_posts_the_application() {
    let bridge = HueBridge::builder().api("https://bridge").app_name("hue-bindings");
    assert_eq!(
        bridge.pairing_request(),
        Ok(Request {
            method: Method::Post,
            url: "https://bridge/api".to_string(),
            application_key: None,
            body: Body::Application(Application {
                devicetype: "hue-bindings".to_string(),
                generateclientkey: true,
            }),
        })
    );
}

#[test]
fn pairing_request_needs_an_application_name() {
    let bridge = HueBridge::builder().api("https://bridge");
    assert_eq!(
        bridge.pairing_request(),
        Err(BridgeError::Configuration(ConfigurationError::MissingAppName))
    );
}
