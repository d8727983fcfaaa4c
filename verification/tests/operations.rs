use viessmann_sdk::decode::{Field, ShapeFault};
use viessmann_sdk::request::{
    device_feature_request, device_features_request, devices_request, events_request,
    gateway_features_request, gateways_request, installations_request, token_request,
    user_info_request,
};
use viessmann_sdk::viessmann_client::{
    first_devices_request, get_device_feature_by_name, get_device_features, get_devices,
    get_events, get_gateway_features, get_gateways, get_installations, get_user_info,
    refresh_token, DecodeFault, Device, Devices, Error, Event, Events, Feature, Features, Gateway,
    Gateways, Installation, Installations, Method, Reply, Token, UserInfo, ViessmannClient,
};

const REFRESH_TOKEN: &str = "";
const CLIENT_ID: &str = "";
const USER_NAME: &str = "";

const TOKEN_BODY: &str = "{\"access_token\":\"eyJhbGciOi\",\"expires_in\":3600}";

fn received(status: u16, body: &str) -> Reply {
    Reply::Received { status, body: body.to_string() }
}

fn new_access_token() -> String {
    let request = token_request(CLIENT_ID, REFRESH_TOKEN);
    assert_eq!(request.method, Method::Post);
    refresh_token(&received(200, TOKEN_BODY)).expect("failed to get new token").access_token
}

#[test]
fn test_user_info() {
    let new_token = new_access_token();
    assert_eq!(new_token.is_empty(), false);
    let request = user_info_request(new_token.as_str());
    assert_eq!(request.url, "https://api.viessmann.com/users/v1/users/me");
    let result = get_user_info(&received(200, "{\"loginId\":\"jane@example.org\",\"id\":\"u-1\"}"));
    assert_eq!(result.is_ok(), true, "Result should not be an error");
    let name = result.unwrap().login_id;
    assert!(name.contains(USER_NAME));
    println!("{}", name);
}

#[test]
fn test_installations() {
    let new_token = new_access_token();
    assert_eq!(new_token.is_empty(), false);
    let request = installations_request(new_token.as_str());
    assert_eq!(request.url, "https://api.viessmann.com/iot/v1/equipment/installations");
    let result = get_installations(&received(200, "{\"data\":[{\"id\":2219527}]}"));
    assert_eq!(result.is_ok(), true, "Result should not be an error");
    let installations = result.unwrap().data;
    println!("{:?}", installations);
    assert_eq!(installations, vec![Installation { id: 2219527 }]);
}

#[test]
fn test_list_devices() {
    let new_token = new_access_token();
    assert_eq!(new_token.is_empty(), false);
    let request = devices_request(new_token.as_str(), 2219527, "7637415015415225");
    assert_eq!(
        request.url,
        "https://api.viessmann.com/iot/v1/equipment/installations/2219527/gateways/7637415015415225/devices"
    );
    let result = get_devices(&received(200, "{\"data\":[{\"id\":\"0\"},{\"id\":\"gateway\"}]}"));
    assert_eq!(result.is_ok(), true, "Result should not be an error");
    println!("{:?}", result.unwrap());
}

#[test]
fn test_device_feature() {
    let new_token = new_access_token();
    assert_eq!(new_token.is_empty(), false);
    let request = device_features_request(new_token.as_str(), 2219527, 7637415015415225, "0");
    assert_eq!(
        request.url,
        "https://api.viessmann.com/iot/v1/features/installations/2219527/gateways/7637415015415225/devices/0/features"
    );
    let result = get_device_features(&received(
        200,
        "{\"data\":[{\"feature\":\"heating.boiler\",\"isEnabled\":true,\"isReady\":false}]}",
    ));
    assert_eq!(result.is_ok(), true, "Result should not be an error");
    println!("{:?}", result.unwrap());
}

#[test]
fn test_gateway_feature() {
    let new_token = new_access_token();
    assert_eq!(new_token.is_empty(), false);
    let request = gateway_features_request(new_token.as_str(), 2219527, 7637415015415225);
    assert_eq!(
        request.url,
        "https://api.viessmann.com/iot/v1/features/installations/2219527/gateways/7637415015415225/features"
    );
    let result = get_gateway_features(&received(
        200,
        "{\"data\":[{\"feature\":\"gateway.wifi\",\"isEnabled\":true,\"isReady\":true}]}",
    ));
    assert_eq!(result.is_ok(), true, "Result should not be an error");
    println!("{:?}", result.unwrap());
}

#[test]
fn test_device_feature_by_name() {
    let new_token = new_access_token();
    assert_eq!(new_token.is_empty(), false);
    let request = device_feature_request(
        new_token.as_str(),
        2219527,
        7637415015415225,
        0,
        "heating.power.consumption.total",
    );
    assert_eq!(
        request.url,
        "https://api.viessmann.com/iot/v1/equipment/installations/2219527/gateways/7637415015415225/devices/0/features/heating.power.consumption.total"
    );
    let result = get_device_feature_by_name(&received(200, "{\"data\":[{\"id\":2219527}]}"));
    assert_eq!(result.is_ok(), true, "Result should not be an error");
    println!("{:?}", result.unwrap());
}

#[test]
fn token_is_read_from_a_success() {
    assert_eq!(
        refresh_token(&received(200, TOKEN_BODY)),
        Ok(Token { access_token: "eyJhbGciOi".to_string(), expires_in: 3600 })
    );
}

#[test]
fn every_read_returns_its_record() {
    assert_eq!(
        get_user_info(&received(200, "{\"login_id\":\"jane\",\"id\":\"7\",\"extra\":[1,{}]}")),
        Ok(UserInfo { login_id: "jane".to_string(), id: "7".to_string() })
    );
    assert_eq!(
        get_installations(&received(201, "{\"data\":[{\"id\":1},{\"id\":-2}]}")),
        Ok(Installations { data: vec![Installation { id: 1 }, Installation { id: -2 }] })
    );
    assert_eq!(
        get_gateways(&received(200, "{\"data\":[{\"serial\":\"7637415015415225\"}]}")),
        Ok(Gateways { data: vec![Gateway { serial: "7637415015415225".to_string() }] })
    );
    assert_eq!(
        get_devices(&received(200, "{\"data\":[{\"id\":\"0\"}]}")),
        Ok(Devices { data: vec![Device { id: "0".to_string() }] })
    );
    assert_eq!(
        get_gateway_features(&received(
            200,
            "{\"data\":[{\"feature\":\"a\",\"enabled\":false,\"ready\":true}]}"
        )),
        Ok(Features {
            data: vec![Feature { feature: "a".to_string(), enabled: false, ready: true }]
        })
    );
    assert_eq!(
        get_events(&received(200, "{\"data\":[{\"eventType\":\"device-error\"}]}")),
        Ok(Events { data: vec![Event { event_type: "device-error".to_string() }] })
    );
}

#[test]
fn unauthorized_is_api_error_for_every_read() {
    let reply = received(401, "invalid_token");
    let expected = Error::ApiError("invalid_token".to_string());
    assert_eq!(get_user_info(&reply), Err(Error::ApiError("invalid_token".to_string())));
    assert_eq!(get_installations(&reply).unwrap_err(), expected);
    assert_eq!(get_gateways(&reply).unwrap_err(), expected);
    assert_eq!(get_devices(&reply).unwrap_err(), expected);
    assert_eq!(get_gateway_features(&reply).unwrap_err(), expected);
    assert_eq!(get_device_features(&reply).unwrap_err(), expected);
    assert_eq!(get_device_feature_by_name(&reply).unwrap_err(), expected);
    assert_eq!(get_events(&reply).unwrap_err(), expected);
    assert_eq!(refresh_token(&reply).unwrap_err(), expected);
}

#[test]
fn api_error_keeps_the_body_as_it_is() {
    let body = "{\"error\": \"x\"}\n  caf\u{e9} ";
    assert_eq!(get_gateways(&received(500, body)), Err(Error::ApiError(body.to_string())));
    assert_eq!(get_gateways(&received(404, "")), Err(Error::ApiError(String::new())));
    assert_eq!(get_gateways(&received(500, body)).unwrap_err().message(), body);
}

#[test]
fn success_is_a_status_from_200_to_299() {
    let body = "{\"data\":[]}";
    assert_eq!(get_events(&received(199, body)), Err(Error::ApiError(body.to_string())));
    assert_eq!(get_events(&received(200, body)), Ok(Events { data: vec![] }));
    assert_eq!(get_events(&received(299, body)), Ok(Events { data: vec![] }));
    assert_eq!(get_events(&received(300, body)), Err(Error::ApiError(body.to_string())));
    assert_eq!(get_events(&received(0, body)), Err(Error::ApiError(body.to_string())));
}

#[test]
fn malformed_json_is_decode_error() {
    match get_user_info(&received(200, "{\"loginId\": \"jane\", \"id\": ")) {
        Err(Error::DecodeError(DecodeFault::Syntax(message))) => {
            assert_eq!(message, "EOF while parsing a value at line 1 column 26")
        },
        other => panic!("{:?}", other),
    }
    assert!(matches!(
        get_installations(&received(200, "not json")),
        Err(Error::DecodeError(DecodeFault::Syntax(_)))
    ));
    assert!(matches!(
        get_installations(&received(200, "")),
        Err(Error::DecodeError(DecodeFault::Syntax(_)))
    ));
    assert!(matches!(
        get_installations(&received(200, "{\"data\":[]} trailing")),
        Err(Error::DecodeError(DecodeFault::Syntax(_)))
    ));
}

#[test]
fn json_of_another_shape_is_decode_error() {
    assert_eq!(
        get_user_info(&received(200, "{\"loginId\":\"jane\"}")),
        Err(Error::DecodeError(DecodeFault::Shape(ShapeFault::Missing(Field::Id))))
    );
    assert_eq!(
        get_user_info(&received(200, "[\"jane\",\"7\"]")),
        Err(Error::DecodeError(DecodeFault::Shape(ShapeFault::NotAnObject)))
    );
    assert_eq!(
        refresh_token(&received(200, "{\"access_token\":\"t\",\"expires_in\":\"3600\"}")),
        Err(Error::DecodeError(DecodeFault::Shape(ShapeFault::Mistyped(Field::ExpiresIn))))
    );
}

#[test]
fn empty_list_is_no_error() {
    let reply = received(200, "{\"data\": []}");
    assert_eq!(get_installations(&reply), Ok(Installations { data: vec![] }));
    assert_eq!(get_gateways(&reply), Ok(Gateways { data: vec![] }));
    assert_eq!(get_devices(&reply), Ok(Devices { data: vec![] }));
    assert_eq!(get_gateway_features(&reply), Ok(Features { data: vec![] }));
    assert_eq!(get_device_features(&reply), Ok(Features { data: vec![] }));
    assert_eq!(get_events(&reply), Ok(Events { data: vec![] }));
    assert_eq!(get_installations(&reply).unwrap().data.len(), 0);
}

#[test]
fn transport_failure_is_transport_error() {
    assert_eq!(get_user_info(&Reply::Failed(None)), Err(Error::TransportError(None)));
    assert_eq!(get_devices(&Reply::Failed(Some(502))), Err(Error::TransportError(Some(502))));
    assert_eq!(refresh_token(&Reply::Failed(None)), Err(Error::TransportError(None)));
}

#[test]
fn the_same_reply_is_read_the_same_way_twice() {
    let reply = received(200, "{\"data\":[{\"serial\":\"a\"},{\"serial\":\"b\"}]}");
    assert_eq!(get_gateways(&reply), get_gateways(&reply));
    let failure = received(403, "forbidden");
    assert_eq!(get_gateways(&failure), get_gateways(&failure));
    assert_eq!(gateways_request("t"), gateways_request("t"));
    assert_eq!(events_request("t").url, "https://api.viessmann.com/iot/v1/events-history/events");
}

#[test]
fn messages_of_the_errors() {
    assert_eq!(Error::TransportError(None).message(), "transport failure");
    assert_eq!(Error::TransportError(Some(503)).message(), "transport failure with status 503");
    assert_eq!(Error::ApiError("invalid_token".to_string()).message(), "invalid_token");
    assert_eq!(
        Error::DecodeError(DecodeFault::Syntax("expected value".to_string())).message(),
        "expected value"
    );
    assert_eq!(
        Error::DecodeError(DecodeFault::Shape(ShapeFault::NotAnObject)).message(),
        "not an object"
    );
    assert_eq!(
        Error::DecodeError(DecodeFault::Shape(ShapeFault::Missing(Field::LoginId))).message(),
        "missing field login_id"
    );
    assert_eq!(
        Error::DecodeError(DecodeFault::Shape(ShapeFault::Duplicate(Field::Data))).message(),
        "duplicate field data"
    );
    assert_eq!(
        Error::DecodeError(DecodeFault::Shape(ShapeFault::Mistyped(Field::ExpiresIn))).message(),
        "invalid value of field expires_in"
    );
}

#[test]
fn devices_of_the_first_installation_and_gateway() {
    let installations = Installations { data: vec![Installation { id: 2219527 }, Installation { id: 3 }] };
    let gateways = Gateways {
        data: vec![
            Gateway { serial: "7637415015415225".to_string() },
            Gateway { serial: "other".to_string() },
        ],
    };
    let request = first_devices_request("tok", &installations, &gateways).unwrap();
    assert_eq!(request, devices_request("tok", 2219527, "7637415015415225"));
    let none = Installations { data: vec![] };
    assert_eq!(
        first_devices_request("tok", &none, &gateways),
        Err(Error::ApiError("no data".to_string()))
    );
    assert_eq!(
        first_devices_request("tok", &installations, &Gateways { data: vec![] }),
        Err(Error::ApiError("no data".to_string()))
    );
}

#[test]
fn client_builds_and_reads() {
    let client = ViessmannClient::new("abc".to_string(), "xyz".to_string());
    assert_eq!(client.client_id, "abc");
    assert_eq!(client.refresh_token, "xyz");
    assert_eq!(client.current_token, "");
    assert_eq!(client.refresh_token_request(), token_request("abc", "xyz"));
    assert_eq!(client.user_info_request(), user_info_request(""));
    assert_eq!(
        client.refresh_token(&received(200, TOKEN_BODY)),
        Ok(Token { access_token: "eyJhbGciOi".to_string(), expires_in: 3600 })
    );
    assert_eq!(
        client.user_info(&received(200, "{\"loginId\":\"jane\",\"id\":\"7\"}")),
        Ok(UserInfo { login_id: "jane".to_string(), id: "7".to_string() })
    );
    assert_eq!(
        client.user_info(&received(401, "invalid_token")),
        Err(Error::ApiError("invalid_token".to_string()))
    );
}
