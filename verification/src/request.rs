//! The requests of the API: one token exchange and eight reads.

use vstd::prelude::*;
use crate::decimal::{decimal, push_decimal};

verus! {

/// The two methods that the API is called with.
#[derive(Debug, Clone, Copy, PartialEq, Eq, Structural)]
pub enum Method {
    Get,
    Post,
}

/// A request as the transport has to send it: the method, the URL, the content type,
/// the token for bearer authorization if there is one, and the body if there is one.
#[derive(Debug, PartialEq, Eq)]
pub struct Request {
    pub method: Method,
    pub url: String,
    pub content_type: String,
    pub bearer: Option<String>,
    pub body: Option<String>,
}

pub ghost struct RequestView {
    pub method: Method,
    pub url: Seq<char>,
    pub content_type: Seq<char>,
    pub bearer: Option<Seq<char>>,
    pub body: Option<Seq<char>>,
}

impl View for Request {
    type V = RequestView;

    open spec fn view(&self) -> RequestView {
        RequestView {
            method: self.method,
            url: self.url@,
            content_type: self.content_type@,
            bearer: match self.bearer {
                Some(token) => Some(token@),
                None => None,
            },
            body: match self.body {
                Some(body) => Some(body@),
                None => None,
            },
        }
    }
}

/// The host of the resources.
pub open spec fn api_host() -> Seq<char> {
    "https://api.viessmann.com"@
}

/// The endpoint of the token exchange.
pub open spec fn token_url() -> Seq<char> {
    "https://iam.viessmann.com/idp/v2/token"@
}

/// The URL of the identity of the account.
pub open spec fn user_info_url() -> Seq<char> {
    api_host() + "/users/v1/users/me"@
}

/// The URL of the installations.
pub open spec fn installations_url() -> Seq<char> {
    api_host() + "/iot/v1/equipment/installations"@
}

/// The URL of the gateways.
pub open spec fn gateways_url() -> Seq<char> {
    api_host() + "/iot/v1/equipment/gateways"@
}

/// The URL of the events history.
pub open spec fn events_url() -> Seq<char> {
    api_host() + "/iot/v1/events-history/events"@
}

/// The URL of the devices behind a gateway. The serial stands in it as it is given.
pub open spec fn devices_url(installation_id: int, gateway_serial: Seq<char>) -> Seq<char> {
    api_host() + "/iot/v1/equipment/installations/"@ + decimal(installation_id) + "/gateways/"@
        + gateway_serial + "/devices"@
}

/// The URL of the features of a gateway.
pub open spec fn gateway_features_url(installation_id: int, gateway_serial: int) -> Seq<char> {
    api_host() + "/iot/v1/features/installations/"@ + decimal(installation_id) + "/gateways/"@
        + decimal(gateway_serial) + "/features"@
}

/// The URL of the features of a device. The device's identifier stands in it as it
/// is given.
pub open spec fn device_features_url(
    installation_id: int,
    gateway_serial: int,
    device_id: Seq<char>,
) -> Seq<char> {
    api_host() + "/iot/v1/features/installations/"@ + decimal(installation_id) + "/gateways/"@
        + decimal(gateway_serial) + "/devices/"@ + device_id + "/features"@
}

/// The URL of one feature of a device. The feature's name stands in it as it is
/// given.
pub open spec fn device_feature_url(
    installation_id: int,
    gateway_serial: int,
    device_id: int,
    feature_name: Seq<char>,
) -> Seq<char> {
    api_host() + "/iot/v1/equipment/installations/"@ + decimal(installation_id) + "/gateways/"@
        + decimal(gateway_serial) + "/devices/"@ + decimal(device_id) + "/features/"@
        + feature_name
}

/// The read of a resource: a GET of the URL that announces JSON and carries the
/// token, without a body.
pub open spec fn get_of(token: Seq<char>, url: Seq<char>) -> RequestView {
    RequestView {
        method: Method::Get,
        url,
        content_type: "application/json"@,
        bearer: Some(token),
        body: None,
    }
}

/// The token exchange: a POST of a form to the token endpoint, without a token.
pub open spec fn post_of(body: Seq<char>) -> RequestView {
    RequestView {
        method: Method::Post,
        url: token_url(),
        content_type: "application/x-www-form-urlencoded"@,
        bearer: None,
        body: Some(body),
    }
}

/// The fields of the form that asks for a new token, in the order in which they are
/// sent.
pub open spec fn token_fields(client_id: Seq<char>, refresh_token: Seq<char>) -> Seq<
    (Seq<char>, Seq<char>),
> {
    seq![
        ("grant_type"@, "refresh_token"@),
        ("refresh_token"@, refresh_token),
        ("client_id"@, client_id),
    ]
}

/// The fields of a form as pairs of texts.
pub open spec fn pairs(fields: Seq<(&str, &str)>) -> Seq<(Seq<char>, Seq<char>)> {
    Seq::new(fields.len(), |i: int| (fields[i].0@, fields[i].1@))
}

/// What `serde_urlencoded::to_string` makes of a sequence of pairs of strings: the
/// form in `application/x-www-form-urlencoded`.
pub uninterp spec fn form_encoding(fields: Seq<(Seq<char>, Seq<char>)>) -> Seq<char>;

/// Calls `serde_urlencoded::to_string` on a sequence of pairs of strings. That it
/// succeeds is read from its serializer: a sequence is accepted at the top level, a
/// tuple of two as a pair, and a string as key and as value; no other step is taken
/// for such an input. Of the text nothing is claimed but that it is the encoding of
/// these fields.
#[verifier::external_body]
fn form_encode(fields: &Vec<(&str, &str)>) -> (r: Option<String>)
    ensures
        r is Some,
        r->Some_0@ == form_encoding(pairs(fields@)),
{
    serde_urlencoded::to_string(fields).ok()
}

/// The read of a resource at a URL.
pub fn get_request(token: &str, url: String) -> (request: Request)
    ensures
        request@ == get_of(token@, url@),
{
    Request {
        method: Method::Get,
        url,
        content_type: "application/json".to_owned(),
        bearer: Some(token.to_owned()),
        body: None,
    }
}

/// The token exchange with an encoded form as its body.
pub fn token_post(body: String) -> (request: Request)
    ensures
        request@ == post_of(body@),
{
    Request {
        method: Method::Post,
        url: "https://iam.viessmann.com/idp/v2/token".to_owned(),
        content_type: "application/x-www-form-urlencoded".to_owned(),
        bearer: None,
        body: Some(body),
    }
}

/// The request that exchanges a refresh token for an access token.
pub fn token_request(client_id: &str, refresh_token: &str) -> (request: Request)
    ensures
        request@ == post_of(form_encoding(token_fields(client_id@, refresh_token@))),
{
    let mut fields: Vec<(&str, &str)> = Vec::new();
    fields.push(("grant_type", "refresh_token"));
    fields.push(("refresh_token", refresh_token));
    fields.push(("client_id", client_id));
    assert(pairs(fields@) =~= token_fields(client_id@, refresh_token@));
    // The encoder takes every sequence of pairs of texts, so the second arm is never
    // taken.
    match form_encode(&fields) {
        Some(body) => token_post(body),
        None => token_post(String::new()),
    }
}

fn api_url(path: &str) -> (url: String)
    ensures
        url@ == api_host() + path@,
{
    let mut url = "https://api.viessmann.com".to_owned();
    url.append(path);
    url
}

/// The request for the identity of the account.
pub fn user_info_request(token: &str) -> (request: Request)
    ensures
        request@ == get_of(token@, user_info_url()),
{
    get_request(token, api_url("/users/v1/users/me"))
}

/// The request for the installations of the account.
pub fn installations_request(token: &str) -> (request: Request)
    ensures
        request@ == get_of(token@, installations_url()),
{
    get_request(token, api_url("/iot/v1/equipment/installations"))
}

/// The request for the gateways of the account.
pub fn gateways_request(token: &str) -> (request: Request)
    ensures
        request@ == get_of(token@, gateways_url()),
{
    get_request(token, api_url("/iot/v1/equipment/gateways"))
}

/// The request for the events history of the account.
pub fn events_request(token: &str) -> (request: Request)
    ensures
        request@ == get_of(token@, events_url()),
{
    get_request(token, api_url("/iot/v1/events-history/events"))
}

/// The request for the devices behind a gateway at an installation.
pub fn devices_request(token: &str, installation_id: i32, gateway_serial: &str) -> (request:
    Request)
    ensures
        request@ == get_of(token@, devices_url(installation_id as int, gateway_serial@)),
{
    let mut url = api_url("/iot/v1/equipment/installations/");
    push_decimal(&mut url, installation_id as i64);
    url.append("/gateways/");
    url.append(gateway_serial);
    url.append("/devices");
    get_request(token, url)
}

/// The request for the features of a gateway.
pub fn gateway_features_request(token: &str, installation_id: i32, gateway_serial: i64) -> (request:
    Request)
    ensures
        request@ == get_of(
            token@,
            gateway_features_url(installation_id as int, gateway_serial as int),
        ),
{
    let mut url = api_url("/iot/v1/features/installations/");
    push_decimal(&mut url, installation_id as i64);
    url.append("/gateways/");
    push_decimal(&mut url, gateway_serial);
    url.append("/features");
    get_request(token, url)
}

/// The request for the features of a device.
pub fn device_features_request(
    token: &str,
    installation_id: i32,
    gateway_serial: i64,
    device_id: &str,
) -> (request: Request)
    ensures
        request@ == get_of(
            token@,
            device_features_url(installation_id as int, gateway_serial as int, device_id@),
        ),
{
    let mut url = api_url("/iot/v1/features/installations/");
    push_decimal(&mut url, installation_id as i64);
    url.append("/gateways/");
    push_decimal(&mut url, gateway_serial);
    url.append("/devices/");
    url.append(device_id);
    url.append("/features");
    get_request(token, url)
}

/// The request for one feature of a device, by its name.
pub fn device_feature_request(
    token: &str,
    installation_id: i32,
    gateway_serial: i64,
    device_id: i32,
    feature_name: &str,
) -> (request: Request)
    ensures
        request@ == get_of(
            token@,
            device_feature_url(
                installation_id as int,
                gateway_serial as int,
                device_id as int,
                feature_name@,
            ),
        ),
{
    let mut url = api_url("/iot/v1/equipment/installations/");
    push_decimal(&mut url, installation_id as i64);
    url.append("/gateways/");
    push_decimal(&mut url, gateway_serial);
    url.append("/devices/");
    push_decimal(&mut url, device_id as i64);
    url.append("/features/");
    url.append(feature_name);
    get_request(token, url)
}

} // verus!
