//! The operations of the client. Each has a request, built in [`crate::request`], and
//! a function here that reads what came back for it.

use vstd::prelude::*;
use crate::decimal::{decimal, push_decimal};
use crate::decode::{Record, ShapeFault};
use crate::reply::{answer_of, read, shown, DecodeFaultView, ErrorView, ReplyView};
use crate::request::{
    devices_request, devices_url, form_encoding, get_of, post_of, token_fields, token_request,
    user_info_request, user_info_url, RequestView,
};

pub use crate::records::{
    Device, Devices, Event, Events, Feature, Features, Gateway, Gateways, Installation,
    Installations, Token, UserInfo,
};
pub use crate::reply::{DecodeFault, Error, Reply};
pub use crate::request::{Method, Request};

verus! {

/// Reads the new token from the reply to [`token_request`].
pub fn refresh_token(reply: &Reply) -> (r: Result<Token, Error>)
    ensures
        shown(r) == answer_of::<Token>(reply@),
{
    read::<Token>(reply)
}

/// Reads the user's identity from the reply to [`user_info_request`].
pub fn get_user_info(reply: &Reply) -> (r: Result<UserInfo, Error>)
    ensures
        shown(r) == answer_of::<UserInfo>(reply@),
{
    read::<UserInfo>(reply)
}

/// Reads the installations from the reply to [`crate::request::installations_request`].
pub fn get_installations(reply: &Reply) -> (r: Result<Installations, Error>)
    ensures
        shown(r) == answer_of::<Installations>(reply@),
{
    read::<Installations>(reply)
}

/// Reads the gateways from the reply to [`crate::request::gateways_request`].
pub fn get_gateways(reply: &Reply) -> (r: Result<Gateways, Error>)
    ensures
        shown(r) == answer_of::<Gateways>(reply@),
{
    read::<Gateways>(reply)
}

/// Reads the devices from the reply to [`devices_request`].
pub fn get_devices(reply: &Reply) -> (r: Result<Devices, Error>)
    ensures
        shown(r) == answer_of::<Devices>(reply@),
{
    read::<Devices>(reply)
}

/// Reads the features from the reply to [`crate::request::gateway_features_request`].
pub fn get_gateway_features(reply: &Reply) -> (r: Result<Features, Error>)
    ensures
        shown(r) == answer_of::<Features>(reply@),
{
    read::<Features>(reply)
}

/// Reads the features from the reply to [`crate::request::device_features_request`].
pub fn get_device_features(reply: &Reply) -> (r: Result<Features, Error>)
    ensures
        shown(r) == answer_of::<Features>(reply@),
{
    read::<Features>(reply)
}

/// Reads the reply to [`crate::request::device_feature_request`], which comes in the
/// envelope of the installations.
pub fn get_device_feature_by_name(reply: &Reply) -> (r: Result<Installations, Error>)
    ensures
        shown(r) == answer_of::<Installations>(reply@),
{
    read::<Installations>(reply)
}

/// Reads the events from the reply to [`crate::request::events_request`].
pub fn get_events(reply: &Reply) -> (r: Result<Events, Error>)
    ensures
        shown(r) == answer_of::<Events>(reply@),
{
    read::<Events>(reply)
}

/// The request for the devices of an account: those behind its first gateway at its
/// first installation, or the error that says that it has none.
pub open spec fn first_devices_of(
    token: Seq<char>,
    installations: Seq<i32>,
    gateways: Seq<Seq<char>>,
) -> Result<RequestView, ErrorView> {
    if installations.len() == 0 || gateways.len() == 0 {
        Err(ErrorView::ApiError("no data"@))
    } else {
        Ok(get_of(token, devices_url(installations[0] as int, gateways[0])))
    }
}

/// Builds the request for the devices behind the first gateway at the first
/// installation. An account without an installation or without a gateway gives an
/// `ApiError`.
pub fn first_devices_request(token: &str, installations: &Installations, gateways: &Gateways) -> (r:
    Result<Request, Error>)
    ensures
        shown(r) == first_devices_of(token@, installations@, gateways@),
{
    if installations.data.len() == 0 || gateways.data.len() == 0 {
        Err(Error::ApiError("no data".to_owned()))
    } else {
        Ok(devices_request(token, installations.data[0].id, gateways.data[0].serial.as_str()))
    }
}

/// The text of an error.
pub open spec fn message_of(error: ErrorView) -> Seq<char> {
    match error {
        ErrorView::TransportError(None) => "transport failure"@,
        ErrorView::TransportError(Some(status)) => "transport failure with status "@ + decimal(
            status as int,
        ),
        ErrorView::ApiError(body) => body,
        ErrorView::DecodeError(DecodeFaultView::Syntax(message)) => message,
        ErrorView::DecodeError(DecodeFaultView::Shape(ShapeFault::NotAnObject)) => "not an object"@,
        ErrorView::DecodeError(DecodeFaultView::Shape(ShapeFault::Missing(field))) => "missing field "@
            + field.key(),
        ErrorView::DecodeError(DecodeFaultView::Shape(ShapeFault::Duplicate(field))) => "duplicate field "@
            + field.key(),
        ErrorView::DecodeError(DecodeFaultView::Shape(ShapeFault::Mistyped(field))) => "invalid value of field "@
            + field.key(),
    }
}

impl Error {
    /// The text of the error. Of an `ApiError` it is the body of the response.
    pub fn message(&self) -> (text: String)
        ensures
            text@ == message_of(self@),
    {
        match self {
            Error::TransportError(None) => "transport failure".to_owned(),
            Error::TransportError(Some(status)) => {
                let mut text = "transport failure with status ".to_owned();
                push_decimal(&mut text, *status as i64);
                text
            },
            Error::ApiError(body) => body.clone(),
            Error::DecodeError(DecodeFault::Syntax(message)) => message.clone(),
            Error::DecodeError(DecodeFault::Shape(fault)) => match fault {
                ShapeFault::NotAnObject => "not an object".to_owned(),
                ShapeFault::Missing(field) => {
                    let mut text = "missing field ".to_owned();
                    text.append(field.name());
                    text
                },
                ShapeFault::Duplicate(field) => {
                    let mut text = "duplicate field ".to_owned();
                    text.append(field.name());
                    text
                },
                ShapeFault::Mistyped(field) => {
                    let mut text = "invalid value of field ".to_owned();
                    text.append(field.name());
                    text
                },
            },
        }
    }
}

/// A client identifier and a refresh token, with the access token that is in use.
pub struct ViessmannClient {
    pub client_id: String,
    pub refresh_token: String,
    pub current_token: String,
}

impl ViessmannClient {
    /// A client that has no access token yet: its token is the empty text.
    pub fn new(client_id: String, refresh_token: String) -> (client: ViessmannClient)
        ensures
            client.client_id == client_id,
            client.refresh_token == refresh_token,
            client.current_token@ == Seq::<char>::empty(),
    {
        ViessmannClient { client_id, refresh_token, current_token: String::new() }
    }

    /// The request for the user's identity, with the client's access token.
    pub fn user_info_request(&self) -> (request: Request)
        ensures
            request@ == get_of(self.current_token@, user_info_url()),
    {
        user_info_request(self.current_token.as_str())
    }

    /// Reads the user's identity from the reply to [`Self::user_info_request`].
    pub fn user_info(&self, reply: &Reply) -> (r: Result<UserInfo, Error>)
        ensures
            shown(r) == answer_of::<UserInfo>(reply@),
    {
        get_user_info(reply)
    }

    /// The request that exchanges the client's refresh token for an access token.
    pub fn refresh_token_request(&self) -> (request: Request)
        ensures
            request@ == post_of(
                form_encoding(token_fields(self.client_id@, self.refresh_token@)),
            ),
    {
        token_request(self.client_id.as_str(), self.refresh_token.as_str())
    }

    /// Reads the new token from the reply to [`Self::refresh_token_request`].
    pub fn refresh_token(&self, reply: &Reply) -> (r: Result<Token, Error>)
        ensures
            shown(r) == answer_of::<Token>(reply@),
    {
        refresh_token(reply)
    }
}

/// A read is a function of the request and of what the server makes of it: the same
/// request to a server that answers as before is read as the same record or the
/// same error.
pub proof fn repeated_read_agrees<T: Record>(
    server: spec_fn(RequestView) -> ReplyView,
    first: RequestView,
    second: RequestView,
)
    requires
        first == second,
    ensures
        answer_of::<T>(server(first)) == answer_of::<T>(server(second)),
{
}

} // verus!
