//! The records that the API returns, and their views.

use vstd::prelude::*;

verus! {

/// An access token and the number of seconds for which it is valid.
#[derive(Debug, PartialEq, Eq)]
pub struct Token {
    pub access_token: String,
    pub expires_in: i32,
}

pub ghost struct TokenView {
    pub access_token: Seq<char>,
    pub expires_in: i32,
}

impl View for Token {
    type V = TokenView;

    open spec fn view(&self) -> TokenView {
        TokenView { access_token: self.access_token@, expires_in: self.expires_in }
    }
}

/// The identity of the account.
#[derive(Debug, PartialEq, Eq)]
pub struct UserInfo {
    pub login_id: String,
    pub id: String,
}

pub ghost struct UserInfoView {
    pub login_id: Seq<char>,
    pub id: Seq<char>,
}

impl View for UserInfo {
    type V = UserInfoView;

    open spec fn view(&self) -> UserInfoView {
        UserInfoView { login_id: self.login_id@, id: self.id@ }
    }
}

/// One physical site. Its view is its identifier.
#[derive(Debug, Clone, Copy, PartialEq, Eq)]
pub struct Installation {
    pub id: i32,
}

impl View for Installation {
    type V = i32;

    open spec fn view(&self) -> i32 {
        self.id
    }
}

/// A hardware gateway. Its view is its serial.
#[derive(Debug, PartialEq, Eq)]
pub struct Gateway {
    pub serial: String,
}

impl View for Gateway {
    type V = Seq<char>;

    open spec fn view(&self) -> Seq<char> {
        self.serial@
    }
}

/// An appliance behind a gateway. Its view is its identifier.
#[derive(Debug, PartialEq, Eq)]
pub struct Device {
    pub id: String,
}

impl View for Device {
    type V = Seq<char>;

    open spec fn view(&self) -> Seq<char> {
        self.id@
    }
}

/// A capability or data point of a device or gateway.
#[derive(Debug, PartialEq, Eq)]
pub struct Feature {
    pub feature: String,
    pub enabled: bool,
    pub ready: bool,
}

pub ghost struct FeatureView {
    pub feature: Seq<char>,
    pub enabled: bool,
    pub ready: bool,
}

impl View for Feature {
    type V = FeatureView;

    open spec fn view(&self) -> FeatureView {
        FeatureView { feature: self.feature@, enabled: self.enabled, ready: self.ready }
    }
}

/// A record of the events history. Its view is the type of the event.
#[derive(Debug, PartialEq, Eq)]
pub struct Event {
    pub event_type: String,
}

impl View for Event {
    type V = Seq<char>;

    open spec fn view(&self) -> Seq<char> {
        self.event_type@
    }
}

/// The views of the items of a list, in their order.
pub open spec fn views<T: View>(items: Seq<T>) -> Seq<T::V> {
    items.map_values(|item: T| item@)
}

/// The installations of an account, in the order of the reply.
#[derive(Debug, PartialEq, Eq)]
pub struct Installations {
    pub data: Vec<Installation>,
}

impl View for Installations {
    type V = Seq<i32>;

    open spec fn view(&self) -> Seq<i32> {
        views(self.data@)
    }
}

/// The gateways of an account, in the order of the reply.
#[derive(Debug, PartialEq, Eq)]
pub struct Gateways {
    pub data: Vec<Gateway>,
}

impl View for Gateways {
    type V = Seq<Seq<char>>;

    open spec fn view(&self) -> Seq<Seq<char>> {
        views(self.data@)
    }
}

/// The devices behind a gateway, in the order of the reply.
#[derive(Debug, PartialEq, Eq)]
pub struct Devices {
    pub data: Vec<Device>,
}

impl View for Devices {
    type V = Seq<Seq<char>>;

    open spec fn view(&self) -> Seq<Seq<char>> {
        views(self.data@)
    }
}

/// The features of a gateway or device, in the order of the reply.
#[derive(Debug, PartialEq, Eq)]
pub struct Features {
    pub data: Vec<Feature>,
}

impl View for Features {
    type V = Seq<FeatureView>;

    open spec fn view(&self) -> Seq<FeatureView> {
        views(self.data@)
    }
}

/// The events of an account, in the order of the reply.
#[derive(Debug, PartialEq, Eq)]
pub struct Events {
    pub data: Vec<Event>,
}

impl View for Events {
    type V = Seq<Seq<char>>;

    open spec fn view(&self) -> Seq<Seq<char>> {
        views(self.data@)
    }
}

} // verus!
