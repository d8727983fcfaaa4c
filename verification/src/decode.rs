//! From JSON values to records: which member answers to which field, and what each
//! record asks of the value it is read from.

use vstd::prelude::*;
use crate::json::{entries, array_view, object_view, values, Json, JsonValue, Member};
use crate::records::{
    views, Device, Devices, Event, Events, Feature, FeatureView, Features, Gateway, Gateways,
    Installation, Installations, Token, TokenView, UserInfo, UserInfoView,
};

verus! {

/// The fields of the records.
#[derive(Debug, Clone, Copy, PartialEq, Eq, Structural)]
pub enum Field {
    AccessToken,
    ExpiresIn,
    LoginId,
    Id,
    Serial,
    Feature,
    Enabled,
    Ready,
    EventType,
    Data,
}

/// Why a JSON value is not the record that was asked for.
#[derive(Debug, Clone, Copy, PartialEq, Eq, Structural)]
pub enum ShapeFault {
    /// A record was expected, and the value is not an object.
    NotAnObject,
    /// No member of the object answers to the field.
    Missing(Field),
    /// More than one member of the object answers to the field.
    Duplicate(Field),
    /// The member that answers to the field holds a value of another type, or an
    /// integer that the field cannot hold.
    Mistyped(Field),
}

impl Field {
    /// The key of the field.
    pub open spec fn key(self) -> Seq<char> {
        match self {
            Field::AccessToken => "access_token"@,
            Field::ExpiresIn => "expires_in"@,
            Field::LoginId => "login_id"@,
            Field::Id => "id"@,
            Field::Serial => "serial"@,
            Field::Feature => "feature"@,
            Field::Enabled => "enabled"@,
            Field::Ready => "ready"@,
            Field::EventType => "event_type"@,
            Field::Data => "data"@,
        }
    }

    /// The second key under which the API may send the field, if it has one.
    pub open spec fn alias(self) -> Option<Seq<char>> {
        match self {
            Field::LoginId => Some("loginId"@),
            Field::Enabled => Some("isEnabled"@),
            Field::Ready => Some("isReady"@),
            Field::EventType => Some("eventType"@),
            _ => None,
        }
    }

    /// Whether a member with this key answers to the field.
    pub open spec fn answers(self, key: Seq<char>) -> bool {
        key == self.key() || self.alias() == Some(key)
    }

    /// The key of the field.
    pub fn name(self) -> (name: &'static str)
        ensures
            name@ == self.key(),
    {
        match self {
            Field::AccessToken => "access_token",
            Field::ExpiresIn => "expires_in",
            Field::LoginId => "login_id",
            Field::Id => "id",
            Field::Serial => "serial",
            Field::Feature => "feature",
            Field::Enabled => "enabled",
            Field::Ready => "ready",
            Field::EventType => "event_type",
            Field::Data => "data",
        }
    }

    /// The second key of the field, if it has one.
    pub fn second_name(self) -> (name: Option<&'static str>)
        ensures
            match name {
                Some(n) => self.alias() == Some(n@),
                None => self.alias() is None,
            },
    {
        match self {
            Field::LoginId => Some("loginId"),
            Field::Enabled => Some("isEnabled"),
            Field::Ready => Some("isReady"),
            Field::EventType => Some("eventType"),
            _ => None,
        }
    }

    /// Whether a member with this key answers to the field.
    pub fn is_named(self, key: &String) -> (b: bool)
        ensures
            b == self.answers(key@),
    {
        let name = self.name().to_owned();
        if *key == name {
            return true;
        }
        match self.second_name() {
            Some(second) => {
                let second = second.to_owned();
                *key == second
            },
            None => false,
        }
    }
}

/// The members that answer to a field, in their order.
pub open spec fn answering(members: Seq<(Seq<char>, JsonValue)>, field: Field) -> Seq<
    (Seq<char>, JsonValue),
> {
    members.filter(|m: (Seq<char>, JsonValue)| field.answers(m.0))
}

/// The value of the one member that answers to a field.
pub open spec fn member_of(members: Seq<(Seq<char>, JsonValue)>, field: Field) -> Result<
    JsonValue,
    ShapeFault,
> {
    let found = answering(members, field);
    if found.len() == 0 {
        Err(ShapeFault::Missing(field))
    } else if found.len() == 1 {
        Ok(found[0].1)
    } else {
        Err(ShapeFault::Duplicate(field))
    }
}

/// The text of a field.
pub open spec fn text_of(members: Seq<(Seq<char>, JsonValue)>, field: Field) -> Result<
    Seq<char>,
    ShapeFault,
> {
    match member_of(members, field) {
        Ok(JsonValue::Text(text)) => Ok(text),
        Ok(_) => Err(ShapeFault::Mistyped(field)),
        Err(fault) => Err(fault),
    }
}

/// The integer of a field: an integer that fits 32 bits.
pub open spec fn integer_of(members: Seq<(Seq<char>, JsonValue)>, field: Field) -> Result<
    i32,
    ShapeFault,
> {
    match member_of(members, field) {
        Ok(JsonValue::Number(Some(n))) => if i32::MIN <= n <= i32::MAX {
            Ok(n as i32)
        } else {
            Err(ShapeFault::Mistyped(field))
        },
        Ok(_) => Err(ShapeFault::Mistyped(field)),
        Err(fault) => Err(fault),
    }
}

/// The truth value of a field.
pub open spec fn flag_of(members: Seq<(Seq<char>, JsonValue)>, field: Field) -> Result<
    bool,
    ShapeFault,
> {
    match member_of(members, field) {
        Ok(JsonValue::Bool(flag)) => Ok(flag),
        Ok(_) => Err(ShapeFault::Mistyped(field)),
        Err(fault) => Err(fault),
    }
}

/// The items of a field that holds an array.
pub open spec fn items_of(members: Seq<(Seq<char>, JsonValue)>, field: Field) -> Result<
    Seq<JsonValue>,
    ShapeFault,
> {
    match member_of(members, field) {
        Ok(JsonValue::Array(items)) => Ok(items),
        Ok(_) => Err(ShapeFault::Mistyped(field)),
        Err(fault) => Err(fault),
    }
}

/// The members of a value that is an object.
pub open spec fn members_of(json: JsonValue) -> Result<Seq<(Seq<char>, JsonValue)>, ShapeFault> {
    match json {
        JsonValue::Object(members) => Ok(members),
        _ => Err(ShapeFault::NotAnObject),
    }
}

/// A result with its value replaced by the value's view.
pub open spec fn seen<T: View, E>(r: Result<T, E>) -> Result<T::V, E> {
    match r {
        Ok(value) => Ok(value@),
        Err(fault) => Err(fault),
    }
}

/// A record that can be read from a JSON value.
pub trait Record: View + Sized {
    /// The record that a JSON value stands for, or the first thing that keeps it from
    /// being one.
    spec fn of(json: JsonValue) -> Result<Self::V, ShapeFault>;

    /// Reads the record from a JSON value.
    fn decode(json: &Json) -> (r: Result<Self, ShapeFault>)
        ensures
            seen(r) == Self::of(json@),
    ;
}

/// The records that the items of an array stand for, or the fault of the first item
/// that is none.
pub open spec fn each_of<T: Record>(items: Seq<JsonValue>) -> Result<Seq<T::V>, ShapeFault>
    decreases items.len(),
{
    if items.len() == 0 {
        Ok(Seq::empty())
    } else {
        match each_of::<T>(items.drop_last()) {
            Err(fault) => Err(fault),
            Ok(head) => match T::of(items.last()) {
                Err(fault) => Err(fault),
                Ok(last) => Ok(head.push(last)),
            },
        }
    }
}

/// The records in the envelope that the API puts around a list: an object whose
/// field `data` holds an array of them.
pub open spec fn list_of<T: Record>(json: JsonValue) -> Result<Seq<T::V>, ShapeFault> {
    match members_of(json) {
        Err(fault) => Err(fault),
        Ok(members) => match items_of(members, Field::Data) {
            Err(fault) => Err(fault),
            Ok(items) => each_of::<T>(items),
        },
    }
}

proof fn answering_step(members: Seq<(Seq<char>, JsonValue)>, field: Field, i: int)
    requires
        0 <= i < members.len(),
    ensures
        answering(members.take(i + 1), field) == if field.answers(members[i].0) {
            answering(members.take(i), field).push(members[i])
        } else {
            answering(members.take(i), field)
        },
{
    reveal(Seq::filter);
    assert(members.take(i + 1).drop_last() =~= members.take(i));
}

proof fn each_of_fault_stays<T: Record>(items: Seq<JsonValue>, k: int)
    requires
        0 <= k <= items.len(),
        each_of::<T>(items.take(k)) is Err,
    ensures
        each_of::<T>(items) == each_of::<T>(items.take(k)),
    decreases items.len() - k,
{
    if k == items.len() {
        assert(items.take(k) =~= items);
    } else {
        assert(items.take(k + 1).drop_last() =~= items.take(k));
        each_of_fault_stays::<T>(items, k + 1);
    }
}

fn members<'a>(json: &'a Json) -> (r: Result<&'a Vec<Member>, ShapeFault>)
    ensures
        match r {
            Ok(members) => members_of(json@) == Ok::<_, ShapeFault>(entries(members@)),
            Err(fault) => members_of(json@) == Err::<Seq<(Seq<char>, JsonValue)>, _>(fault),
        },
{
    match json {
        Json::Object(members) => {
            proof {
                object_view(*members);
            }
            Ok(members)
        },
        _ => Err(ShapeFault::NotAnObject),
    }
}

fn member<'a>(members: &'a Vec<Member>, field: Field) -> (r: Result<&'a Json, ShapeFault>)
    ensures
        seen(r) == member_of(entries(members@), field),
{
    let ghost all = entries(members@);
    let mut found: Option<&'a Json> = None;
    let mut twice = false;
    let mut i: usize = 0;
    while i < members.len()
        invariant
            i <= members.len(),
            all == entries(members@),
            twice <==> answering(all.take(i as int), field).len() >= 2,
            found is None <==> answering(all.take(i as int), field).len() == 0,
            found matches Some(json) ==> json@ == answering(all.take(i as int), field)[0].1,
        decreases members.len() - i,
    {
        proof {
            answering_step(all, field, i as int);
        }
        if field.is_named(&members[i].key) {
            if found.is_some() {
                twice = true;
            } else {
                found = Some(&members[i].value);
            }
        }
        i = i + 1;
    }
    assert(all.take(members.len() as int) =~= all);
    if twice {
        Err(ShapeFault::Duplicate(field))
    } else {
        match found {
            Some(json) => Ok(json),
            None => Err(ShapeFault::Missing(field)),
        }
    }
}

fn text(members: &Vec<Member>, field: Field) -> (r: Result<String, ShapeFault>)
    ensures
        seen(r) == text_of(entries(members@), field),
{
    match member(members, field) {
        Ok(json) => match json {
            Json::Text(text) => Ok(text.clone()),
            _ => Err(ShapeFault::Mistyped(field)),
        },
        Err(fault) => Err(fault),
    }
}

fn integer(members: &Vec<Member>, field: Field) -> (r: Result<i32, ShapeFault>)
    ensures
        r == integer_of(entries(members@), field),
{
    match member(members, field) {
        Ok(json) => match json {
            Json::Number(Some(n)) => {
                if -2147483648 <= *n && *n <= 2147483647 {
                    Ok(*n as i32)
                } else {
                    Err(ShapeFault::Mistyped(field))
                }
            },
            _ => Err(ShapeFault::Mistyped(field)),
        },
        Err(fault) => Err(fault),
    }
}

fn flag(members: &Vec<Member>, field: Field) -> (r: Result<bool, ShapeFault>)
    ensures
        r == flag_of(entries(members@), field),
{
    match member(members, field) {
        Ok(json) => match json {
            Json::Bool(flag) => Ok(*flag),
            _ => Err(ShapeFault::Mistyped(field)),
        },
        Err(fault) => Err(fault),
    }
}

fn items<'a>(members: &'a Vec<Member>, field: Field) -> (r: Result<&'a Vec<Json>, ShapeFault>)
    ensures
        match r {
            Ok(items) => items_of(entries(members@), field) == Ok::<_, ShapeFault>(
                values(items@),
            ),
            Err(fault) => items_of(entries(members@), field) == Err::<Seq<JsonValue>, _>(fault),
        },
{
    match member(members, field) {
        Ok(json) => match json {
            Json::Array(items) => {
                proof {
                    array_view(*items);
                }
                Ok(items)
            },
            _ => Err(ShapeFault::Mistyped(field)),
        },
        Err(fault) => Err(fault),
    }
}

/// Reads the records out of the envelope of a list.
pub fn decode_list<T: Record>(json: &Json) -> (r: Result<Vec<T>, ShapeFault>)
    ensures
        match r {
            Ok(list) => list_of::<T>(json@) == Ok::<_, ShapeFault>(views(list@)),
            Err(fault) => list_of::<T>(json@) == Err::<Seq<T::V>, _>(fault),
        },
{
    let members = match members(json) {
        Ok(members) => members,
        Err(fault) => return Err(fault),
    };
    let items = match items(members, Field::Data) {
        Ok(items) => items,
        Err(fault) => return Err(fault),
    };
    let ghost all = values(items@);
    let mut list: Vec<T> = Vec::new();
    let mut i: usize = 0;
    assert(views(list@) =~= Seq::<T::V>::empty());
    while i < items.len()
        invariant
            i <= items.len(),
            all == values(items@),
            list_of::<T>(json@) == each_of::<T>(all),
            each_of::<T>(all.take(i as int)) == Ok::<_, ShapeFault>(views(list@)),
        decreases items.len() - i,
    {
        assert(all.take(i + 1).drop_last() =~= all.take(i as int));
        match T::decode(&items[i]) {
            Ok(record) => {
                assert(all.take(i + 1).last() == items[i as int]@);
                assert(views(list@.push(record)) =~= views(list@).push(record@));
                list.push(record);
            },
            Err(fault) => {
                proof {
                    assert(all.take(i + 1).last() == items[i as int]@);
                    assert(each_of::<T>(all.take(i + 1)) == Err::<Seq<T::V>, _>(fault));
                    each_of_fault_stays::<T>(all, i + 1);
                }
                return Err(fault);
            },
        }
        i = i + 1;
    }
    assert(all.take(items.len() as int) =~= all);
    Ok(list)
}

impl Record for Token {
    open spec fn of(json: JsonValue) -> Result<TokenView, ShapeFault> {
        match members_of(json) {
            Err(fault) => Err(fault),
            Ok(members) => match text_of(members, Field::AccessToken) {
                Err(fault) => Err(fault),
                Ok(access_token) => match integer_of(members, Field::ExpiresIn) {
                    Err(fault) => Err(fault),
                    Ok(expires_in) => Ok(TokenView { access_token, expires_in }),
                },
            },
        }
    }

    fn decode(json: &Json) -> (r: Result<Token, ShapeFault>) {
        let members = match members(json) {
            Ok(members) => members,
            Err(fault) => return Err(fault),
        };
        let access_token = match text(members, Field::AccessToken) {
            Ok(text) => text,
            Err(fault) => return Err(fault),
        };
        let expires_in = match integer(members, Field::ExpiresIn) {
            Ok(n) => n,
            Err(fault) => return Err(fault),
        };
        Ok(Token { access_token, expires_in })
    }
}

impl Record for UserInfo {
    open spec fn of(json: JsonValue) -> Result<UserInfoView, ShapeFault> {
        match members_of(json) {
            Err(fault) => Err(fault),
            Ok(members) => match text_of(members, Field::LoginId) {
                Err(fault) => Err(fault),
                Ok(login_id) => match text_of(members, Field::Id) {
                    Err(fault) => Err(fault),
                    Ok(id) => Ok(UserInfoView { login_id, id }),
                },
            },
        }
    }

    fn decode(json: &Json) -> (r: Result<UserInfo, ShapeFault>) {
        let members = match members(json) {
            Ok(members) => members,
            Err(fault) => return Err(fault),
        };
        let login_id = match text(members, Field::LoginId) {
            Ok(text) => text,
            Err(fault) => return Err(fault),
        };
        let id = match text(members, Field::Id) {
            Ok(text) => text,
            Err(fault) => return Err(fault),
        };
        Ok(UserInfo { login_id, id })
    }
}

impl Record for Installation {
    open spec fn of(json: JsonValue) -> Result<i32, ShapeFault> {
        match members_of(json) {
            Err(fault) => Err(fault),
            Ok(members) => integer_of(members, Field::Id),
        }
    }

    fn decode(json: &Json) -> (r: Result<Installation, ShapeFault>) {
        let members = match members(json) {
            Ok(members) => members,
            Err(fault) => return Err(fault),
        };
        match integer(members, Field::Id) {
            Ok(id) => Ok(Installation { id }),
            Err(fault) => Err(fault),
        }
    }
}

impl Record for Gateway {
    open spec fn of(json: JsonValue) -> Result<Seq<char>, ShapeFault> {
        match members_of(json) {
            Err(fault) => Err(fault),
            Ok(members) => text_of(members, Field::Serial),
        }
    }

    fn decode(json: &Json) -> (r: Result<Gateway, ShapeFault>) {
        let members = match members(json) {
            Ok(members) => members,
            Err(fault) => return Err(fault),
        };
        match text(members, Field::Serial) {
            Ok(serial) => Ok(Gateway { serial }),
            Err(fault) => Err(fault),
        }
    }
}

impl Record for Device {
    open spec fn of(json: JsonValue) -> Result<Seq<char>, ShapeFault> {
        match members_of(json) {
            Err(fault) => Err(fault),
            Ok(members) => text_of(members, Field::Id),
        }
    }

    fn decode(json: &Json) -> (r: Result<Device, ShapeFault>) {
        let members = match members(json) {
            Ok(members) => members,
            Err(fault) => return Err(fault),
        };
        match text(members, Field::Id) {
            Ok(id) => Ok(Device { id }),
            Err(fault) => Err(fault),
        }
    }
}

impl Record for Feature {
    open spec fn of(json: JsonValue) -> Result<FeatureView, ShapeFault> {
        match members_of(json) {
            Err(fault) => Err(fault),
            Ok(members) => match text_of(members, Field::Feature) {
                Err(fault) => Err(fault),
                Ok(feature) => match flag_of(members, Field::Enabled) {
                    Err(fault) => Err(fault),
                    Ok(enabled) => match flag_of(members, Field::Ready) {
                        Err(fault) => Err(fault),
                        Ok(ready) => Ok(FeatureView { feature, enabled, ready }),
                    },
                },
            },
        }
    }

    fn decode(json: &Json) -> (r: Result<Feature, ShapeFault>) {
        let members = match members(json) {
            Ok(members) => members,
            Err(fault) => return Err(fault),
        };
        let feature = match text(members, Field::Feature) {
            Ok(text) => text,
            Err(fault) => return Err(fault),
        };
        let enabled = match flag(members, Field::Enabled) {
            Ok(flag) => flag,
            Err(fault) => return Err(fault),
        };
        let ready = match flag(members, Field::Ready) {
            Ok(flag) => flag,
            Err(fault) => return Err(fault),
        };
        Ok(Feature { feature, enabled, ready })
    }
}

impl Record for Event {
    open spec fn of(json: JsonValue) -> Result<Seq<char>, ShapeFault> {
        match members_of(json) {
            Err(fault) => Err(fault),
            Ok(members) => text_of(members, Field::EventType),
        }
    }

    fn decode(json: &Json) -> (r: Result<Event, ShapeFault>) {
        let members = match members(json) {
            Ok(members) => members,
            Err(fault) => return Err(fault),
        };
        match text(members, Field::EventType) {
            Ok(event_type) => Ok(Event { event_type }),
            Err(fault) => Err(fault),
        }
    }
}

impl Record for Installations {
    open spec fn of(json: JsonValue) -> Result<Seq<i32>, ShapeFault> {
        list_of::<Installation>(json)
    }

    fn decode(json: &Json) -> (r: Result<Installations, ShapeFault>) {
        match decode_list::<Installation>(json) {
            Ok(data) => Ok(Installations { data }),
            Err(fault) => Err(fault),
        }
    }
}

impl Record for Gateways {
    open spec fn of(json: JsonValue) -> Result<Seq<Seq<char>>, ShapeFault> {
        list_of::<Gateway>(json)
    }

    fn decode(json: &Json) -> (r: Result<Gateways, ShapeFault>) {
        match decode_list::<Gateway>(json) {
            Ok(data) => Ok(Gateways { data }),
            Err(fault) => Err(fault),
        }
    }
}

impl Record for Devices {
    open spec fn of(json: JsonValue) -> Result<Seq<Seq<char>>, ShapeFault> {
        list_of::<Device>(json)
    }

    fn decode(json: &Json) -> (r: Result<Devices, ShapeFault>) {
        match decode_list::<Device>(json) {
            Ok(data) => Ok(Devices { data }),
            Err(fault) => Err(fault),
        }
    }
}

impl Record for Features {
    open spec fn of(json: JsonValue) -> Result<Seq<FeatureView>, ShapeFault> {
        list_of::<Feature>(json)
    }

    fn decode(json: &Json) -> (r: Result<Features, ShapeFault>) {
        match decode_list::<Feature>(json) {
            Ok(data) => Ok(Features { data }),
            Err(fault) => Err(fault),
        }
    }
}

impl Record for Events {
    open spec fn of(json: JsonValue) -> Result<Seq<Seq<char>>, ShapeFault> {
        list_of::<Event>(json)
    }

    fn decode(json: &Json) -> (r: Result<Events, ShapeFault>) {
        match decode_list::<Event>(json) {
            Ok(data) => Ok(Events { data }),
            Err(fault) => Err(fault),
        }
    }
}

/// Whether the member at a position is the only one that answers to a field.
pub open spec fn sole(members: Seq<(Seq<char>, JsonValue)>, field: Field, i: int) -> bool {
    &&& 0 <= i < members.len()
    &&& field.answers(members[i].0)
    &&& forall|j: int|
        0 <= j < members.len() && j != i ==> !field.answers((#[trigger] members[j]).0)
}

proof fn answering_around(members: Seq<(Seq<char>, JsonValue)>, field: Field, i: int, k: int)
    requires
        sole(members, field, i),
        0 <= k <= members.len(),
    ensures
        answering(members.take(k), field) == if k <= i {
            Seq::empty()
        } else {
            seq![members[i]]
        },
    decreases k,
{
    if k == 0 {
        reveal(Seq::filter);
        assert(answering(members.take(0), field) =~= Seq::empty());
    } else {
        answering_around(members, field, i, k - 1);
        answering_step(members, field, k - 1);
        if k - 1 == i {
            assert(Seq::<(Seq<char>, JsonValue)>::empty().push(members[i]) =~= seq![members[i]]);
        } else {
            assert(!field.answers(members[k - 1].0));
        }
    }
}

/// A field may be sent under its alias: the four aliases answer to their fields.
pub proof fn aliases_answer()
    ensures
        Field::LoginId.answers("loginId"@),
        Field::Enabled.answers("isEnabled"@),
        Field::Ready.answers("isReady"@),
        Field::EventType.answers("eventType"@),
{
}

/// Where one member alone answers to a field, under the field's key or under its
/// alias, its value is the field's value, wherever it stands among the members and
/// whatever the other members hold.
pub proof fn sole_member_is_found(members: Seq<(Seq<char>, JsonValue)>, field: Field, i: int)
    requires
        sole(members, field, i),
    ensures
        member_of(members, field) == Ok::<_, ShapeFault>(members[i].1),
{
    answering_around(members, field, i, members.len() as int);
    assert(members.take(members.len() as int) =~= members);
}

/// A token is read from every object with one member for the access token that holds
/// a text and one for the lifetime that holds an integer of 32 bits.
pub proof fn token_is_read(
    members: Seq<(Seq<char>, JsonValue)>,
    i: int,
    j: int,
    access_token: Seq<char>,
    expires_in: i32,
)
    requires
        sole(members, Field::AccessToken, i),
        members[i].1 == JsonValue::Text(access_token),
        sole(members, Field::ExpiresIn, j),
        members[j].1 == JsonValue::Number(Some(expires_in as i64)),
    ensures
        Token::of(JsonValue::Object(members)) == Ok::<_, ShapeFault>(
            TokenView { access_token, expires_in },
        ),
{
    sole_member_is_found(members, Field::AccessToken, i);
    sole_member_is_found(members, Field::ExpiresIn, j);
}

/// The user's identity is read from every object with one member for the login, be
/// it under `login_id` or under `loginId`, and one for the identifier, each holding
/// a text.
pub proof fn user_info_is_read(
    members: Seq<(Seq<char>, JsonValue)>,
    i: int,
    j: int,
    login_id: Seq<char>,
    id: Seq<char>,
)
    requires
        sole(members, Field::LoginId, i),
        members[i].1 == JsonValue::Text(login_id),
        sole(members, Field::Id, j),
        members[j].1 == JsonValue::Text(id),
    ensures
        UserInfo::of(JsonValue::Object(members)) == Ok::<_, ShapeFault>(
            UserInfoView { login_id, id },
        ),
{
    sole_member_is_found(members, Field::LoginId, i);
    sole_member_is_found(members, Field::Id, j);
}

/// An installation is read from every object with one member for the identifier
/// that holds an integer of 32 bits.
pub proof fn installation_is_read(members: Seq<(Seq<char>, JsonValue)>, i: int, id: i32)
    requires
        sole(members, Field::Id, i),
        members[i].1 == JsonValue::Number(Some(id as i64)),
    ensures
        Installation::of(JsonValue::Object(members)) == Ok::<_, ShapeFault>(id),
{
    sole_member_is_found(members, Field::Id, i);
}

/// A gateway is read from every object with one member for the serial that holds a
/// text.
pub proof fn gateway_is_read(members: Seq<(Seq<char>, JsonValue)>, i: int, serial: Seq<char>)
    requires
        sole(members, Field::Serial, i),
        members[i].1 == JsonValue::Text(serial),
    ensures
        Gateway::of(JsonValue::Object(members)) == Ok::<_, ShapeFault>(serial),
{
    sole_member_is_found(members, Field::Serial, i);
}

/// A device is read from every object with one member for the identifier that holds
/// a text.
pub proof fn device_is_read(members: Seq<(Seq<char>, JsonValue)>, i: int, id: Seq<char>)
    requires
        sole(members, Field::Id, i),
        members[i].1 == JsonValue::Text(id),
    ensures
        Device::of(JsonValue::Object(members)) == Ok::<_, ShapeFault>(id),
{
    sole_member_is_found(members, Field::Id, i);
}

/// A feature is read from every object with one member for the name that holds a
/// text, and one each for the two flags, under their keys or under `isEnabled` and
/// `isReady`, that holds a truth value.
pub proof fn feature_is_read(
    members: Seq<(Seq<char>, JsonValue)>,
    i: int,
    j: int,
    k: int,
    feature: Seq<char>,
    enabled: bool,
    ready: bool,
)
    requires
        sole(members, Field::Feature, i),
        members[i].1 == JsonValue::Text(feature),
        sole(members, Field::Enabled, j),
        members[j].1 == JsonValue::Bool(enabled),
        sole(members, Field::Ready, k),
        members[k].1 == JsonValue::Bool(ready),
    ensures
        Feature::of(JsonValue::Object(members)) == Ok::<_, ShapeFault>(
            FeatureView { feature, enabled, ready },
        ),
{
    sole_member_is_found(members, Field::Feature, i);
    sole_member_is_found(members, Field::Enabled, j);
    sole_member_is_found(members, Field::Ready, k);
}

/// An event is read from every object with one member for its type, under
/// `event_type` or under `eventType`, that holds a text.
pub proof fn event_is_read(members: Seq<(Seq<char>, JsonValue)>, i: int, event_type: Seq<char>)
    requires
        sole(members, Field::EventType, i),
        members[i].1 == JsonValue::Text(event_type),
    ensures
        Event::of(JsonValue::Object(members)) == Ok::<_, ShapeFault>(event_type),
{
    sole_member_is_found(members, Field::EventType, i);
}

/// Items that are all records are read as those records, one for one and in their
/// order.
pub proof fn items_are_read<T: Record>(items: Seq<JsonValue>, records: Seq<T::V>)
    requires
        records.len() == items.len(),
        forall|k: int| 0 <= k < items.len() ==> T::of(#[trigger] items[k]) == Ok::<_, ShapeFault>(records[k]),
    ensures
        each_of::<T>(items) == Ok::<_, ShapeFault>(records),
    decreases items.len(),
{
    if items.len() == 0 {
        assert(records =~= Seq::empty());
    } else {
        items_are_read::<T>(items.drop_last(), records.drop_last());
        assert(records.drop_last().push(records.last()) =~= records);
    }
}

/// A list is read from every object with one member for `data` that holds an array
/// of records: the list holds those records, one for one and in their order.
pub proof fn list_is_read<T: Record>(
    members: Seq<(Seq<char>, JsonValue)>,
    i: int,
    items: Seq<JsonValue>,
    records: Seq<T::V>,
)
    requires
        sole(members, Field::Data, i),
        members[i].1 == JsonValue::Array(items),
        records.len() == items.len(),
        forall|k: int| 0 <= k < items.len() ==> T::of(#[trigger] items[k]) == Ok::<_, ShapeFault>(records[k]),
    ensures
        list_of::<T>(JsonValue::Object(members)) == Ok::<_, ShapeFault>(records),
{
    sole_member_is_found(members, Field::Data, i);
    items_are_read::<T>(items, records);
}

/// The envelope with no items is the empty list, and no fault, for every kind of
/// record.
pub proof fn empty_list_is_read<T: Record>(members: Seq<(Seq<char>, JsonValue)>, i: int)
    requires
        sole(members, Field::Data, i),
        members[i].1 == JsonValue::Array(Seq::empty()),
    ensures
        list_of::<T>(JsonValue::Object(members)) == Ok::<_, ShapeFault>(Seq::<T::V>::empty()),
{
    list_is_read::<T>(members, i, Seq::empty(), Seq::empty());
}

/// The object `{"data": []}` is such an envelope.
pub proof fn bare_envelope_is_empty_list<T: Record>()
    ensures
        list_of::<T>(
            JsonValue::Object(seq![("data"@, JsonValue::Array(Seq::empty()))]),
        ) == Ok::<_, ShapeFault>(Seq::<T::V>::empty()),
{
    empty_list_is_read::<T>(seq![("data"@, JsonValue::Array(Seq::empty()))], 0);
}

} // verus!
