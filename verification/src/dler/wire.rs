//! What goes over the wire to the remote service, and what comes back.
//!
//! A request body is built from the credentials, or from the account state
//! that a login gave, and written as a JSON object. A response body is read
//! member by member: it is taken whole or not at all.

use crate::dler::account::Account;
use crate::dler::json::{Json, JsonView};
use vstd::prelude::*;
use vstd::std_specs::convert::FromSpecImpl;

verus! {

/// For how long the service is asked to keep a token alive. A run logs out
/// when it is done, so the shortest span that the service offers will do.
pub const TOKEN_EXPIRE: i32 = 1;

/// The body of a request.
#[derive(Debug, PartialEq, Eq)]
pub enum Body {
    /// Asks for a session.
    Login { email: String, passwd: String, token_expire: i32 },
    /// Gives a session up.
    Logout { access_token: String },
}

/// A [`Body`] as a mathematical value.
pub enum BodyView {
    Login { email: Seq<char>, passwd: Seq<char>, token_expire: int },
    Logout { access_token: Seq<char> },
}

impl View for Body {
    type V = BodyView;

    open spec fn view(&self) -> BodyView {
        match self {
            Body::Login { email, passwd, token_expire } => BodyView::Login {
                email: email@,
                passwd: passwd@,
                token_expire: *token_expire as int,
            },
            Body::Logout { access_token } => BodyView::Logout { access_token: access_token@ },
        }
    }
}

/// The state of an account, as a login reports it.
///
/// The service sends every value ready for display, so each is kept as the
/// string that came, whatever it looks like.
#[derive(Debug, PartialEq, Eq)]
pub enum Data {
    Login {
        token: String,
        token_expire: String,
        plan: String,
        plan_time: String,
        money: String,
        aff_money: String,
        today_used: String,
        used: String,
        unused: String,
        traffic: String,
        integral: String,
    },
}

/// A [`Data`] as a mathematical value.
pub enum DataView {
    Login {
        token: Seq<char>,
        token_expire: Seq<char>,
        plan: Seq<char>,
        plan_time: Seq<char>,
        money: Seq<char>,
        aff_money: Seq<char>,
        today_used: Seq<char>,
        used: Seq<char>,
        unused: Seq<char>,
        traffic: Seq<char>,
        integral: Seq<char>,
    },
}

impl View for Data {
    type V = DataView;

    open spec fn view(&self) -> DataView {
        match self {
            Data::Login {
                token,
                token_expire,
                plan,
                plan_time,
                money,
                aff_money,
                today_used,
                used,
                unused,
                traffic,
                integral,
            } => DataView::Login {
                token: token@,
                token_expire: token_expire@,
                plan: plan@,
                plan_time: plan_time@,
                money: money@,
                aff_money: aff_money@,
                today_used: today_used@,
                used: used@,
                unused: unused@,
                traffic: traffic@,
                integral: integral@,
            },
        }
    }
}

/// The whole of a login's response: a return code, a message, and the
/// account's state. Only the state is acted on.
#[derive(Debug, PartialEq, Eq)]
pub struct Response {
    pub ret: i32,
    pub msg: String,
    pub data: Data,
}

/// A [`Response`] as a mathematical value.
pub struct ResponseView {
    pub ret: int,
    pub msg: Seq<char>,
    pub data: DataView,
}

impl View for Response {
    type V = ResponseView;

    open spec fn view(&self) -> ResponseView {
        ResponseView { ret: self.ret as int, msg: self.msg@, data: self.data@ }
    }
}

/// The body that logs `account` in.
pub open spec fn login_body(account: crate::dler::account::AccountView) -> BodyView {
    BodyView::Login {
        email: account.email,
        passwd: account.password,
        token_expire: TOKEN_EXPIRE as int,
    }
}

/// The body that gives up the session that `data` came with.
pub open spec fn logout_body(data: DataView) -> BodyView {
    BodyView::Logout { access_token: data->token }
}

impl<'a> From<&'a Account> for Body {
    /// The login request for an account: its two strings, and the fixed span.
    fn from(account: &'a Account) -> (body: Body)
        ensures
            body@ == login_body(account@),
    {
        Body::Login {
            email: account.email().clone(),
            passwd: account.password().clone(),
            token_expire: TOKEN_EXPIRE,
        }
    }
}

impl<'a> FromSpecImpl<&'a Account> for Body {
    open spec fn obeys_from_spec() -> bool {
        true
    }

    open spec fn from_spec(account: &'a Account) -> Body {
        Body::Login {
            email: *account.email(),
            passwd: *account.password(),
            token_expire: TOKEN_EXPIRE,
        }
    }
}

impl<'a> From<&'a Data> for Body {
    /// The logout request for a session: the token that the login gave.
    fn from(data: &'a Data) -> (body: Body)
        ensures
            body@ == logout_body(data@),
    {
        match data {
            Data::Login { token, .. } => Body::Logout { access_token: token.clone() },
        }
    }
}

impl<'a> FromSpecImpl<&'a Data> for Body {
    open spec fn obeys_from_spec() -> bool {
        true
    }

    open spec fn from_spec(data: &'a Data) -> Body {
        Body::Logout { access_token: data->token }
    }
}

/// Where a request body is posted to: each kind of body has an endpoint of
/// its own.
pub open spec fn endpoint_of(body: BodyView) -> Seq<char> {
    match body {
        BodyView::Login { .. } => "https://dler.cloud/api/v1/login"@,
        BodyView::Logout { .. } => "https://dler.cloud/api/v1/logout"@,
    }
}

/// How a request body is written: an object with the body's fields as its
/// members, each under its own name, in the order in which the body lists them.
pub open spec fn body_json(body: BodyView) -> JsonView {
    match body {
        BodyView::Login { email, passwd, token_expire } => JsonView::Object(
            seq![
                ("email"@, JsonView::Text(email)),
                ("passwd"@, JsonView::Text(passwd)),
                ("token_expire"@, JsonView::Integer(token_expire)),
            ],
        ),
        BodyView::Logout { access_token } => JsonView::Object(
            seq![("access_token"@, JsonView::Text(access_token))],
        ),
    }
}

/// The names of the members that an account's state is read from. Each has to
/// be there, and each has to hold a string.
pub open spec fn data_fields() -> Seq<Seq<char>> {
    seq![
        "token"@,
        "token_expire"@,
        "plan"@,
        "plan_time"@,
        "money"@,
        "aff_money"@,
        "today_used"@,
        "used"@,
        "unused"@,
        "traffic"@,
        "integral"@,
    ]
}

/// Whether `json` holds a string under every name of [`data_fields`].
pub open spec fn data_complete(json: JsonView) -> bool {
    forall|i: int|
        0 <= i < data_fields().len() ==> (#[trigger] json.text_at(data_fields()[i])) is Some
}

/// The account state that `json` holds: each field is the string under the
/// field's name, and there is a state only where none of them is missing.
pub open spec fn decoded_data(json: JsonView) -> Option<DataView> {
    if data_complete(json) {
        Some(
            DataView::Login {
                token: json.text_at("token"@).unwrap(),
                token_expire: json.text_at("token_expire"@).unwrap(),
                plan: json.text_at("plan"@).unwrap(),
                plan_time: json.text_at("plan_time"@).unwrap(),
                money: json.text_at("money"@).unwrap(),
                aff_money: json.text_at("aff_money"@).unwrap(),
                today_used: json.text_at("today_used"@).unwrap(),
                used: json.text_at("used"@).unwrap(),
                unused: json.text_at("unused"@).unwrap(),
                traffic: json.text_at("traffic"@).unwrap(),
                integral: json.text_at("integral"@).unwrap(),
            },
        )
    } else {
        None
    }
}

/// Whether `json` has what a response is read from: under `ret` an integer
/// of 32 bits, under `msg` a string, and under `data` a complete account state.
pub open spec fn response_complete(json: JsonView) -> bool {
    &&& json.integer_at("ret"@) matches Some(ret) && i32::MIN <= ret <= i32::MAX
    &&& json.text_at("msg"@) is Some
    &&& json.member("data"@) matches Some(data) && data_complete(data)
}

/// The response that `json` holds, where it holds one.
pub open spec fn decoded_response(json: JsonView) -> Option<ResponseView> {
    if response_complete(json) {
        Some(
            ResponseView {
                ret: json.integer_at("ret"@).unwrap(),
                msg: json.text_at("msg"@).unwrap(),
                data: decoded_data(json.member("data"@).unwrap()).unwrap(),
            },
        )
    } else {
        None
    }
}

impl Body {
    /// The address that the body is posted to.
    pub fn endpoint(&self) -> (url: &'static str)
        ensures
            url@ == endpoint_of(self@),
    {
        match self {
            Body::Login { .. } => "https://dler.cloud/api/v1/login",
            Body::Logout { .. } => "https://dler.cloud/api/v1/logout",
        }
    }

    /// Writes the body as the JSON object that the service expects.
    pub fn to_json(&self) -> (json: Json)
        ensures
            json@ == body_json(self@),
    {
        match self {
            Body::Login { email, passwd, token_expire } => {
                let mut members: Vec<(String, Json)> = Vec::new();
                members.push(("email".to_owned(), Json::Text(email.clone())));
                members.push(("passwd".to_owned(), Json::Text(passwd.clone())));
                members.push(("token_expire".to_owned(), Json::Integer(*token_expire as i64)));
                proof {
                    assert(members@[0].1@ == JsonView::Text(email@));
                    assert(members@[1].1@ == JsonView::Text(passwd@));
                    assert(members@[2].1@ == JsonView::Integer(*token_expire as int));
                }
                let json = Json::Object(members);
                assert(json@->Object_0 =~= body_json(self@)->Object_0);
                json
            },
            Body::Logout { access_token } => {
                let mut members: Vec<(String, Json)> = Vec::new();
                members.push(("access_token".to_owned(), Json::Text(access_token.clone())));
                proof {
                    assert(members@[0].1@ == JsonView::Text(access_token@));
                }
                let json = Json::Object(members);
                assert(json@->Object_0 =~= body_json(self@)->Object_0);
                json
            },
        }
    }
}

impl Data {
    /// Reads an account's state from the object that a login sent.
    ///
    /// There is a state only where every field is there as a string: one
    /// field missing, or holding anything else, and nothing is read.
    pub fn decode(json: &Json) -> (data: Option<Data>)
        ensures
            match data {
                Some(data) => decoded_data(json@) == Some(data@),
                None => decoded_data(json@) is None,
            },
    {
        let token = json.text_at("token");
        let token_expire = json.text_at("token_expire");
        let plan = json.text_at("plan");
        let plan_time = json.text_at("plan_time");
        let money = json.text_at("money");
        let aff_money = json.text_at("aff_money");
        let today_used = json.text_at("today_used");
        let used = json.text_at("used");
        let unused = json.text_at("unused");
        let traffic = json.text_at("traffic");
        let integral = json.text_at("integral");
        proof {
            lemma_data_complete(json@);
        }
        match (
            token,
            token_expire,
            plan,
            plan_time,
            money,
            aff_money,
            today_used,
            used,
            unused,
            traffic,
            integral,
        ) {
            (
                Some(token),
                Some(token_expire),
                Some(plan),
                Some(plan_time),
                Some(money),
                Some(aff_money),
                Some(today_used),
                Some(used),
                Some(unused),
                Some(traffic),
                Some(integral),
            ) => Some(
                Data::Login {
                    token: token.clone(),
                    token_expire: token_expire.clone(),
                    plan: plan.clone(),
                    plan_time: plan_time.clone(),
                    money: money.clone(),
                    aff_money: aff_money.clone(),
                    today_used: today_used.clone(),
                    used: used.clone(),
                    unused: unused.clone(),
                    traffic: traffic.clone(),
                    integral: integral.clone(),
                },
            ),
            _ => None,
        }
    }
}

impl Response {
    /// Reads a login's response from the document that came back.
    ///
    /// The response is taken whole or not at all: where the return code, the
    /// message or any field of the account's state is missing or of another
    /// type, nothing is read.
    pub fn decode(json: &Json) -> (response: Option<Response>)
        ensures
            match response {
                Some(response) => decoded_response(json@) == Some(response@),
                None => decoded_response(json@) is None,
            },
    {
        let ret: i64 = match json.integer_at("ret") {
            Some(ret) => ret,
            None => { return None; },
        };
        if ret < -0x8000_0000i64 || ret > 0x7fff_ffffi64 {
            return None;
        }
        let msg = match json.text_at("msg") {
            Some(msg) => msg,
            None => { return None; },
        };
        let data = match json.get("data") {
            Some(data) => data,
            None => { return None; },
        };
        match Data::decode(data) {
            Some(data) => Some(Response { ret: ret as i32, msg: msg.clone(), data }),
            None => None,
        }
    }
}

/// A state is complete where each of the eleven names, taken one by one, has
/// its string.
pub proof fn lemma_data_complete(json: JsonView)
    ensures
        data_complete(json) <==> {
            &&& json.text_at("token"@) is Some
            &&& json.text_at("token_expire"@) is Some
            &&& json.text_at("plan"@) is Some
            &&& json.text_at("plan_time"@) is Some
            &&& json.text_at("money"@) is Some
            &&& json.text_at("aff_money"@) is Some
            &&& json.text_at("today_used"@) is Some
            &&& json.text_at("used"@) is Some
            &&& json.text_at("unused"@) is Some
            &&& json.text_at("traffic"@) is Some
            &&& json.text_at("integral"@) is Some
        },
{
    let names = data_fields();
    assert(names.len() == 11);
    assert(names[0] == "token"@);
    assert(names[1] == "token_expire"@);
    assert(names[2] == "plan"@);
    assert(names[3] == "plan_time"@);
    assert(names[4] == "money"@);
    assert(names[5] == "aff_money"@);
    assert(names[6] == "today_used"@);
    assert(names[7] == "used"@);
    assert(names[8] == "unused"@);
    assert(names[9] == "traffic"@);
    assert(names[10] == "integral"@);
}

/// The decode is all or nothing: where a single one of the required fields is
/// missing from the object, or holds anything but a string, there is no state.
pub proof fn lemma_missing_field_fails(json: JsonView, name: Seq<char>)
    requires
        data_fields().contains(name),
        json.text_at(name) is None,
    ensures
        decoded_data(json) is None,
{
    let i: int = choose|i: int| 0 <= i < data_fields().len() && data_fields()[i] == name;
    assert(json.text_at(data_fields()[i]) is None);
}

/// Nor is there a response where the state inside it is not complete: one
/// required field missing from what stands under `data`, and nothing is read.
pub proof fn lemma_missing_field_fails_response(json: JsonView, data: JsonView, name: Seq<char>)
    requires
        json.member("data"@) == Some(data),
        data_fields().contains(name),
        data.text_at(name) is None,
    ensures
        decoded_response(json) is None,
{
    lemma_missing_field_fails(data, name);
}

/// The same holds of the response's own three members: without its return
/// code, its message or its data, nothing is read.
pub proof fn lemma_missing_member_fails_response(json: JsonView, name: Seq<char>)
    requires
        name == "ret"@ || name == "msg"@ || name == "data"@,
        json.member(name) is None,
    ensures
        decoded_response(json) is None,
{
}

} // verus!
