//! One run, from login to logout, as a state machine.
//!
//! A run makes three calls, one after the other: it logs in, it tells the chat
//! what the login reported, and it logs out. The calls themselves are made
//! elsewhere. What is decided here is which call comes next: [`Session::start`]
//! asks for the first, and [`Session::step`] takes the outcome of the call that
//! was asked for last and says what follows from it.
//!
//! A login that gives no account state ends the run at once. After a login
//! that gives one, both other calls are asked for, whatever comes of the
//! delivery: a message that could not be delivered does not keep the session
//! from being closed.

use crate::dler::account::{Account, AccountView};
use crate::dler::json::{Json, JsonView};
use crate::dler::message::{report, Message};
use crate::dler::wire::{
    decoded_response, login_body, logout_body, Body, BodyView, Data, DataView, Response,
};
use vstd::prelude::*;

verus! {

/// How far a run has come.
#[derive(Debug, PartialEq, Eq)]
pub enum State {
    /// The login has been asked for.
    Start,
    /// The login gave this state, and its report is on the way to the chat.
    LoggedIn(Data),
    /// The delivery has been tried, and the logout has been asked for.
    Notified(Data),
    /// The session is closed, as far as this run could close it. The run is over.
    LoggedOut,
    /// The login gave no state. The run is over.
    Failed,
}

/// A [`State`] as a mathematical value.
pub enum StateView {
    Start,
    LoggedIn(DataView),
    Notified(DataView),
    LoggedOut,
    Failed,
}

impl View for State {
    type V = StateView;

    open spec fn view(&self) -> StateView {
        match self {
            State::Start => StateView::Start,
            State::LoggedIn(data) => StateView::LoggedIn(data@),
            State::Notified(data) => StateView::Notified(data@),
            State::LoggedOut => StateView::LoggedOut,
            State::Failed => StateView::Failed,
        }
    }
}

/// What came of the call that was asked for last.
#[derive(Debug, PartialEq, Eq)]
pub enum Outcome {
    /// The call failed: nothing was sent, nothing came back, or what came back
    /// could not be read as a document.
    Failed,
    /// The call went through, and nothing was read from what it gave back.
    Done,
    /// The call went through and gave back this document.
    Replied(Json),
}

/// An [`Outcome`] as a mathematical value.
pub enum OutcomeView {
    Failed,
    Done,
    Replied(JsonView),
}

impl View for Outcome {
    type V = OutcomeView;

    open spec fn view(&self) -> OutcomeView {
        match self {
            Outcome::Failed => OutcomeView::Failed,
            Outcome::Done => OutcomeView::Done,
            Outcome::Replied(json) => OutcomeView::Replied(json@),
        }
    }
}

/// The call that is asked for next.
#[derive(Debug, PartialEq, Eq)]
pub enum Action {
    /// Post this body to the login endpoint, and read the response as a document.
    Login(Body),
    /// Send this text, as MarkdownV2, to this chat.
    Notify { chat: i64, text: String },
    /// Post this body to the logout endpoint. The response is not read.
    Logout(Body),
    /// Make no call: the run is over.
    Stop,
}

/// An [`Action`] as a mathematical value.
pub enum ActionView {
    Login(BodyView),
    Notify { chat: int, text: Seq<char> },
    Logout(BodyView),
    Stop,
}

impl View for Action {
    type V = ActionView;

    open spec fn view(&self) -> ActionView {
        match self {
            Action::Login(body) => ActionView::Login(body@),
            Action::Notify { chat, text } => ActionView::Notify { chat: *chat as int, text: text@ },
            Action::Logout(body) => ActionView::Logout(body@),
            Action::Stop => ActionView::Stop,
        }
    }
}

/// What went wrong in a step, for the record. None of these is handed on as
/// an error: the first two end the run early, the other two change nothing.
#[derive(Clone, Copy, Debug, PartialEq, Eq, Structural)]
pub enum Fault {
    /// The login call failed.
    LoginTransport,
    /// The login call went through, and what it gave back holds no response.
    LoginDecode,
    /// The message did not reach the chat.
    Delivery,
    /// The logout call failed.
    LogoutTransport,
}

/// A run: the chat that it reports to, and how far it has come.
#[derive(Debug, PartialEq, Eq)]
pub struct Session {
    chat: i64,
    state: State,
}

/// A [`Session`] as a mathematical value.
pub struct SessionView {
    pub chat: int,
    pub state: StateView,
}

impl View for Session {
    type V = SessionView;

    closed spec fn view(&self) -> SessionView {
        SessionView { chat: self.chat as int, state: self.state@ }
    }
}

/// What a step gives: the run as it now stands, the call to make next, and
/// what there is to record.
#[derive(Debug, PartialEq, Eq)]
pub struct Step {
    pub session: Session,
    pub action: Action,
    pub fault: Option<Fault>,
}

/// A [`Step`] as a mathematical value.
pub struct StepView {
    pub session: SessionView,
    pub action: ActionView,
    pub fault: Option<Fault>,
}

impl View for Step {
    type V = StepView;

    open spec fn view(&self) -> StepView {
        StepView { session: self.session@, action: self.action@, fault: self.fault }
    }
}

/// The run that reports to `chat` and has made no call yet.
pub open spec fn opening(chat: int) -> SessionView {
    SessionView { chat, state: StateView::Start }
}

/// The account state that the outcome of a login gives: the state inside the
/// response, where a document came back and holds a whole response.
pub open spec fn granted(outcome: OutcomeView) -> Option<DataView> {
    match outcome {
        OutcomeView::Replied(json) => match decoded_response(json) {
            Some(response) => Some(response.data),
            None => None,
        },
        _ => None,
    }
}

/// What follows when the call that `session` waits for ends in `outcome`.
///
/// * After the login: with a state, its report goes to the chat; without one,
///   the run has failed and stops.
/// * After the delivery: the logout is asked for, with the token of the state
///   that the login gave. A failed delivery is recorded and changes nothing
///   else.
/// * After the logout: the run stops. A failed logout is recorded and changes
///   nothing else.
/// * A run that is over stays as it is and asks for nothing.
pub open spec fn step_of(session: SessionView, outcome: OutcomeView) -> StepView {
    let chat: int = session.chat;
    match session.state {
        StateView::Start => match granted(outcome) {
            Some(data) => StepView {
                session: SessionView { chat, state: StateView::LoggedIn(data) },
                action: ActionView::Notify { chat, text: report(data) },
                fault: None,
            },
            None => StepView {
                session: SessionView { chat, state: StateView::Failed },
                action: ActionView::Stop,
                fault: Some(
                    if outcome is Failed {
                        Fault::LoginTransport
                    } else {
                        Fault::LoginDecode
                    },
                ),
            },
        },
        StateView::LoggedIn(data) => StepView {
            session: SessionView { chat, state: StateView::Notified(data) },
            action: ActionView::Logout(logout_body(data)),
            fault: if outcome is Failed {
                Some(Fault::Delivery)
            } else {
                None
            },
        },
        StateView::Notified(_) => StepView {
            session: SessionView { chat, state: StateView::LoggedOut },
            action: ActionView::Stop,
            fault: if outcome is Failed {
                Some(Fault::LogoutTransport)
            } else {
                None
            },
        },
        StateView::LoggedOut => StepView { session, action: ActionView::Stop, fault: None },
        StateView::Failed => StepView { session, action: ActionView::Stop, fault: None },
    }
}

/// The calls that a run asks for, one for each of `outcomes`, when it stands
/// at `session` and the outcomes come in this order.
pub open spec fn actions_of(session: SessionView, outcomes: Seq<OutcomeView>) -> Seq<ActionView>
    decreases outcomes.len(),
{
    if outcomes.len() == 0 {
        Seq::empty()
    } else {
        let step = step_of(session, outcomes[0]);
        seq![step.action] + actions_of(step.session, outcomes.skip(1))
    }
}

/// Whether a run that stands at `session` is over.
pub open spec fn over(session: SessionView) -> bool {
    session.state is LoggedOut || session.state is Failed
}

impl Session {
    /// Begins a run for the account with these credentials, reporting to
    /// `chat`: the first call is the login.
    pub fn start(email: String, password: String, chat: i64) -> (begun: (Session, Action))
        ensures
            begun.0@ == opening(chat as int),
            begun.1@ == ActionView::Login(
                login_body(AccountView { email: email@, password: password@ }),
            ),
    {
        let account = Account::new(email, password);
        let body = Body::from(&account);
        (Session { chat, state: State::Start }, Action::Login(body))
    }

    /// The chat that the run reports to.
    pub fn chat(&self) -> (chat: i64)
        ensures
            chat as int == self@.chat,
    {
        self.chat
    }

    /// How far the run has come.
    pub fn state(&self) -> (state: &State)
        ensures
            state@ == self@.state,
    {
        &self.state
    }

    /// Whether the run is over, so that no call is left to make.
    pub fn is_over(&self) -> (yes: bool)
        ensures
            yes == over(self@),
    {
        match self.state {
            State::LoggedOut => true,
            State::Failed => true,
            _ => false,
        }
    }

    /// Takes the outcome of the call that was asked for last, and says how the
    /// run stands now, which call comes next, and what there is to record.
    pub fn step(self, outcome: Outcome) -> (step: Step)
        ensures
            step@ == step_of(self@, outcome@),
    {
        let chat: i64 = self.chat;
        match self.state {
            State::Start => {
                let failed: bool = match &outcome {
                    Outcome::Failed => true,
                    _ => false,
                };
                match login_state(outcome) {
                    Some(data) => {
                        let text = Message::from(&data).render();
                        Step {
                            session: Session { chat, state: State::LoggedIn(data) },
                            action: Action::Notify { chat, text },
                            fault: None,
                        }
                    },
                    None => Step {
                        session: Session { chat, state: State::Failed },
                        action: Action::Stop,
                        fault: Some(
                            if failed {
                                Fault::LoginTransport
                            } else {
                                Fault::LoginDecode
                            },
                        ),
                    },
                }
            },
            State::LoggedIn(data) => {
                let body = Body::from(&data);
                Step {
                    session: Session { chat, state: State::Notified(data) },
                    action: Action::Logout(body),
                    fault: match outcome {
                        Outcome::Failed => Some(Fault::Delivery),
                        _ => None,
                    },
                }
            },
            State::Notified(_) => Step {
                session: Session { chat, state: State::LoggedOut },
                action: Action::Stop,
                fault: match outcome {
                    Outcome::Failed => Some(Fault::LogoutTransport),
                    _ => None,
                },
            },
            State::LoggedOut => Step {
                session: Session { chat, state: State::LoggedOut },
                action: Action::Stop,
                fault: None,
            },
            State::Failed => Step {
                session: Session { chat, state: State::Failed },
                action: Action::Stop,
                fault: None,
            },
        }
    }
}

/// Reads the account state out of the outcome of a login.
pub fn login_state(outcome: Outcome) -> (data: Option<Data>)
    ensures
        match data {
            Some(data) => granted(outcome@) == Some(data@),
            None => granted(outcome@) is None,
        },
{
    match outcome {
        Outcome::Replied(json) => match Response::decode(&json) {
            Some(response) => Some(response.data),
            None => None,
        },
        _ => None,
    }
}

/// A run that is over asks for no call, whatever it is told.
pub proof fn lemma_over_asks_nothing(session: SessionView, outcomes: Seq<OutcomeView>)
    requires
        over(session),
    ensures
        actions_of(session, outcomes).len() == outcomes.len(),
        forall|i: int|
            0 <= i < outcomes.len() ==> (#[trigger] actions_of(session, outcomes)[i]) is Stop,
    decreases outcomes.len(),
{
    if outcomes.len() > 0 {
        lemma_over_asks_nothing(session, outcomes.skip(1));
    }
}

/// Where the login gives no state, there is no session to close and nothing to
/// report: after the login itself the run asks for no call at all, neither of
/// the notifier nor for a logout, whatever it is told afterwards.
pub proof fn lemma_no_state_no_calls(chat: int, outcomes: Seq<OutcomeView>)
    requires
        outcomes.len() > 0,
        granted(outcomes[0]) is None,
    ensures
        actions_of(opening(chat), outcomes).len() == outcomes.len(),
        forall|i: int|
            0 <= i < outcomes.len() ==> (#[trigger] actions_of(opening(chat), outcomes)[i])
                is Stop,
{
    let step = step_of(opening(chat), outcomes[0]);
    lemma_over_asks_nothing(step.session, outcomes.skip(1));
}

/// Where the login gives a state, the logout is asked for exactly once: as
/// soon as the delivery has been tried, whether it failed or not, and with the
/// token of the state that the login gave. Before that the run asks for the
/// delivery of that state's report, and after it for nothing.
pub proof fn lemma_logout_once_after_delivery(
    chat: int,
    outcomes: Seq<OutcomeView>,
    data: DataView,
)
    requires
        outcomes.len() >= 2,
        granted(outcomes[0]) == Some(data),
    ensures
        actions_of(opening(chat), outcomes).len() == outcomes.len(),
        actions_of(opening(chat), outcomes)[0] == (ActionView::Notify { chat, text: report(data) }),
        actions_of(opening(chat), outcomes)[1] == ActionView::Logout(logout_body(data)),
        forall|i: int|
            2 <= i < outcomes.len() ==> (#[trigger] actions_of(opening(chat), outcomes)[i])
                is Stop,
{
    let first = step_of(opening(chat), outcomes[0]);
    let rest = outcomes.skip(1);
    let second = step_of(first.session, rest[0]);
    let third = rest.skip(1);
    assert(actions_of(first.session, rest) == seq![second.action] + actions_of(
        second.session,
        third,
    ));
    if third.len() > 0 {
        let last = step_of(second.session, third[0]);
        lemma_over_asks_nothing(last.session, third.skip(1));
    }
}

} // verus!
