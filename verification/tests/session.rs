use bot::dler::session::login_state;
use bot::dler::{Action, Body, Data, Fault, Json, Message, Outcome, Session, State};

fn text(s: &str) -> Json {
    Json::Text(s.to_string())
}

fn state_json() -> Json {
    Json::Object(vec![
        ("token".to_string(), text("tok-1")),
        ("token_expire".to_string(), text("2025-01-02 00:00:00")),
        ("plan".to_string(), text("Pro")),
        ("plan_time".to_string(), text("2025-01-01")),
        ("money".to_string(), text("0.00")),
        ("aff_money".to_string(), text("1.50")),
        ("today_used".to_string(), text("1GB")),
        ("used".to_string(), text("10GB")),
        ("unused".to_string(), text("90GB")),
        ("traffic".to_string(), text("100GB")),
        ("integral".to_string(), text("42")),
    ])
}

fn state_value() -> Data {
    Data::Login {
        token: "tok-1".to_string(),
        token_expire: "2025-01-02 00:00:00".to_string(),
        plan: "Pro".to_string(),
        plan_time: "2025-01-01".to_string(),
        money: "0.00".to_string(),
        aff_money: "1.50".to_string(),
        today_used: "1GB".to_string(),
        used: "10GB".to_string(),
        unused: "90GB".to_string(),
        traffic: "100GB".to_string(),
        integral: "42".to_string(),
    }
}

fn response_json() -> Json {
    Json::Object(vec![
        ("ret".to_string(), Json::Integer(200)),
        ("msg".to_string(), text("ok")),
        ("data".to_string(), state_json()),
    ])
}

fn broken_response_json() -> Json {
    Json::Object(vec![
        ("ret".to_string(), Json::Integer(403)),
        ("msg".to_string(), text("wrong password")),
        ("data".to_string(), Json::Array(vec![])),
    ])
}

const REPORT: &str =
    "*Dler Cloud*\nPlan: Pro\nExpires: 2025\\-01\\-01\nToday: 1GB\nUsed: 10GB\nUnused: 90GB";

/// Stands in for the service and the chat: answers each call as it is told to,
/// and keeps what it was asked.
struct Double {
    login: Option<Json>,
    login_fails: bool,
    delivery_fails: bool,
    logout_fails: bool,
    logins: Vec<Body>,
    deliveries: Vec<(i64, String)>,
    logouts: Vec<Body>,
    faults: Vec<Fault>,
}

impl Double {
    fn new(login: Option<Json>) -> Double {
        Double {
            login,
            login_fails: false,
            delivery_fails: false,
            logout_fails: false,
            logins: vec![],
            deliveries: vec![],
            logouts: vec![],
            faults: vec![],
        }
    }

    fn perform(&mut self, action: Action) -> Option<Outcome> {
        match action {
            Action::Login(body) => {
                self.logins.push(body);
                if self.login_fails {
                    Some(Outcome::Failed)
                } else {
                    match self.login.take() {
                        Some(json) => Some(Outcome::Replied(json)),
                        None => Some(Outcome::Done),
                    }
                }
            }
            Action::Notify { chat, text } => {
                self.deliveries.push((chat, text));
                Some(if self.delivery_fails { Outcome::Failed } else { Outcome::Done })
            }
            Action::Logout(body) => {
                self.logouts.push(body);
                Some(if self.logout_fails { Outcome::Failed } else { Outcome::Done })
            }
            Action::Stop => None,
        }
    }

    /// Runs the session to its end, as the program does.
    fn run(&mut self, email: &str, password: &str, chat: i64) -> Session {
        let (mut session, mut action) = Session::start(email.to_string(), password.to_string(), chat);
        let mut calls = 0;
        while let Some(outcome) = self.perform(action) {
            let step = session.step(outcome);
            session = step.session;
            action = step.action;
            if let Some(fault) = step.fault {
                self.faults.push(fault);
            }
            calls += 1;
            assert!(calls <= 3);
        }
        session
    }
}

#[test]
fn start_asks_for_the_login_with_the_credentials() {
    let (session, action) = Session::start("a@example.com".to_string(), "s3cret".to_string(), 7);
    assert_eq!(session.state(), &State::Start);
    assert_eq!(session.chat(), 7);
    assert!(!session.is_over());
    assert_eq!(
        action,
        Action::Login(Body::Login {
            email: "a@example.com".to_string(),
            passwd: "s3cret".to_string(),
            token_expire: 1,
        })
    );
}

#[test]
fn a_login_with_a_state_leads_to_the_delivery_of_its_report() {
    let (session, _) = Session::start("a".to_string(), "b".to_string(), -100123);
    let step = session.step(Outcome::Replied(response_json()));
    assert_eq!(step.session.state(), &State::LoggedIn(state_value()));
    assert_eq!(step.session.chat(), -100123);
    assert_eq!(step.action, Action::Notify { chat: -100123, text: REPORT.to_string() });
    assert_eq!(step.fault, None);
    assert!(!step.session.is_over());
}

#[test]
fn the_report_is_the_rendered_message_of_the_state() {
    let (session, _) = Session::start("a".to_string(), "b".to_string(), 1);
    let step = session.step(Outcome::Replied(response_json()));
    let expected = Message::from(&state_value()).render();
    assert_eq!(step.action, Action::Notify { chat: 1, text: expected });
}

#[test]
fn a_failed_login_call_ends_the_run() {
    let (session, _) = Session::start("a".to_string(), "b".to_string(), 1);
    let step = session.step(Outcome::Failed);
    assert_eq!(step.session.state(), &State::Failed);
    assert_eq!(step.action, Action::Stop);
    assert_eq!(step.fault, Some(Fault::LoginTransport));
    assert!(step.session.is_over());
}

#[test]
fn a_login_answer_that_holds_no_response_ends_the_run() {
    for json in [broken_response_json(), Json::Null, state_json(), Json::Object(vec![])] {
        let (session, _) = Session::start("a".to_string(), "b".to_string(), 1);
        let step = session.step(Outcome::Replied(json));
        assert_eq!(step.session.state(), &State::Failed);
        assert_eq!(step.action, Action::Stop);
        assert_eq!(step.fault, Some(Fault::LoginDecode));
    }
}

#[test]
fn a_login_that_gave_nothing_to_read_ends_the_run() {
    let (session, _) = Session::start("a".to_string(), "b".to_string(), 1);
    let step = session.step(Outcome::Done);
    assert_eq!(step.session.state(), &State::Failed);
    assert_eq!(step.action, Action::Stop);
    assert_eq!(step.fault, Some(Fault::LoginDecode));
}

#[test]
fn after_the_delivery_comes_the_logout_with_the_token() {
    for outcome in [Outcome::Done, Outcome::Replied(Json::Null)] {
        let (session, _) = Session::start("a".to_string(), "b".to_string(), 1);
        let step = session.step(Outcome::Replied(response_json()));
        let step = step.session.step(outcome);
        assert_eq!(step.session.state(), &State::Notified(state_value()));
        assert_eq!(step.action, Action::Logout(Body::Logout { access_token: "tok-1".to_string() }));
        assert_eq!(step.fault, None);
        assert!(!step.session.is_over());
    }
}

#[test]
fn a_failed_delivery_is_recorded_and_the_logout_comes_all_the_same() {
    let (session, _) = Session::start("a".to_string(), "b".to_string(), 1);
    let step = session.step(Outcome::Replied(response_json()));
    let step = step.session.step(Outcome::Failed);
    assert_eq!(step.session.state(), &State::Notified(state_value()));
    assert_eq!(step.action, Action::Logout(Body::Logout { access_token: "tok-1".to_string() }));
    assert_eq!(step.fault, Some(Fault::Delivery));
}

#[test]
fn after_the_logout_the_run_is_over() {
    for (outcome, fault) in [
        (Outcome::Done, None),
        (Outcome::Replied(response_json()), None),
        (Outcome::Failed, Some(Fault::LogoutTransport)),
    ] {
        let (session, _) = Session::start("a".to_string(), "b".to_string(), 1);
        let step = session.step(Outcome::Replied(response_json()));
        let step = step.session.step(Outcome::Done);
        let step = step.session.step(outcome);
        assert_eq!(step.session.state(), &State::LoggedOut);
        assert_eq!(step.action, Action::Stop);
        assert_eq!(step.fault, fault);
        assert!(step.session.is_over());
    }
}

#[test]
fn a_run_that_is_over_stays_over() {
    let (session, _) = Session::start("a".to_string(), "b".to_string(), 1);
    let mut step = session.step(Outcome::Failed);
    for outcome in [Outcome::Replied(response_json()), Outcome::Done, Outcome::Failed] {
        step = step.session.step(outcome);
        assert_eq!(step.session.state(), &State::Failed);
        assert_eq!(step.action, Action::Stop);
        assert_eq!(step.fault, None);
    }
    let (session, _) = Session::start("a".to_string(), "b".to_string(), 1);
    let step = session.step(Outcome::Replied(response_json()));
    let step = step.session.step(Outcome::Done);
    let mut step = step.session.step(Outcome::Done);
    for outcome in [Outcome::Replied(response_json()), Outcome::Done, Outcome::Failed] {
        step = step.session.step(outcome);
        assert_eq!(step.session.state(), &State::LoggedOut);
        assert_eq!(step.action, Action::Stop);
        assert_eq!(step.fault, None);
    }
}

#[test]
fn a_whole_run_makes_each_call_once() {
    let mut double = Double::new(Some(response_json()));
    let session = double.run("a@example.com", "s3cret", 42);
    assert_eq!(session.state(), &State::LoggedOut);
    assert_eq!(
        double.logins,
        vec![Body::Login {
            email: "a@example.com".to_string(),
            passwd: "s3cret".to_string(),
            token_expire: 1,
        }]
    );
    assert_eq!(double.deliveries, vec![(42, REPORT.to_string())]);
    assert_eq!(double.logouts, vec![Body::Logout { access_token: "tok-1".to_string() }]);
    assert_eq!(double.faults, vec![]);
}

#[test]
fn without_a_state_neither_the_chat_nor_the_logout_is_called() {
    let mut double = Double::new(Some(broken_response_json()));
    let session = double.run("a@example.com", "wrong", 42);
    assert_eq!(session.state(), &State::Failed);
    assert_eq!(double.logins.len(), 1);
    assert_eq!(double.deliveries.len(), 0);
    assert_eq!(double.logouts.len(), 0);
    assert_eq!(double.faults, vec![Fault::LoginDecode]);

    let mut double = Double::new(Some(response_json()));
    double.login_fails = true;
    let session = double.run("a@example.com", "s3cret", 42);
    assert_eq!(session.state(), &State::Failed);
    assert_eq!(double.logins.len(), 1);
    assert_eq!(double.deliveries.len(), 0);
    assert_eq!(double.logouts.len(), 0);
    assert_eq!(double.faults, vec![Fault::LoginTransport]);

    let mut double = Double::new(None);
    let session = double.run("a@example.com", "s3cret", 42);
    assert_eq!(session.state(), &State::Failed);
    assert_eq!(double.deliveries.len(), 0);
    assert_eq!(double.logouts.len(), 0);
    assert_eq!(double.faults, vec![Fault::LoginDecode]);
}

#[test]
fn when_the_delivery_fails_the_logout_is_still_called_once() {
    let mut double = Double::new(Some(response_json()));
    double.delivery_fails = true;
    let session = double.run("a@example.com", "s3cret", 42);
    assert_eq!(session.state(), &State::LoggedOut);
    assert_eq!(double.deliveries.len(), 1);
    assert_eq!(double.logouts, vec![Body::from(&state_value())]);
    assert_eq!(double.logouts, vec![Body::Logout { access_token: "tok-1".to_string() }]);
    assert_eq!(double.faults, vec![Fault::Delivery]);
}

#[test]
fn a_failed_logout_is_recorded_and_ends_the_run_all_the_same() {
    let mut double = Double::new(Some(response_json()));
    double.logout_fails = true;
    let session = double.run("a@example.com", "s3cret", 42);
    assert_eq!(session.state(), &State::LoggedOut);
    assert_eq!(double.deliveries.len(), 1);
    assert_eq!(double.logouts.len(), 1);
    assert_eq!(double.faults, vec![Fault::LogoutTransport]);
}

#[test]
fn delivery_and_logout_may_both_fail() {
    let mut double = Double::new(Some(response_json()));
    double.delivery_fails = true;
    double.logout_fails = true;
    let session = double.run("a@example.com", "s3cret", 42);
    assert_eq!(session.state(), &State::LoggedOut);
    assert_eq!(double.logins.len(), 1);
    assert_eq!(double.deliveries.len(), 1);
    assert_eq!(double.logouts.len(), 1);
    assert_eq!(double.faults, vec![Fault::Delivery, Fault::LogoutTransport]);
}

#[test]
fn login_state_reads_the_state_out_of_a_reply() {
    assert_eq!(login_state(Outcome::Replied(response_json())), Some(state_value()));
    assert_eq!(login_state(Outcome::Replied(broken_response_json())), None);
    assert_eq!(login_state(Outcome::Done), None);
    assert_eq!(login_state(Outcome::Failed), None);
}
