//! A bot that looks up the state of a Dler Cloud account and reports it to a
//! Telegram chat, once for each time it is run.
//!
//! This crate holds what such a run decides: what is sent to the service, what
//! is taken from its answer, how the report reads, and which call follows
//! which. The calls themselves, to the service and to the chat, are left to
//! the program around it.

use crate::dler::account::AccountView;
use crate::dler::session::{opening, Action, ActionView, Session};
use crate::dler::wire::login_body;
use vstd::prelude::*;

pub mod dler;

verus! {

/// What the command line gives: the bot's token, if any, and the job to do.
#[derive(Debug, PartialEq, Eq)]
pub struct Args {
    pub token: Option<String>,
    pub command: Commands,
}

/// The jobs that the program knows.
#[derive(Debug, PartialEq, Eq)]
pub enum Commands {
    /// Report the state of one Dler Cloud account to one chat.
    Dler { email: String, password: String, chat: i64 },
}

/// What a run begins with: the token that the bot speaks with, the run
/// itself, and the first call that it asks for.
#[derive(Debug, PartialEq, Eq)]
pub struct Launch {
    pub token: String,
    pub session: Session,
    pub first: Action,
}

impl Commands {
    /// Begins the run that does the job: for an account, its first call is the
    /// login with the account's credentials.
    pub fn start(self) -> (begun: (Session, Action))
        ensures
            begun.0@ == opening(self->chat as int),
            begun.1@ == ActionView::Login(
                login_body(AccountView { email: self->email@, password: self->password@ }),
            ),
    {
        match self {
            Commands::Dler { email, password, chat } => Session::start(email, password, chat),
        }
    }
}

impl Args {
    /// Decides whether there is anything to run. Without a token there is no
    /// bot to speak through, and nothing is begun; with one, the job is.
    pub fn launch(self) -> (launch: Option<Launch>)
        ensures
            match launch {
                None => self.token is None,
                Some(launch) => {
                    &&& self.token == Some(launch.token)
                    &&& launch.session@ == opening(self.command->chat as int)
                    &&& launch.first@ == ActionView::Login(
                        login_body(
                            AccountView {
                                email: self.command->email@,
                                password: self.command->password@,
                            },
                        ),
                    )
                },
            },
    {
        match self.token {
            Some(token) => {
                let (session, first) = self.command.start();
                Some(Launch { token, session, first })
            },
            None => None,
        }
    }
}

} // verus!
