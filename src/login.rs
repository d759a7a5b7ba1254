use vstd::prelude::*;

use crate::credentials::Credentials;
use crate::error::ClientError;
use crate::token::{extract_token, extraction_of, EXECUTION_FIELD};

verus! {

/// Where one login attempt stands.
#[derive(Clone, Copy, Debug, PartialEq, Eq, Structural)]
pub enum LoginState {
    Unauthenticated,
    TokenFetched,
    Submitted,
    Authenticated,
    Failed(ClientError),
}

/// The form fields sent with the credentials, as (name, value) pairs.
pub open spec fn form_of(username: Seq<char>, password: Seq<char>, token: Seq<char>) -> Seq<(Seq<char>, Seq<char>)> {
    seq![
        ("username"@, username),
        ("password"@, password),
        (EXECUTION_FIELD@, token),
        ("_eventId"@, "submit"@),
        ("geolocation"@, ""@),
    ]
}

/// The mathematical form of a list of form fields.
pub open spec fn fields_view(fields: Seq<(String, String)>) -> Seq<(Seq<char>, Seq<char>)> {
    fields.map_values(|f: (String, String)| (f.0@, f.1@))
}

/// One login attempt: fetch the login page, read its token, submit the
/// credentials with it. Success is only known from the submission going
/// through; the server's answer carries no verdict.
pub struct LoginFlow {
    state: LoginState,
    token: String,
}

impl LoginFlow {
    pub closed spec fn spec_state(&self) -> LoginState {
        self.state
    }

    /// The token read from the page, meaningful from `TokenFetched` on.
    pub closed spec fn spec_token(&self) -> Seq<char> {
        self.token@
    }

    pub fn new() -> (r: LoginFlow)
        ensures
            r.spec_state() == LoginState::Unauthenticated,
    {
        LoginFlow { state: LoginState::Unauthenticated, token: String::new() }
    }

    pub fn state(&self) -> (r: LoginState)
        ensures
            r == self.spec_state(),
    {
        self.state
    }

    /// Takes the login page, or `None` when it could not be fetched, and
    /// reads the token from it. Outside `Unauthenticated` nothing changes.
    pub fn on_login_page(&mut self, page: Option<&str>)
        ensures
            old(self).spec_state() != LoginState::Unauthenticated ==> *final(self) == *old(self),
            old(self).spec_state() == LoginState::Unauthenticated ==> match page {
                None => final(self).spec_state() == LoginState::Failed(ClientError::Network),
                Some(html) => match extraction_of(html@, EXECUTION_FIELD) {
                    Ok(v) => final(self).spec_state() == LoginState::TokenFetched
                        && final(self).spec_token() == v,
                    Err(e) => final(self).spec_state() == LoginState::Failed(e),
                },
            },
    {
        if self.state != LoginState::Unauthenticated {
            return;
        }
        match page {
            None => {
                self.state = LoginState::Failed(ClientError::Network);
            },
            Some(html) => match extract_token(html) {
                Ok(token) => {
                    self.token = token;
                    self.state = LoginState::TokenFetched;
                },
                Err(e) => {
                    self.state = LoginState::Failed(e);
                },
            },
        }
    }

    /// In `TokenFetched`, hands out the form to submit and moves to
    /// `Submitted`; in any other state returns `None` and changes nothing.
    pub fn submission_form(&mut self, credentials: &Credentials) -> (r: Option<Vec<(String, String)>>)
        ensures
            old(self).spec_state() == LoginState::TokenFetched ==> {
                &&& r matches Some(form)
                &&& fields_view(form@) == form_of(credentials@.0, credentials@.1, old(self).spec_token())
                &&& final(self).spec_state() == LoginState::Submitted
                &&& final(self).spec_token() == old(self).spec_token()
            },
            old(self).spec_state() != LoginState::TokenFetched ==> r is None && *final(self) == *old(self),
    {
        if self.state != LoginState::TokenFetched {
            return None;
        }
        let form = vec![
            ("username".to_owned(), credentials.username().to_owned()),
            ("password".to_owned(), credentials.password().to_owned()),
            (EXECUTION_FIELD.to_owned(), self.token.clone()),
            ("_eventId".to_owned(), "submit".to_owned()),
            ("geolocation".to_owned(), "".to_owned()),
        ];
        self.state = LoginState::Submitted;
        assert(fields_view(form@) =~= form_of(credentials@.0, credentials@.1, self.token@));
        Some(form)
    }

    /// Records whether the submission went through. In `Submitted` the flow
    /// ends in `Authenticated`, or in `AuthSubmission` on a transport failure;
    /// elsewhere nothing changes.
    pub fn on_submitted(&mut self, sent: bool)
        ensures
            old(self).spec_state() == LoginState::Submitted ==> final(self).spec_state() == if sent {
                LoginState::Authenticated
            } else {
                LoginState::Failed(ClientError::AuthSubmission)
            },
            old(self).spec_state() != LoginState::Submitted ==> *final(self) == *old(self),
    {
        if self.state == LoginState::Submitted {
            self.state = if sent {
                LoginState::Authenticated
            } else {
                LoginState::Failed(ClientError::AuthSubmission)
            };
        }
    }

    /// The result once the flow has ended, `None` while it runs.
    pub fn outcome(&self) -> (r: Option<Result<(), ClientError>>)
        ensures
            r == match self.spec_state() {
                LoginState::Authenticated => Some(Ok::<(), ClientError>(())),
                LoginState::Failed(e) => Some(Err::<(), ClientError>(e)),
                _ => None::<Result<(), ClientError>>,
            },
    {
        match self.state {
            LoginState::Authenticated => Some(Ok(())),
            LoginState::Failed(e) => Some(Err(e)),
            _ => None,
        }
    }
}

} // verus!
