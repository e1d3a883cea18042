//! The signed-in user's identity and access token.

use vstd::prelude::*;
use vstd::string::*;
use crate::download::ErrorKind;

verus! {

/// What a successful login returns.
#[derive(Clone, Debug)]
pub struct LoginResp {
    pub jwt: String,
    pub id: String,
    pub privileges: String,
}

/// The stored credentials; either may be absent before the first login.
#[derive(Clone, Debug)]
pub struct Settings {
    pub uid: Option<String>,
    pub token: Option<String>,
}

pub open spec fn text_of(o: Option<String>) -> Option<Seq<char>> {
    match o {
        Some(s) => Some(s@),
        None => None,
    }
}

pub open spec fn str_text_of(o: Option<&str>) -> Option<Seq<char>> {
    match o {
        Some(s) => Some(s@),
        None => None,
    }
}

impl Settings {
    pub fn new() -> (r: Self)
        ensures
            r.uid is None,
            r.token is None,
    {
        Settings { uid: None, token: None }
    }

    pub fn set_token(&mut self, token: &str)
        ensures
            text_of(final(self).token) == Some(token@),
            final(self).uid == old(self).uid,
    {
        self.token = Some(String::from_str(token));
    }

    pub fn get_token(&self) -> (r: Option<&str>)
        ensures
            str_text_of(r) == text_of(self.token),
    {
        match &self.token {
            Some(t) => Some(t.as_str()),
            None => None,
        }
    }

    pub fn set_uid(&mut self, uid: &str)
        ensures
            text_of(final(self).uid) == Some(uid@),
            final(self).token == old(self).token,
    {
        self.uid = Some(String::from_str(uid));
    }

    pub fn get_uid(&self) -> (r: Option<&str>)
        ensures
            str_text_of(r) == text_of(self.uid),
    {
        match &self.uid {
            Some(u) => Some(u.as_str()),
            None => None,
        }
    }

    /// Keeps the token and user ID of a successful login.
    pub fn apply_login(&mut self, resp: &LoginResp)
        ensures
            text_of(final(self).token) == Some(resp.jwt@),
            text_of(final(self).uid) == Some(resp.id@),
    {
        self.set_token(resp.jwt.as_str());
        self.set_uid(resp.id.as_str());
    }

    /// The token, or `Auth` when there is none: without it no request is made.
    pub fn require_token(&self) -> (r: Result<String, ErrorKind>)
        ensures
            self.token is None <==> r == Err::<String, ErrorKind>(ErrorKind::Auth),
            r is Ok ==> Some(r->Ok_0@) == text_of(self.token),
    {
        match &self.token {
            Some(t) => Ok(t.clone()),
            None => Err(ErrorKind::Auth),
        }
    }

    /// The user ID, or `Auth` when there is none.
    pub fn require_uid(&self) -> (r: Result<String, ErrorKind>)
        ensures
            self.uid is None <==> r == Err::<String, ErrorKind>(ErrorKind::Auth),
            r is Ok ==> Some(r->Ok_0@) == text_of(self.uid),
    {
        match &self.uid {
            Some(u) => Ok(u.clone()),
            None => Err(ErrorKind::Auth),
        }
    }
}

} // verus!
