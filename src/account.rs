//! The signed-in user, their tokens and their teams.

use vstd::prelude::*;
use crate::text::same_text;

verus! {

/// The lower-case form of a text, as the standard library computes it.
pub uninterp spec fn lower_of(s: Seq<char>) -> Seq<char>;

/// Relies on `str::to_lowercase`: the result depends on the characters alone.
#[verifier::external_body]
fn lowercase(s: &str) -> (r: String)
    ensures
        r@ == lower_of(s@),
{
    s.to_lowercase()
}

/// Whether an already lower-cased token type names bearer tokens.
pub fn is_bearer(lowered: &str) -> (r: bool)
    ensures
        r == (lowered@ == "bearer"@),
{
    same_text(lowered, "bearer")
}

/// A failure while reading, checking or renewing the user's tokens.
#[derive(Debug, Clone, PartialEq, Eq)]
pub enum AuthTokenError {
    NoAuthTokens,
    NoRefreshToken,
    DecodeFailed(String),
    AlreadyExpired,
    HttpFailed(String),
    InvalidResponse(String),
}

impl AuthTokenError {
    /// The text shown for this failure.
    pub fn message(&self) -> (r: String)
        ensures
            match self {
                AuthTokenError::NoAuthTokens => r@ == "Missing auth tokens"@,
                AuthTokenError::NoRefreshToken => r@ == "Missing refresh token"@,
                AuthTokenError::DecodeFailed(m) => r@ == "JWT decode failed: "@ + m@,
                AuthTokenError::AlreadyExpired => r@ == "Token already expired"@,
                AuthTokenError::HttpFailed(m) => r@ == "Refresh request failed: "@ + m@,
                AuthTokenError::InvalidResponse(m) => r@ == "Invalid refresh response: "@ + m@,
            },
    {
        match self {
            AuthTokenError::NoAuthTokens => String::from_str("Missing auth tokens"),
            AuthTokenError::NoRefreshToken => String::from_str("Missing refresh token"),
            AuthTokenError::DecodeFailed(m) => {
                let mut r = String::from_str("JWT decode failed: ");
                r.append(m.as_str());
                r
            },
            AuthTokenError::AlreadyExpired => String::from_str("Token already expired"),
            AuthTokenError::HttpFailed(m) => {
                let mut r = String::from_str("Refresh request failed: ");
                r.append(m.as_str());
                r
            },
            AuthTokenError::InvalidResponse(m) => {
                let mut r = String::from_str("Invalid refresh response: ");
                r.append(m.as_str());
                r
            },
        }
    }
}

/// The tokens that the sign-in service handed out.
#[derive(Debug, Clone)]
pub struct AuthTokens {
    pub access_token: String,
    pub id_token: String,
    pub token_type: String,
    pub refresh_token: Option<String>,
}

impl AuthTokens {
    /// The token granting access to the service.
    pub fn access_token(&self) -> (r: &str)
        ensures
            r@ == self.access_token@,
    {
        self.access_token.as_str()
    }

    /// The token naming the user, sent with each request.
    pub fn id_token(&self) -> (r: &str)
        ensures
            r@ == self.id_token@,
    {
        self.id_token.as_str()
    }

    /// The kind of the tokens, as the service named it.
    pub fn token_type(&self) -> (r: &str)
        ensures
            r@ == self.token_type@,
    {
        self.token_type.as_str()
    }

    /// Whether the tokens are bearer tokens, whatever the letter case.
    pub fn is_valid_token_type(&self) -> (r: bool)
        ensures
            r == (lower_of(self.token_type@) == "bearer"@),
    {
        let lowered = lowercase(self.token_type.as_str());
        is_bearer(lowered.as_str())
    }

    /// Whether tokens whose identity claims expire at `expires_secs` are renewed at
    /// `now_secs` (both in seconds since the epoch) when renewal is due
    /// `threshold_secs` before expiry; claims without an expiry count as expired.
    pub fn needs_refresh(expires_secs: Option<u64>, now_secs: u64, threshold_secs: u64) -> (r: Result<bool, AuthTokenError>)
        ensures
            match expires_secs {
                None => r == Err::<bool, AuthTokenError>(AuthTokenError::AlreadyExpired),
                Some(e) => r == Ok::<bool, AuthTokenError>(now_secs + threshold_secs >= e),
            },
    {
        match expires_secs {
            None => Err(AuthTokenError::AlreadyExpired),
            Some(e) => Ok(now_secs >= e || threshold_secs >= e - now_secs),
        }
    }
}

/// A user of the service.
#[derive(Debug, Clone)]
pub struct User {
    pub id: u8,
    pub username: String,
    pub email: String,
    pub created_at: String,
    pub updated_at: String,
}

impl User {
    /// The user's number.
    pub fn id(&self) -> (r: &u8)
        ensures
            *r == self.id,
    {
        &self.id
    }

    /// The user's name.
    pub fn username(&self) -> (r: &str)
        ensures
            r@ == self.username@,
    {
        self.username.as_str()
    }

    /// The user's mail address.
    pub fn email(&self) -> (r: &str)
        ensures
            r@ == self.email@,
    {
        self.email.as_str()
    }
}

/// A team that the user belongs to.
#[derive(Debug, Clone)]
pub struct Team {
    pub id: u8,
    pub name: String,
    pub slug: String,
    pub variant: String,
}

impl Team {
    /// The text that shows the team: its name.
    pub fn label(&self) -> (r: String)
        ensures
            r@ == self.name@,
    {
        self.name.clone()
    }
}

/// How a team is offered for choice: its name, marked when it is the current one.
pub open spec fn team_choice(t: Team, current: Option<u8>) -> Seq<char> {
    if current == Some(t.id) {
        t.name@ + " (current)"@
    } else {
        t.name@
    }
}

/// The choice offered for each of `teams`, in order, where `current` is the
/// number of the team picked before.
pub fn team_choices(teams: &Vec<Team>, current: Option<u8>) -> (r: Vec<String>)
    ensures
        r@.len() == teams@.len(),
        forall|i: int| 0 <= i < r@.len() ==> (#[trigger] r@[i])@ == team_choice(teams@[i], current),
{
    let mut r: Vec<String> = Vec::new();
    let n = teams.len();
    let mut i: usize = 0;
    while i < n
        invariant
            n == teams@.len(),
            i <= n,
            r@.len() == i,
            forall|j: int| 0 <= j < i ==> (#[trigger] r@[j])@ == team_choice(teams@[j], current),
        decreases n - i,
    {
        let t = &teams[i];
        let mut label = t.label();
        let is_current = match current {
            Some(c) => c == t.id,
            None => false,
        };
        if is_current {
            label.append(" (current)");
        }
        r.push(label);
        i = i + 1;
    }
    r
}

/// The position of the first of `options` that reads `selected`.
pub fn choice_index(options: &Vec<String>, selected: &str) -> (r: Option<usize>)
    ensures
        match r {
            Some(i) => i < options@.len() && options@[i as int]@ == selected@ && forall|j: int|
                0 <= j < i ==> (#[trigger] options@[j])@ != selected@,
            None => forall|j: int| 0 <= j < options@.len() ==> (#[trigger] options@[j])@ != selected@,
        },
{
    let n = options.len();
    let mut i: usize = 0;
    while i < n
        invariant
            n == options@.len(),
            i <= n,
            forall|j: int| 0 <= j < i ==> (#[trigger] options@[j])@ != selected@,
        decreases n - i,
    {
        if same_text(options[i].as_str(), selected) {
            return Some(i);
        }
        i = i + 1;
    }
    None
}

} // verus!
