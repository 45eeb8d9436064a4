//! The small closed sets that records and tokens are tagged with.

use crate::helpers::text::same_text;
use vstd::prelude::*;

verus! {

/// Whether a user's account is in use.
#[derive(Clone, Debug, PartialEq, Eq)]
pub enum UserStatus {
    Active,
    Inactive,
}

impl Default for UserStatus {
    /// A new user is active.
    fn default() -> (r: Self)
        ensures
            r == UserStatus::Active,
    {
        UserStatus::Active
    }
}

/// A user's gender, as the user states it.
#[derive(Clone, Debug, PartialEq, Eq)]
pub enum Gender {
    Male,
    Female,
    Other,
}

/// The outside party, if any, that vouched for a sign-in.
#[derive(Clone, Debug, PartialEq, Eq)]
pub enum OAuthType {
    Google,
    Facebook,
    /// The user signed in with no outside party.
    Direct,
}

/// What a session token is good for.
#[derive(Clone, Debug, PartialEq, Eq)]
pub enum JwtTokenType {
    Access,
    Refresh,
}

impl JwtTokenType {
    /// The word that stands for this kind inside a token's claims.
    pub open spec fn wire_name(self) -> Seq<char> {
        match self {
            JwtTokenType::Access => "Access"@,
            JwtTokenType::Refresh => "Refresh"@,
        }
    }

    /// The kind that a word in a token's claims stands for, if any.
    pub open spec fn parse(name: Seq<char>) -> Option<JwtTokenType> {
        if name == "Access"@ {
            Some(JwtTokenType::Access)
        } else if name == "Refresh"@ {
            Some(JwtTokenType::Refresh)
        } else {
            None
        }
    }

    /// The word that stands for this kind inside a token's claims.
    pub fn name(&self) -> (r: &'static str)
        ensures
            r@ == self.wire_name(),
    {
        match self {
            JwtTokenType::Access => "Access",
            JwtTokenType::Refresh => "Refresh",
        }
    }

    /// Reads a kind from the word that stands for it. Any other word gives
    /// nothing.
    pub fn from_name(name: &str) -> (r: Option<JwtTokenType>)
        ensures
            r == JwtTokenType::parse(name@),
    {
        if same_text(name, "Access") {
            Some(JwtTokenType::Access)
        } else if same_text(name, "Refresh") {
            Some(JwtTokenType::Refresh)
        } else {
            None
        }
    }

    /// Reading back the word of a kind gives that kind.
    pub proof fn parse_inverts_wire_name(kind: JwtTokenType)
        ensures
            JwtTokenType::parse(kind.wire_name()) == Some(kind),
    {
        reveal_strlit("Access");
        reveal_strlit("Refresh");
        assert("Access"@.len() == 6);
        assert("Refresh"@.len() == 7);
    }
}

impl Default for JwtTokenType {
    /// A token is an access token unless it says otherwise.
    fn default() -> (r: Self)
        ensures
            r == JwtTokenType::Access,
    {
        JwtTokenType::Access
    }
}

} // verus!
