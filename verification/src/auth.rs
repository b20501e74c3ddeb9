//! Logging in to the service.

use vstd::prelude::*;

use crate::decode::{
    missing, push_member, read_text, required_text, with, DecodeError, DecodeFailure, Expected,
};
use crate::json::{find_member, lemma_object_view, members_view, Json, JsonValue, Member};

verus! {

/// What a user logs in with.
#[derive(Clone, Debug, PartialEq, Eq)]
pub struct LoginParams {
    pub email: String,
    pub password: String,
}

/// What the service answers to a login.
#[derive(Clone, Debug, PartialEq, Eq)]
pub struct LoginResponse {
    pub token: String,
}

/// The JSON object of a login: `email` and `password`.
pub open spec fn login_json(email: Seq<char>, password: Seq<char>) -> JsonValue {
    JsonValue::Object(
        with(
            with(Seq::empty(), "email"@, JsonValue::Text(email)),
            "password"@,
            JsonValue::Text(password),
        ),
    )
}

/// The token that the answer to a login holds: the string under `token` of
/// an object.
pub open spec fn token_of(value: JsonValue) -> Result<Seq<char>, DecodeFailure> {
    match value {
        JsonValue::Object(m) => required_text(m, "token"@),
        _ => Err(DecodeFailure::Unexpected { expected: Expected::Object }),
    }
}

impl LoginParams {
    /// Encodes the login as a JSON object.
    pub fn to_json(&self) -> (out: Json)
        ensures
            out@ == login_json(self.email@, self.password@),
    {
        let mut members: Vec<Member> = Vec::new();
        assert(members_view(members@) =~= Seq::empty());
        push_member(&mut members, "email", Json::Text(self.email.clone()));
        push_member(&mut members, "password", Json::Text(self.password.clone()));
        proof {
            lemma_object_view(members);
        }
        Json::Object(members)
    }
}

impl LoginResponse {
    /// Decodes the answer to a login.
    pub fn from_json(value: &Json) -> (out: Result<LoginResponse, DecodeError>)
        ensures
            match out {
                Ok(r) => token_of(value@) == Ok::<Seq<char>, DecodeFailure>(r.token@),
                Err(e) => token_of(value@) == Err::<Seq<char>, DecodeFailure>(e@),
            },
    {
        match value {
            Json::Object(members) => {
                proof {
                    lemma_object_view(*members);
                }
                match find_member(members, "token") {
                    Some(v) => match read_text(v) {
                        Ok(token) => Ok(LoginResponse { token }),
                        Err(e) => Err(e),
                    },
                    None => Err(missing("token")),
                }
            },
            _ => Err(DecodeError::Unexpected { expected: Expected::Object }),
        }
    }
}

} // verus!
