//! Rows of the credential and score store.

use vstd::prelude::*;

verus! {

/// A credential row: a unique user name and the hash of its password.
#[derive(Debug, PartialEq, Eq)]
pub struct Auth {
    pub id: i64,
    pub username: String,
    pub password: String,
}

/// A player row: the account's display name, colour and best score.
#[derive(Debug, PartialEq, Eq)]
pub struct Player {
    pub id: i64,
    pub auth_id: i64,
    pub nickname: String,
    pub color: i64,
    pub best_score: i64,
}

impl Clone for Auth {
    fn clone(&self) -> (a: Self)
        ensures
            a == *self,
    {
        Auth { id: self.id, username: self.username.clone(), password: self.password.clone() }
    }
}

impl Clone for Player {
    fn clone(&self) -> (p: Self)
        ensures
            p == *self,
    {
        Player {
            id: self.id,
            auth_id: self.auth_id,
            nickname: self.nickname.clone(),
            color: self.color,
            best_score: self.best_score,
        }
    }
}

} // verus!
