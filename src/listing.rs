use vstd::prelude::*;

use crate::record::{copy_opt_text, opt_text, User, UserView};

verus! {

/// The public projection of a user: its key and todos are left out.
#[derive(Clone, Debug)]
pub struct UserJson {
    pub name: String,
    pub email: String,
    pub moto: Option<String>,
}

/// The answer of the users listing: the projected rows, or an error object.
#[derive(Clone, Debug)]
pub enum UsersResponse {
    Users(Vec<UserJson>),
    Failure { error: String, details: String },
}

pub open spec fn projects(j: UserJson, u: UserView) -> bool {
    j.name@ == u.name && j.email@ == u.email && opt_text(j.moto) == u.moto
}

pub open spec fn failure_text() -> Seq<char> {
    "could not get users"@
}

/// Projects a user onto its name, email and motto.
pub fn project_user(u: &User) -> (r: UserJson)
    ensures
        projects(r, u@),
{
    UserJson { name: u.name.clone(), email: u.email.clone(), moto: copy_opt_text(&u.moto) }
}

/// Turns the outcome of listing the users into the listing's answer: each user projected,
/// in order, or the failure message together with the error's text.
pub fn users_response(result: Result<Vec<User>, String>) -> (r: UsersResponse)
    ensures
        match result {
            Ok(users) => match r {
                UsersResponse::Users(js) => js@.len() == users@.len() && forall|i: int|
                    0 <= i < users@.len() ==> projects(#[trigger] js@[i], users@[i]@),
                UsersResponse::Failure { .. } => false,
            },
            Err(msg) => match r {
                UsersResponse::Users(_) => false,
                UsersResponse::Failure { error, details } => error@ == failure_text()
                    && details@ == msg@,
            },
        },
{
    match result {
        Ok(users) => {
            let mut js: Vec<UserJson> = Vec::new();
            let mut i: usize = 0;
            while i < users.len()
                invariant
                    i <= users@.len(),
                    js@.len() == i,
                    forall|k: int| 0 <= k < i ==> projects(#[trigger] js@[k], users@[k]@),
                decreases users@.len() - i,
            {
                js.push(project_user(&users[i]));
                i = i + 1;
            }
            UsersResponse::Users(js)
        },
        Err(msg) => UsersResponse::Failure { error: "could not get users".to_string(), details: msg },
    }
}

} // verus!
