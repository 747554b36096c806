//! What the user repository writes.
use vstd::prelude::*;
use vstd::string::*;
use crate::api::handlers::user::CreateUserRequest;
use crate::domain::active_value::ActiveValue;
use crate::domain::users::ActiveModel;

verus! {

/// The token a new user is stored with: the one given, else the empty text.
pub open spec fn stored_token(token: Option<String>) -> Option<Seq<char>> {
    match token {
        Some(t) => Some(t@),
        None => Some(Seq::empty()),
    }
}

/// The row `create_user` inserts: the body's user name and password, its token
/// or else the empty text, and an id left to the database. The body must give
/// a user name and a password.
pub fn create_user_row(user: CreateUserRequest) -> (r: ActiveModel)
    requires
        user.user_name is Some,
        user.password is Some,
    ensures
        r.id is NotSet,
        r.username == ActiveValue::Assigned(user.user_name->0),
        r.password == ActiveValue::Assigned(user.password->0),
        r.token matches ActiveValue::Assigned(Some(t)) && Some(t@) == stored_token(user.token),
        user.token is Some ==> r.token == ActiveValue::Assigned(user.token),
{
    let token = match user.token {
        Some(t) => Some(t),
        None => Some(String::new()),
    };
    ActiveModel {
        id: ActiveValue::NotSet,
        username: ActiveValue::Assigned(user.user_name.unwrap()),
        password: ActiveValue::Assigned(user.password.unwrap()),
        token: ActiveValue::Assigned(token),
    }
}

} // verus!
