//! The two request handlers: each turns one request into one registry
//! operation and the result of that operation into a response.

use vstd::prelude::*;
use vstd::string::StringExecFns;
use crate::decimal::{decimal, decimal_string};
use crate::ids::next_id;
use crate::registry::{lookup, with_record, UserRegistry};
use crate::user::User;

verus! {

/// The status of a successful response.
pub const STATUS_OK: u16 = 200;

/// The status of a response that reports a new resource.
pub const STATUS_CREATED: u16 = 201;

/// The body that greets the user called `name`.
pub open spec fn greeting(name: Seq<char>) -> Seq<char> {
    "Hello, "@ + name
}

/// The body that reports that no record is stored under `id`.
pub open spec fn not_found_message(id: u32) -> Seq<char> {
    "User with id "@ + decimal(id as nat) + " not found"@
}

/// The body of the answer to a lookup of `id` in `entries`.
pub open spec fn greet_body(entries: Map<u32, Seq<char>>, id: u32) -> Seq<char> {
    match lookup(entries, id) {
        Some(name) => greeting(name),
        None => not_found_message(id),
    }
}

/// The answer to a lookup: a status and a plain-text body.
#[derive(Debug, PartialEq, Eq)]
pub struct GreetResponse {
    pub status: u16,
    pub body: String,
}

/// The body of the answer to a creation: the identifier that the record
/// got, and the name that was stored.
#[derive(Debug, PartialEq, Eq)]
pub struct CreateUserResponse {
    pub id: u32,
    pub name: String,
}

/// The answer to a creation: a status and a structured body.
#[derive(Debug, PartialEq, Eq)]
pub struct CreatedResponse {
    pub status: u16,
    pub body: CreateUserResponse,
}

/// Looks `userid` up and greets the user found. A miss is no failure: the
/// status is the same, and the body says that nothing was found.
pub fn greet(userid: u32, db: &UserRegistry) -> (response: GreetResponse)
    ensures
        response.status == STATUS_OK,
        response.body@ == greet_body(db@, userid),
{
    let body = match db.get(userid) {
        Some(user) => {
            let mut body = String::from_str("Hello, ");
            body.append(user.name.as_str());
            body
        },
        None => {
            let mut body = String::from_str("User with id ");
            body.append(decimal_string(userid).as_str());
            body.append(" not found");
            body
        },
    };
    GreetResponse { status: STATUS_OK, body }
}

/// Stores `user_data` as a new record and reports the identifier it got
/// together with the stored name. The name is taken as it is.
pub fn create_user(user_data: User, db: &mut UserRegistry) -> (response: CreatedResponse)
    requires
        old(db)@.len() < u32::MAX,
    ensures
        response.status == STATUS_CREATED,
        response.body.id == next_id(old(db)@.dom()),
        response.body.id == old(db)@.len() + 1,
        response.body.name@ == user_data@,
        final(db)@ == with_record(old(db)@, user_data@),
{
    let name = user_data.name.clone();
    let id = db.insert(user_data);
    CreatedResponse { status: STATUS_CREATED, body: CreateUserResponse { id, name } }
}

} // verus!
