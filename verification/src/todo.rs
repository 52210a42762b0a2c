//! The sample to-do list: entries are looked up by id and created with a
//! fresh random version-4 UUID; nothing is stored. Ids are held as the 128-bit
//! numbers of their UUIDs.
use vstd::prelude::*;

use uuid::Uuid;

verus! {

broadcast use vstd::string::group_string_axioms;

/// What a client sends to create a to-do entry.
#[derive(Debug)]
pub struct NewTodo {
    pub title: String,
    pub description: Option<String>,
}

/// A to-do entry.
#[derive(Debug)]
pub struct Todo {
    /// The UUID of the entry, as its 128-bit number.
    pub id: u128,
    pub title: String,
    pub description: Option<String>,
}

/// Whether `id` is the number of a random (version 4, RFC 4122 variant)
/// UUID: the version field holds 4 and the variant bits are `10`.
pub open spec fn is_v4_uuid(id: u128) -> bool {
    &&& (id >> 76u128) & 0xf == 4
    &&& (id >> 62u128) & 0x3 == 2
}

/// Calls `uuid::Uuid::new_v4` and hands back the UUID's number
/// (`Uuid::as_u128`). `new_v4` draws random bits, then sets the version field
/// to 4 and the variant bits to `10`; that is all that is claimed.
#[verifier::external_body]
fn fresh_uuid() -> (id: u128)
    ensures
        is_v4_uuid(id),
{
    Uuid::new_v4().as_u128()
}

/// The entry with id `todo_id`: no entries are stored, so every id answers
/// the same sample entry under that id.
pub fn get_todo(todo_id: u128) -> (todo: Todo)
    ensures
        todo.id == todo_id,
        todo.title@ == "some title"@,
        todo.description is None,
{
    Todo { id: todo_id, title: "some title".to_owned(), description: None }
}

/// Creates the entry that `req` describes under a fresh random version-4
/// UUID.
pub fn add_todo(req: NewTodo) -> (todo: Todo)
    ensures
        is_v4_uuid(todo.id),
        todo.title == req.title,
        todo.description == req.description,
{
    let new_todo = req;
    Todo { id: fresh_uuid(), title: new_todo.title, description: new_todo.description }
}

} // verus!
