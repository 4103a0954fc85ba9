//! What the persistence store makes of the answers of its database.
//!
//! The connection lives with the caller. For each operation the caller
//! sends the query, and hands the database's answer to the method of the
//! same name here, which turns it into the result of the operation. The
//! two operations that write a password first pass through here, where the
//! password is hashed.

use crate::auth::{hash_password, verification, AuthFailure};
use crate::model::{Post, User};
use vstd::prelude::*;
use vstd::string::StringExecFns;

verus! {

/// Why an operation of the store failed.
#[derive(Debug, PartialEq, Eq)]
pub enum StoreError {
    /// The record that was asked for does not exist.
    NotFound { message: String },
    /// The password could not be hashed.
    HashingFailure,
    /// The database did not do what it was asked to.
    Backend { message: String },
}

/// Mathematical value of a [`StoreError`].
pub enum StoreErrorView {
    NotFound { message: Seq<char> },
    HashingFailure,
    Backend { message: Seq<char> },
}

impl View for StoreError {
    type V = StoreErrorView;

    open spec fn view(&self) -> StoreErrorView {
        match *self {
            StoreError::NotFound { message } => StoreErrorView::NotFound { message: message@ },
            StoreError::HashingFailure => StoreErrorView::HashingFailure,
            StoreError::Backend { message } => StoreErrorView::Backend { message: message@ },
        }
    }
}

impl Clone for StoreError {
    fn clone(&self) -> (r: Self)
        ensures
            r == *self,
    {
        match self {
            StoreError::NotFound { message } => StoreError::NotFound { message: message.clone() },
            StoreError::HashingFailure => StoreError::HashingFailure,
            StoreError::Backend { message } => StoreError::Backend { message: message.clone() },
        }
    }
}

/// The error for a record that is not there: `before`, then what was asked
/// for, then `after`.
pub open spec fn missing(before: Seq<char>, asked: Seq<char>, after: Seq<char>) -> StoreErrorView {
    StoreErrorView::NotFound { message: before + asked + after }
}

/// The error of a post that no id leads to.
pub open spec fn no_post_with_id(id: Seq<char>) -> StoreErrorView {
    missing("Record with id "@, id, " not found"@)
}

/// The error of a post that no title leads to.
pub open spec fn no_post_with_title(title: Seq<char>) -> StoreErrorView {
    missing("Post with title "@, title, " not found"@)
}

/// The error of a user that no id leads to.
pub open spec fn no_user_with_id(id: Seq<char>) -> StoreErrorView {
    missing("User with id "@, id, " not found"@)
}

/// The error of a user that no email leads to.
pub open spec fn no_user_with_email() -> StoreErrorView {
    StoreErrorView::NotFound { message: "User not found"@ }
}

/// The result of an operation on one record: the record where the database
/// gave one, and `absent` where it gave none.
pub open spec fn found_or<T>(record: Option<T>, absent: StoreErrorView) -> Result<T, StoreErrorView> {
    match record {
        Some(found) => Ok(found),
        None => Err(absent),
    }
}

/// The result of an operation by its value: a record as it is, an error by
/// its view.
pub open spec fn outcome<T>(r: Result<T, StoreError>) -> Result<T, StoreErrorView> {
    match r {
        Ok(found) => Ok(found),
        Err(e) => Err(e@),
    }
}

/// Builds the error for a record that is not there.
fn not_found(before: &str, asked: &str, after: &str) -> (r: StoreError)
    ensures
        r@ == missing(before@, asked@, after@),
{
    let message = String::from_str(before).concat(asked).concat(after);
    StoreError::NotFound { message }
}

/// The two tables of the store.
#[derive(Debug, PartialEq, Eq)]
pub struct Store {
    table: String,
    user_table: String,
}

impl Store {
    /// The table of the posts.
    pub closed spec fn posts(&self) -> Seq<char> {
        self.table@
    }

    /// The table of the users.
    pub closed spec fn users(&self) -> Seq<char> {
        self.user_table@
    }

    /// A store over the tables `posts` and `users`.
    pub fn new() -> (r: Store)
        ensures
            r.posts() == "posts"@,
            r.users() == "users"@,
    {
        Store { table: "posts".to_owned(), user_table: "users".to_owned() }
    }

    /// The name of the table of the posts.
    pub fn table(&self) -> (r: &str)
        ensures
            r@ == self.posts(),
    {
        self.table.as_str()
    }

    /// The name of the table of the users.
    pub fn user_table(&self) -> (r: &str)
        ensures
            r@ == self.users(),
    {
        self.user_table.as_str()
    }

    /// The post with the id `id`, from what the database gave for it.
    pub fn get_by_id(&self, id: String, record: Option<Post>) -> (r: Result<Post, StoreError>)
        ensures
            outcome(r) == found_or(record, no_post_with_id(id@)),
    {
        match record {
            Some(found) => Ok(found),
            None => Err(not_found("Record with id ", id.as_str(), " not found")),
        }
    }

    /// The post with the title `title`, from what the database gave for it.
    pub fn get_by_title(&self, title: String, record: Option<Post>) -> (r: Result<
        Post,
        StoreError,
    >)
        ensures
            outcome(r) == found_or(record, no_post_with_title(title@)),
    {
        match record {
            Some(found) => Ok(found),
            None => Err(not_found("Post with title ", title.as_str(), " not found")),
        }
    }

    /// The post under `id` after it was replaced, from what the database
    /// gave back for the write. No record means that there was none to
    /// replace.
    pub fn update_post(&self, id: String, record: Option<Post>) -> (r: Result<Post, StoreError>)
        ensures
            outcome(r) == found_or(record, no_post_with_id(id@)),
    {
        match record {
            Some(found) => Ok(found),
            None => Err(not_found("Record with id ", id.as_str(), " not found")),
        }
    }

    /// Whether the post under `id` was deleted, from what the database gave
    /// back for the deletion. No record means that there was none to
    /// delete.
    pub fn delete_post(&self, id: String, record: Option<Post>) -> (r: Result<(), StoreError>)
        ensures
            outcome(r) == found_or(
                match record {
                    Some(_) => Some(()),
                    None => None,
                },
                no_post_with_id(id@),
            ),
    {
        match record {
            Some(_) => Ok(()),
            None => Err(not_found("Record with id ", id.as_str(), " not found")),
        }
    }

    /// The record to store for a new user: `user` with the hash of its
    /// password in place of the password.
    pub fn add_user(&self, user: User) -> (r: Result<User, StoreError>)
        ensures
            hashed(user, r),
    {
        with_hashed_password(user)
    }

    /// The record to store for a user who changes the password: `new_user`
    /// with the hash of its password in place of the password.
    pub fn update_password(&self, new_user: User) -> (r: Result<User, StoreError>)
        ensures
            hashed(new_user, r),
    {
        with_hashed_password(new_user)
    }

    /// Whether the user under `id` was deleted, from what the database gave
    /// back for the deletion. No record means that there was none to
    /// delete.
    pub fn delete_user(&self, id: String, record: Option<User>) -> (r: Result<(), StoreError>)
        ensures
            outcome(r) == found_or(
                match record {
                    Some(_) => Some(()),
                    None => None,
                },
                no_user_with_id(id@),
            ),
    {
        match record {
            Some(_) => Ok(()),
            None => Err(not_found("User with id ", id.as_str(), " not found")),
        }
    }

    /// The user with the email `email`, from what the database gave for it.
    pub fn retrieve_user_by_email(&self, email: String, record: Option<User>) -> (r: Result<
        User,
        StoreError,
    >)
        ensures
            outcome(r) == found_or(record, no_user_with_email()),
    {
        match record {
            Some(found) => Ok(found),
            None => Err(StoreError::NotFound { message: "User not found".to_owned() }),
        }
    }

    /// The user with the id `id`, from what the database gave for it.
    pub fn get_user_by_id(&self, id: String, record: Option<User>) -> (r: Result<User, StoreError>)
        ensures
            outcome(r) == found_or(record, no_user_with_id(id@)),
    {
        match record {
            Some(found) => Ok(found),
            None => Err(not_found("User with id ", id.as_str(), " not found")),
        }
    }
}

/// `r` is what hashing the password of `user` gives: the same user with a
/// hash that its password verifies against, or a hashing failure.
pub open spec fn hashed(user: User, r: Result<User, StoreError>) -> bool {
    match r {
        Ok(stored) => {
            &&& stored.id == user.id
            &&& stored.email == user.email
            &&& verification(user.password@, stored.password@) == Ok::<bool, AuthFailure>(true)
        },
        Err(e) => e@ == StoreErrorView::HashingFailure,
    }
}

/// `user` with `hash` in place of its password.
pub open spec fn with_password(user: User, hash: String) -> User {
    User { id: user.id, email: user.email, password: hash }
}

/// The record to store for `user`, given what hashing its password came
/// to: the user with the hash in place of the password, or a hashing
/// failure.
pub fn replace_password(user: User, hash: Result<String, AuthFailure>) -> (r: Result<
    User,
    StoreError,
>)
    ensures
        match hash {
            Ok(h) => r == Ok::<User, StoreError>(with_password(user, h)),
            Err(_) => r matches Err(e) && e@ == StoreErrorView::HashingFailure,
        },
{
    match hash {
        Ok(h) => Ok(User { id: user.id, email: user.email, password: h }),
        Err(_) => Err(StoreError::HashingFailure),
    }
}

/// Replaces the password of `user` by its hash.
fn with_hashed_password(user: User) -> (r: Result<User, StoreError>)
    ensures
        hashed(user, r),
{
    let hash = hash_password(user.password.as_str());
    replace_password(user, hash)
}

} // verus!
