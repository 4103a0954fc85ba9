//! The records that the backend stores.

use vstd::prelude::*;

verus! {

/// An instant: whole seconds since the Unix epoch and the nanoseconds
/// within that second.
#[derive(Clone, Copy, Debug, PartialEq, Eq, Structural)]
pub struct Timestamp {
    pub seconds: i64,
    pub nanos: u32,
}

impl Timestamp {
    /// The instant as a time of the token service: its whole seconds, where
    /// the instant is not before the epoch and the seconds have a machine
    /// representation.
    pub open spec fn token_time(self) -> Option<nat> {
        if 0 <= self.seconds <= usize::MAX {
            Some(self.seconds as nat)
        } else {
            None
        }
    }

    /// The whole seconds since the Unix epoch, or `None` for an instant
    /// before it or beyond what the machine counts.
    pub fn unix_seconds(&self) -> (r: Option<usize>)
        ensures
            match r {
                Some(seconds) => self.token_time() == Some(seconds as nat),
                None => self.token_time() is None,
            },
    {
        if self.seconds < 0 {
            None
        } else if self.seconds as u64 > usize::MAX as u64 {
            None
        } else {
            Some(self.seconds as usize)
        }
    }
}

/// The identity that the store gave a record: its table and its key there.
#[derive(Debug, PartialEq, Eq)]
pub struct RecordId {
    pub table: String,
    pub key: String,
}

/// Mathematical value of a [`RecordId`].
pub struct RecordIdView {
    pub table: Seq<char>,
    pub key: Seq<char>,
}

impl View for RecordId {
    type V = RecordIdView;

    open spec fn view(&self) -> RecordIdView {
        RecordIdView { table: self.table@, key: self.key@ }
    }
}

impl Clone for RecordId {
    fn clone(&self) -> (r: Self)
        ensures
            r == *self,
    {
        RecordId { table: self.table.clone(), key: self.key.clone() }
    }
}

/// View of an identity that may not have been assigned yet.
pub open spec fn id_view(id: Option<RecordId>) -> Option<RecordIdView> {
    match id {
        Some(r) => Some(r@),
        None => None,
    }
}

/// A blog post. `id` is `None` until the store has assigned one.
#[derive(Debug, PartialEq, Eq)]
pub struct Post {
    pub id: Option<RecordId>,
    pub poster_id: u128,
    pub post_title: String,
    pub post_date: Timestamp,
    pub post_body: String,
}

/// Mathematical value of a [`Post`].
pub struct PostView {
    pub id: Option<RecordIdView>,
    pub poster_id: u128,
    pub post_title: Seq<char>,
    pub post_date: Timestamp,
    pub post_body: Seq<char>,
}

impl View for Post {
    type V = PostView;

    open spec fn view(&self) -> PostView {
        PostView {
            id: id_view(self.id),
            poster_id: self.poster_id,
            post_title: self.post_title@,
            post_date: self.post_date,
            post_body: self.post_body@,
        }
    }
}

impl Clone for Post {
    fn clone(&self) -> (r: Self)
        ensures
            r == *self,
    {
        Post {
            id: match &self.id {
                Some(id) => Some(id.clone()),
                None => None,
            },
            poster_id: self.poster_id,
            post_title: self.post_title.clone(),
            post_date: self.post_date,
            post_body: self.post_body.clone(),
        }
    }
}

/// A user account. `password` holds the plaintext only on its way in;
/// a stored user holds the hash.
#[derive(Debug, PartialEq, Eq)]
pub struct User {
    pub id: Option<RecordId>,
    pub email: String,
    pub password: String,
}

/// Mathematical value of a [`User`].
pub struct UserView {
    pub id: Option<RecordIdView>,
    pub email: Seq<char>,
    pub password: Seq<char>,
}

impl View for User {
    type V = UserView;

    open spec fn view(&self) -> UserView {
        UserView { id: id_view(self.id), email: self.email@, password: self.password@ }
    }
}

impl Clone for User {
    fn clone(&self) -> (r: Self)
        ensures
            r == *self,
    {
        User {
            id: match &self.id {
                Some(id) => Some(id.clone()),
                None => None,
            },
            email: self.email.clone(),
            password: self.password.clone(),
        }
    }
}

} // verus!
