//! The request handlers, as the decisions they take between two calls of
//! the store.
//!
//! A handler is a function from where it stands and what just happened to
//! where it stands next and what is to be done. The caller starts it at
//! `Stage::Start` with `Event::Begin`, makes each store call that it asks
//! for, comes back with the answer, and sends the reply that ends the run.
//! Every handler that writes reads first, and writes only if what it read
//! allows it.

use crate::model::{Post, PostView, Timestamp, User, UserView};
use crate::store::{StoreError, StoreErrorView};
use vstd::prelude::*;
use vstd::string::StringExecFns;

verus! {

/// Where a handler stands.
#[derive(Clone, Copy, Debug, PartialEq, Eq, Structural)]
pub enum Stage {
    /// Nothing was done yet.
    Start,
    /// The answer to a read is awaited.
    Reading,
    /// The answer to a write is awaited.
    Writing,
    /// The reply was given.
    Finished,
}

/// What came back from the store, or `Begin` where nothing was asked yet.
#[derive(Debug, PartialEq, Eq)]
pub enum Event {
    Begin,
    Post(Result<Post, StoreError>),
    Posts(Result<Vec<Post>, StoreError>),
    User(Result<User, StoreError>),
    Users(Result<Vec<User>, StoreError>),
    Removed(Result<(), StoreError>),
}

/// An operation of the store that a handler asks for.
#[derive(Debug, PartialEq, Eq)]
pub enum StoreCall {
    GetAll,
    GetById { id: String },
    GetByTitle { title: String },
    CreatePost { content: Post },
    UpdatePost { id: String, content: Post },
    DeletePost { id: String },
    AddUser { user: User },
    DeleteUser { id: String },
    RetrieveUserByEmail { email: String },
    GetUsers,
    GetUserById { id: String },
}

/// What a handler answers the request with.
#[derive(Debug, PartialEq, Eq)]
pub enum Reply {
    /// All posts.
    Posts { posts: Vec<Post> },
    /// The post that was asked for.
    Post { post: Post },
    /// All users.
    Users { users: Vec<User> },
    /// The post as the store holds it now.
    PostCreated { post: Post },
    /// The user as the store holds it now.
    UserCreated { user: User },
    /// The post after the change.
    PostUpdated { post: Post },
    /// The record is gone.
    NoContent,
    /// A post of that title is there already: this one.
    PostExists { post: Post },
    /// A user of that email is there already: this one.
    UserExists { user: User },
    /// There is no such record.
    NotFound { message: String },
    /// The store failed.
    Failure,
}

/// What a handler wants done.
#[derive(Debug, PartialEq, Eq)]
pub enum Action {
    /// Make this call of the store and come back with its answer.
    Ask(StoreCall),
    /// Send this reply; the run is over.
    Respond(Reply),
}

/// Mathematical value of a list of posts.
pub open spec fn posts_view(posts: Vec<Post>) -> Seq<PostView> {
    posts@.map_values(|p: Post| p@)
}

/// Mathematical value of a list of users.
pub open spec fn users_view(users: Vec<User>) -> Seq<UserView> {
    users@.map_values(|u: User| u@)
}

/// Mathematical value of a [`StoreCall`].
pub enum StoreCallView {
    GetAll,
    GetById { id: Seq<char> },
    GetByTitle { title: Seq<char> },
    CreatePost { content: PostView },
    UpdatePost { id: Seq<char>, content: PostView },
    DeletePost { id: Seq<char> },
    AddUser { user: UserView },
    DeleteUser { id: Seq<char> },
    RetrieveUserByEmail { email: Seq<char> },
    GetUsers,
    GetUserById { id: Seq<char> },
}

/// Mathematical value of a [`Reply`].
pub enum ReplyView {
    Posts { posts: Seq<PostView> },
    Post { post: PostView },
    Users { users: Seq<UserView> },
    PostCreated { post: PostView },
    UserCreated { user: UserView },
    PostUpdated { post: PostView },
    NoContent,
    PostExists { post: PostView },
    UserExists { user: UserView },
    NotFound { message: Seq<char> },
    Failure,
}

/// Mathematical value of an [`Action`].
pub enum ActionView {
    Ask(StoreCallView),
    Respond(ReplyView),
}

impl View for StoreCall {
    type V = StoreCallView;

    open spec fn view(&self) -> StoreCallView {
        match *self {
            StoreCall::GetAll => StoreCallView::GetAll,
            StoreCall::GetById { id } => StoreCallView::GetById { id: id@ },
            StoreCall::GetByTitle { title } => StoreCallView::GetByTitle { title: title@ },
            StoreCall::CreatePost { content } => StoreCallView::CreatePost { content: content@ },
            StoreCall::UpdatePost { id, content } => StoreCallView::UpdatePost {
                id: id@,
                content: content@,
            },
            StoreCall::DeletePost { id } => StoreCallView::DeletePost { id: id@ },
            StoreCall::AddUser { user } => StoreCallView::AddUser { user: user@ },
            StoreCall::DeleteUser { id } => StoreCallView::DeleteUser { id: id@ },
            StoreCall::RetrieveUserByEmail { email } => StoreCallView::RetrieveUserByEmail {
                email: email@,
            },
            StoreCall::GetUsers => StoreCallView::GetUsers,
            StoreCall::GetUserById { id } => StoreCallView::GetUserById { id: id@ },
        }
    }
}

impl View for Reply {
    type V = ReplyView;

    open spec fn view(&self) -> ReplyView {
        match *self {
            Reply::Posts { posts } => ReplyView::Posts { posts: posts_view(posts) },
            Reply::Post { post } => ReplyView::Post { post: post@ },
            Reply::Users { users } => ReplyView::Users { users: users_view(users) },
            Reply::PostCreated { post } => ReplyView::PostCreated { post: post@ },
            Reply::UserCreated { user } => ReplyView::UserCreated { user: user@ },
            Reply::PostUpdated { post } => ReplyView::PostUpdated { post: post@ },
            Reply::NoContent => ReplyView::NoContent,
            Reply::PostExists { post } => ReplyView::PostExists { post: post@ },
            Reply::UserExists { user } => ReplyView::UserExists { user: user@ },
            Reply::NotFound { message } => ReplyView::NotFound { message: message@ },
            Reply::Failure => ReplyView::Failure,
        }
    }
}

impl View for Action {
    type V = ActionView;

    open spec fn view(&self) -> ActionView {
        match *self {
            Action::Ask(call) => ActionView::Ask(call@),
            Action::Respond(reply) => ActionView::Respond(reply@),
        }
    }
}

impl ReplyView {
    /// The HTTP status that goes with the reply.
    pub open spec fn status(self) -> u16 {
        match self {
            ReplyView::Posts { .. } | ReplyView::Post { .. } | ReplyView::Users { .. }
            | ReplyView::PostUpdated { .. } => 200,
            ReplyView::PostCreated { .. } | ReplyView::UserCreated { .. } => 201,
            ReplyView::NoContent => 204,
            ReplyView::PostExists { .. } | ReplyView::UserExists { .. } => 400,
            ReplyView::NotFound { .. } => 404,
            ReplyView::Failure => 500,
        }
    }
}

impl Reply {
    /// The HTTP status to send the reply with.
    pub fn status_code(&self) -> (r: u16)
        ensures
            r == self@.status(),
    {
        match self {
            Reply::Posts { .. } | Reply::Post { .. } | Reply::Users { .. }
            | Reply::PostUpdated { .. } => 200,
            Reply::PostCreated { .. } | Reply::UserCreated { .. } => 201,
            Reply::NoContent => 204,
            Reply::PostExists { .. } | Reply::UserExists { .. } => 400,
            Reply::NotFound { .. } => 404,
            Reply::Failure => 500,
        }
    }
}

/// The step that asks the store for something and waits at `next`.
pub open spec fn ask(next: Stage, call: StoreCallView) -> (Stage, ActionView) {
    (next, ActionView::Ask(call))
}

/// The step that ends the run with `reply`.
pub open spec fn respond(reply: ReplyView) -> (Stage, ActionView) {
    (Stage::Finished, ActionView::Respond(reply))
}

/// The words for a record that `id` does not lead to.
pub open spec fn no_such(what: Seq<char>, id: Seq<char>) -> Seq<char> {
    what + " with ID: "@ + id + " not found"@
}

/// `payload` as it is stored when it is created at `now`.
pub open spec fn dated(payload: PostView, now: Timestamp) -> PostView {
    PostView { post_date: now, ..payload }
}

/// `payload` as it replaces a stored post: all of it but an identity.
pub open spec fn edited(payload: PostView) -> PostView {
    PostView { id: None, ..payload }
}

/// Listing the posts: one read, whose answer is the reply.
pub open spec fn get_all_posts_step(stage: Stage, event: Event) -> (Stage, ActionView) {
    match (stage, event) {
        (Stage::Start, Event::Begin) => ask(Stage::Reading, StoreCallView::GetAll),
        (Stage::Reading, Event::Posts(Ok(posts))) => respond(
            ReplyView::Posts { posts: posts_view(posts) },
        ),
        _ => respond(ReplyView::Failure),
    }
}

/// Listing the users: one read, whose answer is the reply.
pub open spec fn get_all_users_step(stage: Stage, event: Event) -> (Stage, ActionView) {
    match (stage, event) {
        (Stage::Start, Event::Begin) => ask(Stage::Reading, StoreCallView::GetUsers),
        (Stage::Reading, Event::Users(Ok(users))) => respond(
            ReplyView::Users { users: users_view(users) },
        ),
        _ => respond(ReplyView::Failure),
    }
}

/// Fetching one post: one read; a post that is not there is answered with
/// the words of the store.
pub open spec fn get_single_post_step(id: Seq<char>, stage: Stage, event: Event) -> (
    Stage,
    ActionView,
) {
    match (stage, event) {
        (Stage::Start, Event::Begin) => ask(Stage::Reading, StoreCallView::GetById { id }),
        (Stage::Reading, Event::Post(Ok(post))) => respond(ReplyView::Post { post: post@ }),
        (Stage::Reading, Event::Post(Err(StoreError::NotFound { message }))) => respond(
            ReplyView::NotFound { message: message@ },
        ),
        _ => respond(ReplyView::Failure),
    }
}

/// Creating a post: the title is looked up; a post found under it is a
/// conflict and is the reply; only where the store says that there is none
/// the post is written, dated `now`; the reply is the record that the
/// store gives back.
pub open spec fn create_post_step(payload: PostView, now: Timestamp, stage: Stage, event: Event) -> (
    Stage,
    ActionView,
) {
    match (stage, event) {
        (Stage::Start, Event::Begin) => ask(
            Stage::Reading,
            StoreCallView::GetByTitle { title: payload.post_title },
        ),
        (Stage::Reading, Event::Post(Ok(existing))) => respond(
            ReplyView::PostExists { post: existing@ },
        ),
        (Stage::Reading, Event::Post(Err(StoreError::NotFound { .. }))) => ask(
            Stage::Writing,
            StoreCallView::CreatePost { content: dated(payload, now) },
        ),
        (Stage::Writing, Event::Posts(Ok(stored))) => if stored@.len() > 0 {
            respond(ReplyView::PostCreated { post: stored@[0]@ })
        } else {
            respond(ReplyView::Failure)
        },
        _ => respond(ReplyView::Failure),
    }
}

/// Changing a post: the id is looked up; only where a post is found the
/// new content replaces it; where the lookup fails, or the post is gone
/// when it is to be replaced, the reply is that there is no such entry,
/// with the id in its words.
pub open spec fn amend_post_step(id: Seq<char>, payload: PostView, stage: Stage, event: Event) -> (
    Stage,
    ActionView,
) {
    match (stage, event) {
        (Stage::Start, Event::Begin) => ask(Stage::Reading, StoreCallView::GetById { id }),
        (Stage::Reading, Event::Post(Ok(_))) => ask(
            Stage::Writing,
            StoreCallView::UpdatePost { id, content: edited(payload) },
        ),
        (Stage::Reading, Event::Post(Err(_))) => respond(
            ReplyView::NotFound { message: no_such("Entry"@, id) },
        ),
        (Stage::Writing, Event::Post(Ok(updated))) => respond(
            ReplyView::PostUpdated { post: updated@ },
        ),
        (Stage::Writing, Event::Post(Err(StoreError::NotFound { .. }))) => respond(
            ReplyView::NotFound { message: no_such("Entry"@, id) },
        ),
        _ => respond(ReplyView::Failure),
    }
}

/// Deleting a post: the id is looked up; only where a post is found it is
/// deleted; where the lookup fails, or the post is gone when it is to be
/// deleted, the reply is that there is no such post, with the id in its
/// words.
pub open spec fn delete_post_step(id: Seq<char>, stage: Stage, event: Event) -> (
    Stage,
    ActionView,
) {
    match (stage, event) {
        (Stage::Start, Event::Begin) => ask(Stage::Reading, StoreCallView::GetById { id }),
        (Stage::Reading, Event::Post(Ok(_))) => ask(
            Stage::Writing,
            StoreCallView::DeletePost { id },
        ),
        (Stage::Reading, Event::Post(Err(_))) => respond(
            ReplyView::NotFound { message: no_such("Post"@, id) },
        ),
        (Stage::Writing, Event::Removed(Ok(_))) => respond(ReplyView::NoContent),
        (Stage::Writing, Event::Removed(Err(StoreError::NotFound { .. }))) => respond(
            ReplyView::NotFound { message: no_such("Post"@, id) },
        ),
        _ => respond(ReplyView::Failure),
    }
}

/// Creating a user: the email is looked up; a user found under it is a
/// conflict and is the reply; only where the store says that there is none
/// the user is added; the reply is the record that the store gives back.
pub open spec fn create_user_step(payload: UserView, stage: Stage, event: Event) -> (
    Stage,
    ActionView,
) {
    match (stage, event) {
        (Stage::Start, Event::Begin) => ask(
            Stage::Reading,
            StoreCallView::RetrieveUserByEmail { email: payload.email },
        ),
        (Stage::Reading, Event::User(Ok(existing))) => respond(
            ReplyView::UserExists { user: existing@ },
        ),
        (Stage::Reading, Event::User(Err(StoreError::NotFound { .. }))) => ask(
            Stage::Writing,
            StoreCallView::AddUser { user: payload },
        ),
        (Stage::Writing, Event::Users(Ok(stored))) => if stored@.len() > 0 {
            respond(ReplyView::UserCreated { user: stored@[0]@ })
        } else {
            respond(ReplyView::Failure)
        },
        _ => respond(ReplyView::Failure),
    }
}

/// Deleting a user: the id is looked up; only where a user is found it is
/// deleted; where the lookup fails, or the user is gone when it is to be
/// deleted, the reply is that there is no such user, with the id in its
/// words.
pub open spec fn delete_user_step(id: Seq<char>, stage: Stage, event: Event) -> (
    Stage,
    ActionView,
) {
    match (stage, event) {
        (Stage::Start, Event::Begin) => ask(Stage::Reading, StoreCallView::GetUserById { id }),
        (Stage::Reading, Event::User(Ok(_))) => ask(
            Stage::Writing,
            StoreCallView::DeleteUser { id },
        ),
        (Stage::Reading, Event::User(Err(_))) => respond(
            ReplyView::NotFound { message: no_such("User"@, id) },
        ),
        (Stage::Writing, Event::Removed(Ok(_))) => respond(ReplyView::NoContent),
        (Stage::Writing, Event::Removed(Err(StoreError::NotFound { .. }))) => respond(
            ReplyView::NotFound { message: no_such("User"@, id) },
        ),
        _ => respond(ReplyView::Failure),
    }
}

/// Ends a run with `reply`.
fn finish(reply: Reply) -> (r: (Stage, Action))
    ensures
        (r.0, r.1@) == respond(reply@),
{
    (Stage::Finished, Action::Respond(reply))
}

/// Ends a run with the reply that `what` has no record under `id`.
fn finish_not_found(what: &str, id: &str) -> (r: (Stage, Action))
    ensures
        (r.0, r.1@) == respond(ReplyView::NotFound { message: no_such(what@, id@) }),
{
    let message = String::from_str(what).concat(" with ID: ").concat(id).concat(" not found");
    finish(Reply::NotFound { message })
}

/// One step of listing the posts.
pub fn get_all_posts(stage: Stage, event: Event) -> (r: (Stage, Action))
    ensures
        (r.0, r.1@) == get_all_posts_step(stage, event),
{
    match (stage, event) {
        (Stage::Start, Event::Begin) => (Stage::Reading, Action::Ask(StoreCall::GetAll)),
        (Stage::Reading, Event::Posts(Ok(posts))) => finish(Reply::Posts { posts }),
        _ => finish(Reply::Failure),
    }
}

/// One step of listing the users.
pub fn get_all_users(stage: Stage, event: Event) -> (r: (Stage, Action))
    ensures
        (r.0, r.1@) == get_all_users_step(stage, event),
{
    match (stage, event) {
        (Stage::Start, Event::Begin) => (Stage::Reading, Action::Ask(StoreCall::GetUsers)),
        (Stage::Reading, Event::Users(Ok(users))) => finish(Reply::Users { users }),
        _ => finish(Reply::Failure),
    }
}

/// One step of fetching the post under `id`.
pub fn get_single_post(id: &str, stage: Stage, event: Event) -> (r: (Stage, Action))
    ensures
        (r.0, r.1@) == get_single_post_step(id@, stage, event),
{
    match (stage, event) {
        (Stage::Start, Event::Begin) => (
            Stage::Reading,
            Action::Ask(StoreCall::GetById { id: id.to_owned() }),
        ),
        (Stage::Reading, Event::Post(Ok(post))) => finish(Reply::Post { post }),
        (Stage::Reading, Event::Post(Err(StoreError::NotFound { message }))) => finish(
            Reply::NotFound { message },
        ),
        _ => finish(Reply::Failure),
    }
}

/// One step of creating the post `payload` at the time `now`.
pub fn create_post_handler(payload: &Post, now: Timestamp, stage: Stage, event: Event) -> (r: (
    Stage,
    Action,
))
    ensures
        (r.0, r.1@) == create_post_step(payload@, now, stage, event),
{
    match (stage, event) {
        (Stage::Start, Event::Begin) => (
            Stage::Reading,
            Action::Ask(StoreCall::GetByTitle { title: payload.post_title.clone() }),
        ),
        (Stage::Reading, Event::Post(Ok(existing))) => finish(Reply::PostExists { post: existing }),
        (Stage::Reading, Event::Post(Err(StoreError::NotFound { .. }))) => {
            let mut content = payload.clone();
            content.post_date = now;
            (Stage::Writing, Action::Ask(StoreCall::CreatePost { content }))
        },
        (Stage::Writing, Event::Posts(Ok(stored))) => {
            let mut stored = stored;
            if stored.len() > 0 {
                finish(Reply::PostCreated { post: stored.swap_remove(0) })
            } else {
                finish(Reply::Failure)
            }
        },
        _ => finish(Reply::Failure),
    }
}

/// One step of replacing the post under `id` by `payload`.
pub fn amend_post(id: &str, payload: &Post, stage: Stage, event: Event) -> (r: (Stage, Action))
    ensures
        (r.0, r.1@) == amend_post_step(id@, payload@, stage, event),
{
    match (stage, event) {
        (Stage::Start, Event::Begin) => (
            Stage::Reading,
            Action::Ask(StoreCall::GetById { id: id.to_owned() }),
        ),
        (Stage::Reading, Event::Post(Ok(_))) => {
            let content = Post {
                id: None,
                poster_id: payload.poster_id,
                post_title: payload.post_title.clone(),
                post_date: payload.post_date,
                post_body: payload.post_body.clone(),
            };
            (Stage::Writing, Action::Ask(StoreCall::UpdatePost { id: id.to_owned(), content }))
        },
        (Stage::Reading, Event::Post(Err(_))) => finish_not_found("Entry", id),
        (Stage::Writing, Event::Post(Ok(updated))) => finish(Reply::PostUpdated { post: updated }),
        (Stage::Writing, Event::Post(Err(StoreError::NotFound { .. }))) => finish_not_found(
            "Entry",
            id,
        ),
        _ => finish(Reply::Failure),
    }
}

/// One step of deleting the post under `id`.
pub fn delete_post_handler(id: &str, stage: Stage, event: Event) -> (r: (Stage, Action))
    ensures
        (r.0, r.1@) == delete_post_step(id@, stage, event),
{
    match (stage, event) {
        (Stage::Start, Event::Begin) => (
            Stage::Reading,
            Action::Ask(StoreCall::GetById { id: id.to_owned() }),
        ),
        (Stage::Reading, Event::Post(Ok(_))) => (
            Stage::Writing,
            Action::Ask(StoreCall::DeletePost { id: id.to_owned() }),
        ),
        (Stage::Reading, Event::Post(Err(_))) => finish_not_found("Post", id),
        (Stage::Writing, Event::Removed(Ok(_))) => finish(Reply::NoContent),
        (Stage::Writing, Event::Removed(Err(StoreError::NotFound { .. }))) => finish_not_found(
            "Post",
            id,
        ),
        _ => finish(Reply::Failure),
    }
}

/// One step of creating the user `payload`.
pub fn create_user_handler(payload: &User, stage: Stage, event: Event) -> (r: (Stage, Action))
    ensures
        (r.0, r.1@) == create_user_step(payload@, stage, event),
{
    match (stage, event) {
        (Stage::Start, Event::Begin) => (
            Stage::Reading,
            Action::Ask(StoreCall::RetrieveUserByEmail { email: payload.email.clone() }),
        ),
        (Stage::Reading, Event::User(Ok(existing))) => finish(Reply::UserExists { user: existing }),
        (Stage::Reading, Event::User(Err(StoreError::NotFound { .. }))) => (
            Stage::Writing,
            Action::Ask(StoreCall::AddUser { user: payload.clone() }),
        ),
        (Stage::Writing, Event::Users(Ok(stored))) => {
            let mut stored = stored;
            if stored.len() > 0 {
                finish(Reply::UserCreated { user: stored.swap_remove(0) })
            } else {
                finish(Reply::Failure)
            }
        },
        _ => finish(Reply::Failure),
    }
}

/// One step of deleting the user under `id`.
pub fn delete_user_handler(id: &str, stage: Stage, event: Event) -> (r: (Stage, Action))
    ensures
        (r.0, r.1@) == delete_user_step(id@, stage, event),
{
    match (stage, event) {
        (Stage::Start, Event::Begin) => (
            Stage::Reading,
            Action::Ask(StoreCall::GetUserById { id: id.to_owned() }),
        ),
        (Stage::Reading, Event::User(Ok(_))) => (
            Stage::Writing,
            Action::Ask(StoreCall::DeleteUser { id: id.to_owned() }),
        ),
        (Stage::Reading, Event::User(Err(_))) => finish_not_found("User", id),
        (Stage::Writing, Event::Removed(Ok(_))) => finish(Reply::NoContent),
        (Stage::Writing, Event::Removed(Err(StoreError::NotFound { .. }))) => finish_not_found(
            "User",
            id,
        ),
        _ => finish(Reply::Failure),
    }
}

impl Stage {
    /// How far a run has come: 0 at the start, 3 when it is over.
    pub open spec fn rank(self) -> nat {
        match self {
            Stage::Start => 0,
            Stage::Reading => 1,
            Stage::Writing => 2,
            Stage::Finished => 3,
        }
    }
}

/// A step that a run can take: it moves on, it ends exactly where it
/// replies, it reads only at the start and writes only on the answer to
/// its read.
pub open spec fn orderly(stage: Stage, step: (Stage, ActionView)) -> bool {
    &&& step.0 == Stage::Finished || step.0.rank() == stage.rank() + 1
    &&& step.0 == Stage::Finished <==> step.1 is Respond
    &&& step.0 == Stage::Reading ==> stage == Stage::Start
    &&& step.0 == Stage::Writing ==> stage == Stage::Reading
}

/// Every handler takes orderly steps only, so each run is over after at
/// most three of them, and none writes without having read.
pub proof fn lemma_handlers_are_orderly(
    id: Seq<char>,
    post: PostView,
    user: UserView,
    now: Timestamp,
    stage: Stage,
    event: Event,
)
    ensures
        orderly(stage, get_all_posts_step(stage, event)),
        orderly(stage, get_all_users_step(stage, event)),
        orderly(stage, get_single_post_step(id, stage, event)),
        orderly(stage, create_post_step(post, now, stage, event)),
        orderly(stage, amend_post_step(id, post, stage, event)),
        orderly(stage, delete_post_step(id, stage, event)),
        orderly(stage, create_user_step(user, stage, event)),
        orderly(stage, delete_user_step(id, stage, event)),
{
}

/// A post is written only where the store answered the lookup of its
/// title with "not found"; where the store holds a post of that title, the
/// run ends in a conflict that carries that post, and nothing is written.
pub proof fn lemma_create_post_checks_title(
    payload: PostView,
    now: Timestamp,
    stage: Stage,
    event: Event,
)
    ensures
        create_post_step(payload, now, stage, event).1 matches ActionView::Ask(call) ==> {
            ||| stage == Stage::Start && call == StoreCallView::GetByTitle {
                title: payload.post_title,
            }
            ||| stage == Stage::Reading && (event matches Event::Post(
                Err(StoreError::NotFound { .. }),
            )) && call == StoreCallView::CreatePost { content: dated(payload, now) }
        },
        stage == Stage::Reading ==> (event matches Event::Post(Ok(existing))
            ==> create_post_step(payload, now, stage, event) == respond(
            ReplyView::PostExists { post: existing@ },
        )),
{
}

/// A user is added only where the store answered the lookup of its email
/// with "not found"; where the store holds a user of that email, the run
/// ends in a conflict that carries that user, and nothing is written.
pub proof fn lemma_create_user_checks_email(payload: UserView, stage: Stage, event: Event)
    ensures
        create_user_step(payload, stage, event).1 matches ActionView::Ask(call) ==> {
            ||| stage == Stage::Start && call == StoreCallView::RetrieveUserByEmail {
                email: payload.email,
            }
            ||| stage == Stage::Reading && (event matches Event::User(
                Err(StoreError::NotFound { .. }),
            )) && call == StoreCallView::AddUser { user: payload }
        },
        stage == Stage::Reading ==> (event matches Event::User(Ok(existing))
            ==> create_user_step(payload, stage, event) == respond(
            ReplyView::UserExists { user: existing@ },
        )),
{
}

/// A record is replaced or deleted only where the store answered the
/// lookup of its id with the record; where the lookup failed, the run ends
/// in "not found" with the id in the words, and nothing is written.
pub proof fn lemma_changes_check_existence(
    id: Seq<char>,
    payload: PostView,
    stage: Stage,
    event: Event,
)
    ensures
        amend_post_step(id, payload, stage, event).0 == Stage::Writing ==> stage
            == Stage::Reading && (event matches Event::Post(Ok(_))),
        delete_post_step(id, stage, event).0 == Stage::Writing ==> stage == Stage::Reading
            && (event matches Event::Post(Ok(_))),
        delete_user_step(id, stage, event).0 == Stage::Writing ==> stage == Stage::Reading
            && (event matches Event::User(Ok(_))),
        stage == Stage::Reading ==> (event matches Event::Post(Err(_)) ==> {
            &&& amend_post_step(id, payload, stage, event) == respond(
                ReplyView::NotFound { message: no_such("Entry"@, id) },
            )
            &&& delete_post_step(id, stage, event) == respond(
                ReplyView::NotFound { message: no_such("Post"@, id) },
            )
        }),
        stage == Stage::Reading ==> (event matches Event::User(Err(_)) ==> delete_user_step(
            id,
            stage,
            event,
        ) == respond(ReplyView::NotFound { message: no_such("User"@, id) })),
{
}

// ---------------------------------------------------------------------------
// Routes
// ---------------------------------------------------------------------------

/// The HTTP method of a route.
#[derive(Clone, Copy, Debug, PartialEq, Eq, Structural)]
pub enum Method {
    Get,
    Post,
    Patch,
    Delete,
}

/// What a route leads to.
#[derive(Clone, Copy, Debug, PartialEq, Eq, Structural)]
pub enum Endpoint {
    Root,
    GetAllPosts,
    GetSinglePost,
    CreatePost,
    AmendPost,
    DeletePost,
    SignIn,
    CreateUser,
    GetAllUsers,
    DeleteUser,
    HealthCheck,
}

/// One route of the backend: a method and a path, what they lead to, and
/// whether the authorization guard stands in front of it.
#[derive(Debug, PartialEq, Eq)]
pub struct Route {
    pub method: Method,
    pub path: String,
    pub endpoint: Endpoint,
    pub protected: bool,
}

impl Endpoint {
    /// The method under which the endpoint is reached.
    pub open spec fn method(self) -> Method {
        match self {
            Endpoint::Root | Endpoint::GetAllPosts | Endpoint::GetSinglePost
            | Endpoint::GetAllUsers | Endpoint::HealthCheck => Method::Get,
            Endpoint::CreatePost | Endpoint::SignIn | Endpoint::CreateUser => Method::Post,
            Endpoint::AmendPost => Method::Patch,
            Endpoint::DeletePost | Endpoint::DeleteUser => Method::Delete,
        }
    }

    /// The path under which the endpoint is reached.
    pub open spec fn path(self) -> Seq<char> {
        match self {
            Endpoint::Root => "/"@,
            Endpoint::GetAllPosts => "/posts/all"@,
            Endpoint::GetSinglePost | Endpoint::AmendPost | Endpoint::DeletePost => "/posts/:id"@,
            Endpoint::CreatePost => "/posts/new"@,
            Endpoint::SignIn => "/signin"@,
            Endpoint::CreateUser => "/users/new"@,
            Endpoint::GetAllUsers => "/users"@,
            Endpoint::DeleteUser => "/users/:id"@,
            Endpoint::HealthCheck => "/api/healthcheck"@,
        }
    }

    /// Whether the endpoint is open to authorized callers only: so are
    /// those that change what the store holds.
    pub open spec fn protected(self) -> bool {
        match self {
            Endpoint::CreatePost | Endpoint::AmendPost | Endpoint::DeletePost
            | Endpoint::CreateUser | Endpoint::DeleteUser => true,
            _ => false,
        }
    }

    /// The route of the endpoint.
    pub fn route(self) -> (r: Route)
        ensures
            r.endpoint == self,
            r.method == self.method(),
            r.path@ == self.path(),
            r.protected == self.protected(),
    {
        let (method, path, protected) = match self {
            Endpoint::Root => (Method::Get, "/", false),
            Endpoint::GetAllPosts => (Method::Get, "/posts/all", false),
            Endpoint::GetSinglePost => (Method::Get, "/posts/:id", false),
            Endpoint::CreatePost => (Method::Post, "/posts/new", true),
            Endpoint::AmendPost => (Method::Patch, "/posts/:id", true),
            Endpoint::DeletePost => (Method::Delete, "/posts/:id", true),
            Endpoint::SignIn => (Method::Post, "/signin", false),
            Endpoint::CreateUser => (Method::Post, "/users/new", true),
            Endpoint::GetAllUsers => (Method::Get, "/users", false),
            Endpoint::DeleteUser => (Method::Delete, "/users/:id", true),
            Endpoint::HealthCheck => (Method::Get, "/api/healthcheck", false),
        };
        Route { method, path: path.to_owned(), endpoint: self, protected }
    }
}

/// The endpoints in the order in which their routes are registered.
pub open spec fn endpoints() -> Seq<Endpoint> {
    seq![
        Endpoint::Root,
        Endpoint::GetAllPosts,
        Endpoint::GetSinglePost,
        Endpoint::CreatePost,
        Endpoint::AmendPost,
        Endpoint::DeletePost,
        Endpoint::SignIn,
        Endpoint::CreateUser,
        Endpoint::GetAllUsers,
        Endpoint::DeleteUser,
        Endpoint::HealthCheck,
    ]
}

/// The routes of the backend: one for each endpoint, in the order of
/// [`endpoints`], each with the method, the path and the protection of
/// its endpoint.
pub fn construct_routes() -> (r: Vec<Route>)
    ensures
        r@.len() == endpoints().len(),
        forall|i: int|
            0 <= i < r@.len() ==> {
                &&& (#[trigger] r@[i]).endpoint == endpoints()[i]
                &&& r@[i].method == endpoints()[i].method()
                &&& r@[i].path@ == endpoints()[i].path()
                &&& r@[i].protected == endpoints()[i].protected()
            },
{
    let mut routes: Vec<Route> = Vec::new();
    routes.push(Endpoint::Root.route());
    routes.push(Endpoint::GetAllPosts.route());
    routes.push(Endpoint::GetSinglePost.route());
    routes.push(Endpoint::CreatePost.route());
    routes.push(Endpoint::AmendPost.route());
    routes.push(Endpoint::DeletePost.route());
    routes.push(Endpoint::SignIn.route());
    routes.push(Endpoint::CreateUser.route());
    routes.push(Endpoint::GetAllUsers.route());
    routes.push(Endpoint::DeleteUser.route());
    routes.push(Endpoint::HealthCheck.route());
    routes
}

/// Every endpoint has exactly one route, and no two routes share both
/// method and path.
pub proof fn lemma_routes_are_distinct(e: Endpoint)
    ensures
        endpoints().contains(e),
        forall|i: int, j: int|
            0 <= i < j < endpoints().len() ==> {
                ||| (#[trigger] endpoints()[i]).method() != (#[trigger] endpoints()[j]).method()
                ||| endpoints()[i].path() != endpoints()[j].path()
            },
{
    match e {
        Endpoint::Root => assert(endpoints()[0] == e),
        Endpoint::GetAllPosts => assert(endpoints()[1] == e),
        Endpoint::GetSinglePost => assert(endpoints()[2] == e),
        Endpoint::CreatePost => assert(endpoints()[3] == e),
        Endpoint::AmendPost => assert(endpoints()[4] == e),
        Endpoint::DeletePost => assert(endpoints()[5] == e),
        Endpoint::SignIn => assert(endpoints()[6] == e),
        Endpoint::CreateUser => assert(endpoints()[7] == e),
        Endpoint::GetAllUsers => assert(endpoints()[8] == e),
        Endpoint::DeleteUser => assert(endpoints()[9] == e),
        Endpoint::HealthCheck => assert(endpoints()[10] == e),
    }
    reveal_strlit("/");
    reveal_strlit("/posts/all");
    reveal_strlit("/posts/:id");
    reveal_strlit("/posts/new");
    reveal_strlit("/signin");
    reveal_strlit("/users/new");
    reveal_strlit("/users");
    reveal_strlit("/users/:id");
    reveal_strlit("/api/healthcheck");
    assert("/posts/all"@[7] != "/posts/:id"@[7]);
    assert("/users"@.len() != "/api/healthcheck"@.len());
    assert("/"@.len() != "/users"@.len());
    assert("/posts/new"@[1] != "/users/new"@[1]);
    assert("/"@.len() != "/posts/all"@.len());
    assert("/posts/all"@.len() != "/users"@.len());
    assert("/posts/all"@.len() != "/api/healthcheck"@.len());
    assert("/"@.len() != "/api/healthcheck"@.len());
    assert("/posts/:id"@.len() != "/"@.len());
    assert("/posts/:id"@.len() != "/users"@.len());
    assert("/posts/:id"@.len() != "/api/healthcheck"@.len());
    assert("/posts/new"@.len() != "/signin"@.len());
    assert("/signin"@.len() != "/users/new"@.len());
    assert("/posts/:id"@[1] != "/users/:id"@[1]);
}

} // verus!
