//! Authentication and persistence rules of a small blog backend.
//!
//! The crate decides; it performs no input or output of its own. A caller
//! reads the clock, the configuration, the request and the database, hands
//! what it read to the functions here, and carries out what they answer.

pub mod auth;
pub mod crypto;
pub mod db_context;
pub mod model;
pub mod routing;
pub mod server;
pub mod store;
pub mod text;

pub use auth::{
    authorization_middleware, decode_jwt, encode_jwt, hash_password, sign_in, verify_password,
    AuthError, Claims, CurrentUser, SignInData,
};
pub use db_context::{get_database, DatabaseConfig};
pub use model::{Post, User};
pub use routing::{
    amend_post, construct_routes, create_post_handler, create_user_handler, delete_post_handler,
    delete_user_handler, get_all_posts, get_all_users, get_single_post,
};
pub use server::ServerConfig;
pub use store::Store;
