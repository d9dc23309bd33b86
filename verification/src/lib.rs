//! A request-authorization library: it issues signed session tokens on
//! successful login and gates protected routes by verifying a token's
//! signature, expiry, and embedded role against a route's required role.

pub mod error;
pub mod gate;
pub mod role;
pub mod token;
pub mod users;

pub use error::Error;
pub use role::Role;
pub use token::{Claims, TokenCodec, TOKEN_TTL_SECONDS};
pub use users::{init_users, LoginRequest, LoginResponse, User};
