//! Authentication core: credential, revocation and two-factor challenge
//! stores, session tokens, and the login protocol that ties them together.

pub mod domain;
pub mod routes;
pub mod services;
pub mod utils;

pub use domain::data_stores::{LoginAttemptId, TwoFACode};
pub use domain::email::Email;
pub use domain::error;
pub use domain::password::Password;
pub use domain::user::User;
