//! Login-time authentication through the OAuth 2.0 device authorization
//! grant: the polling state machine, the trust decision on token claims,
//! and the mapping of provider replies onto a closed error taxonomy.

pub mod config;
pub mod error;
pub mod flow;
pub mod jwt;
pub mod logger;
pub mod module;
pub mod prompt;
pub mod provider;
pub mod scope;
pub mod text;
pub mod user;
pub mod validator;
