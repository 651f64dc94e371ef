//! An authentication and session engine for a web gateway.
//!
//! The crate holds the rules of the gateway and nothing that performs I/O:
//! the session store, the credential backend, the OAuth2 authorization-code
//! flow, the per-request session handling and the access gate. Every clock
//! reading, random token and provider reply enters as an argument, so each
//! rule is stated for all of them.

pub mod assoc;
pub mod backend;
pub mod clock;
pub mod flow;
pub mod gate;
pub mod login;
pub mod provider;
pub mod request;
pub mod session;
pub mod store;
