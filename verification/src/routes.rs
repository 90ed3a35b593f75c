//! The authentication orchestrator: one function per boundary operation.
//!
//! Each operation takes the stores it reads or writes, the signing key, and
//! the current time, and resolves to exactly one documented outcome.
//! Transport concerns — request parsing, cookies, status codes — live
//! outside the library.

pub mod login;
pub mod logout;
pub mod signup;
pub mod verify_2fa;
pub mod verify_token;
