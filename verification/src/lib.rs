//! Verified core of the Periphery agent: the decisions of its outbound
//! connection to Core, its login message checks, and the command lines
//! and files it prepares for docker.
pub mod build_args;
pub mod connect;
pub mod files;
pub mod login;
pub mod outbound;
pub mod retry;
pub mod shell;
pub mod text;
