//! Packages of the AUR: whether they can be built here, by what and where, what
//! exists, and how a search is ranked.
pub mod capability;
pub mod helper;
pub mod install;
pub mod rpc;
pub mod scratch;
pub mod search;
pub mod source;
