//! Deploytix: the logic of an installer for Artix Linux.
use vstd::prelude::*;

pub mod aur;
pub mod cleanup;
pub mod config;
pub mod configure;
pub mod disk;
pub mod dry_run;
pub mod effects;
pub mod error;
pub mod index;
pub mod pkgdeps;
pub mod plan;
pub mod text;

verus! {

} // verus!
