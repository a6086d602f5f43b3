//! Version-addressed installer for circuit artifacts.
//!
//! The library decides; the caller performs. `layout` computes where a
//! version is installed and where its archive is fetched from, `fetch`
//! tracks a streamed download, and `install` sequences the steps of one
//! installation and says which outside action comes next.
use vstd::prelude::*;

pub mod fetch;
pub mod install;
pub mod layout;

verus! {

} // verus!
