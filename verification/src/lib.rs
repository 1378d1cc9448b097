//! A scaffolding library for a LaTeX homework workspace.
//!
//! The library renders a fixed document template with a title, author and
//! date substituted at named insertion points, computes the filesystem
//! layout for the rendered document, and decides which directories and
//! files a caller must create, refusing to overwrite an existing primary
//! document.  All functions are pure: the current date, the user's name
//! and the documents directory are passed in by the caller, and the caller
//! performs the filesystem operations that the library plans.

pub mod materialize;
pub mod paths;
pub mod render;

use vstd::prelude::*;

verus! {

} // verus!
