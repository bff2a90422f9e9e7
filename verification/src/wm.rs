//! The surface manager: the tree of shell surfaces, the layout that assigns
//! each surface its place, and the routing of input.

use vstd::prelude::*;

pub mod layout;
pub mod manager;
pub mod shell;
pub mod surfaces;
