//! A verified core for a digital-garden publisher: notes with YAML-like
//! front matter are parsed, gated on their publishing flags, and written to
//! a destination tree only when their content has really changed.

use vstd::prelude::*;

pub mod metadata;
pub mod page;
pub mod publish;
pub mod text;
pub mod yaml;

verus! {

} // verus!
