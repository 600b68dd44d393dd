//! A lightweight object-relational persistence layer over an embedded SQL
//! engine. Application code loads, mutates, creates and deletes typed
//! records by row identity; within one unit of work every access to the
//! same logical record observes one shared in-memory representation, and
//! all pending changes are written back when the unit of work commits.

use vstd::prelude::*;

pub mod data;
pub mod object;
pub mod text;
pub mod error;
pub mod engine;
pub mod storage;
pub mod transaction;
pub mod records;

verus! {

pub use crate::data::ObjectId;

pub use crate::error::Error;

pub use crate::object::Object;

} // verus!
