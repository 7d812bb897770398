//! The record of the placeholder to-do service.

use vstd::prelude::*;

verus! {

/// One to-do entry.
#[derive(Debug, Clone, PartialEq, Eq)]
pub struct Todo {
    pub user_id: u32,
    pub id: u32,
    pub title: String,
    pub completed: bool,
}

} // verus!
