//! An authenticated client library for a calendar web service: resource
//! addressing, request dispatch decisions and the calendar-list resource.
use vstd::prelude::*;

pub mod error;
pub mod query;
pub mod sendable;
pub mod dispatch;
pub mod resources;
pub mod calendar_list;

verus! {

} // verus!
