//! State model of a single-page task tracker: the task store, the
//! selection/form exclusivity controller, the assignment picker bridged into
//! a draft task, and the presentation mapping of enums and dates to labels.
use vstd::prelude::*;

pub mod model;
pub mod store;
pub mod selection;
pub mod form;
pub mod present;
pub mod instant;
pub mod sample;
