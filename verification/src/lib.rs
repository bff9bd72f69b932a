//! Storm Sewer add-on for Open CAD Studio: the verified core.

use vstd::prelude::*;

pub mod commands;
pub mod dates;
pub mod edit;
pub mod html_report;
pub mod landxml;
pub mod license;
pub mod license_cmd;
pub mod network;
pub mod params;
pub mod picking;
pub mod placement;
pub mod report;
pub mod state;
pub mod style;
pub mod tables;
pub mod text;
pub mod validation;

verus! {

} // verus!
