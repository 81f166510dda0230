use vstd::prelude::*;

pub mod model;
pub mod order;
pub mod pathname;
pub mod text;
pub mod duplicates;
pub mod size_text;
pub mod manifest;
pub mod args;
pub mod validation;
pub mod size;
pub mod classify;
pub mod keep;
pub mod version;
pub mod plan;
pub mod runs;
pub mod restore;
pub mod cleanup;
pub mod report;
pub mod output;
pub mod scan;
pub mod stages;
pub mod search;
pub mod manual;
pub mod manual_text;
pub mod plain_text;
pub mod manual_plain;
pub mod manual_fit;

pub mod laws;

verus! {

} // verus!
