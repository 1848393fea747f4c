pub mod downloader;
pub mod models;
pub mod queue;
pub mod scraper;
pub mod ui;
pub mod worker;

use vstd::prelude::*;

verus! {

/// The fixed range of entity IDs seeded into the work queue: 1 through
/// LAST_ENTITY_ID inclusive, one fetch job per ID.
pub const FIRST_ENTITY_ID: u64 = 1;
pub const LAST_ENTITY_ID: u64 = 151;

} // verus!
