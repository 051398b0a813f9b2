//! Verified core of a bibliographic citation validator.
//!
//! The library compares a locally authored bibliographic entry against
//! candidate records fetched from external metadata sources: it normalizes
//! free-text fields, detects per-field discrepancies with severities, and
//! computes a weighted match score used to select the best candidate.
//!
//! Fuzzy string similarity (a prefix-weighted string-distance metric) is
//! computed by the caller and handed in as fixed-point values scaled to
//! parts per million; every decision the engine makes on top of those
//! values is verified here.

pub mod entry;
pub mod matcher;
pub mod text;

pub use entry::{
    year_from_epoch_millis, Discrepancy, DiscrepancyField, DiscrepancyView, Entry, Severity,
};
pub use matcher::{
    author_overlap, compare_entries, find_best_match, match_score, title_similarity,
    years_compatible, SimInput, AUTHOR_MATCH_SIM, AUTHOR_WEIGHT, LAST_NAME_MATCH_SIM,
    MAX_YEAR_DIFFERENCE, MIN_AUTHOR_OVERLAP, SIM_SCALE, TITLE_MATCH_SIM, TITLE_WARNING_SIM,
    TITLE_WEIGHT, VENUE_MATCH_SIM, WEIGHT_DENOM,
};
pub use text::{i32_to_string, last_token_of, normalize_string, u64_to_string};
