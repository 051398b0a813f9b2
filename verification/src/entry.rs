use vstd::arithmetic::div_mod::lemma_div_is_ordered;
use vstd::prelude::*;

verus! {

/// A bibliographic record, either authored locally or fetched from an
/// external metadata source.
///
/// An absent optional field means "unknown", never "empty": comparators
/// treat unknown fields as non-comparable rather than as mismatches.
#[derive(Clone, Debug)]
pub struct Entry {
    /// Identifier, unique within its origin; may be empty for transient records.
    pub id: String,
    /// Record kind tag (e.g. article, book, inproceedings); informational only.
    pub entry_type: String,
    /// Title, if known.
    pub title: Option<String>,
    /// Publication year, if known.
    pub year: Option<i32>,
    /// Author names in citation order; comparisons treat the list as unordered.
    pub authors: Vec<String>,
    /// Digital object identifier, if known.
    pub doi: Option<String>,
    /// Publication venue, if known.
    pub venue: Option<String>,
}

impl Entry {
    /// A fresh record with the given identifier and kind and every other
    /// field unknown.
    pub fn new(id: String, entry_type: String) -> (e: Entry)
        ensures
            e.id@ == id@,
            e.entry_type@ == entry_type@,
            e.title is None,
            e.year is None,
            e.authors@.len() == 0,
            e.doi is None,
            e.venue is None,
    {
        Entry {
            id,
            entry_type,
            title: None,
            year: None,
            authors: Vec::new(),
            doi: None,
            venue: None,
        }
    }
}

/// The publication year a non-negative epoch timestamp in milliseconds
/// falls in, derived with a fixed 365-day-year divisor.
///
/// The missing leap-year correction makes the result drift by one year
/// roughly every four years before the timestamp; the tolerance of
/// [`crate::matcher::MAX_YEAR_DIFFERENCE`] in year comparisons absorbs
/// that imprecision, so the approximation is kept deliberately.
pub open spec fn spec_year_from_epoch_millis(ms: int) -> int {
    1970 + ms / 1000 / 31536000
}

/// The publication year an epoch timestamp in milliseconds falls in (with
/// the fixed 365-day-year approximation).
pub fn year_from_epoch_millis(ms: i64) -> (y: i32)
    requires
        ms >= 0,
    ensures
        y as int == spec_year_from_epoch_millis(ms as int),
{
    let seconds = ms / 1000;
    proof {
        lemma_div_is_ordered(0, ms as int, 1000);
        lemma_div_is_ordered(ms as int, i64::MAX as int, 1000);
    }
    let years_since_1970 = seconds / (365 * 24 * 60 * 60);
    proof {
        lemma_div_is_ordered(0, seconds as int, 31536000);
        lemma_div_is_ordered(seconds as int, i64::MAX as int / 1000, 31536000);
    }
    1970 + years_since_1970 as i32
}

/// How important a detected difference is; `Error` outranks `Warning`,
/// which outranks `Info`.
#[derive(Clone, Copy, Debug, PartialEq, Eq, Structural)]
pub enum Severity {
    Error,
    Warning,
    Info,
}

/// The entry field a discrepancy was detected on.
#[derive(Clone, Copy, Debug, PartialEq, Eq, Structural)]
pub enum DiscrepancyField {
    Title,
    Year,
    Authors,
    Doi,
    Venue,
}

/// One detected difference between a local and a remote entry.
#[derive(Clone, Debug)]
pub struct Discrepancy {
    /// The field the difference was detected on.
    pub field: DiscrepancyField,
    /// How important the difference is.
    pub severity: Severity,
    /// Human-readable rendering of the local side.
    pub local_value: String,
    /// Human-readable rendering of the remote side.
    pub remote_value: String,
    /// Explanation, including the measured similarity or mismatch detail.
    pub message: String,
}

/// The mathematical value of a [`Discrepancy`]: the same fields with every
/// string abstracted to its character sequence.
#[verifier::ext_equal]
pub struct DiscrepancyView {
    pub field: DiscrepancyField,
    pub severity: Severity,
    pub local_value: Seq<char>,
    pub remote_value: Seq<char>,
    pub message: Seq<char>,
}

impl View for Discrepancy {
    type V = DiscrepancyView;

    open spec fn view(&self) -> DiscrepancyView {
        DiscrepancyView {
            field: self.field,
            severity: self.severity,
            local_value: self.local_value@,
            remote_value: self.remote_value@,
            message: self.message@,
        }
    }
}

impl DeepView for Discrepancy {
    type V = DiscrepancyView;

    open spec fn deep_view(&self) -> DiscrepancyView {
        self.view()
    }
}

} // verus!
