//! The entry-matching engine: field comparison policy, discrepancy
//! detection, weighted match scoring and best-candidate selection.
//!
//! Every fuzzy comparison routes through a single prefix-weighted string
//! similarity metric computed over normalized strings. The metric itself is
//! supplied by the caller as fixed-point values scaled by [`SIM_SCALE`]
//! (see [`SimInput`]); everything the engine decides on top of those values
//! is specified and verified here.

use vstd::arithmetic::div_mod::{lemma_div_is_ordered, lemma_div_multiples_vanish_fancy};
use vstd::arithmetic::mul::lemma_mul_inequality;
use vstd::prelude::*;

use crate::entry::{Discrepancy, DiscrepancyField, DiscrepancyView, Entry, Severity};
use crate::text::{dec_digits, int_digits, push_dec_i32, push_dec_u64};

verus! {

/// Scale of all fixed-point similarity values: `1_000_000` stands for a
/// similarity of one, i.e. identical strings.
pub const SIM_SCALE: u64 = 1_000_000;

/// Title similarity below this is a hard mismatch (an `Error` discrepancy,
/// and a hard filter in scoring).
pub const TITLE_MATCH_SIM: u64 = 850_000;

/// Title similarity below this (but at least [`TITLE_MATCH_SIM`]) is a
/// `Warning` discrepancy.
pub const TITLE_WARNING_SIM: u64 = 900_000;

/// Full author-name similarity at or above this counts as a match.
pub const AUTHOR_MATCH_SIM: u64 = 800_000;

/// Last-name similarity at or above this counts as an author match
/// (handles abbreviations such as "John Smith" vs "J. Smith").
pub const LAST_NAME_MATCH_SIM: u64 = 900_000;

/// Venue similarity below this is an `Info` discrepancy.
pub const VENUE_MATCH_SIM: u64 = 700_000;

/// Minimum author overlap for a candidate to survive scoring when both
/// sides list authors.
pub const MIN_AUTHOR_OVERLAP: u64 = 300_000;

/// Maximum year difference for two entries to be considered compatible.
pub const MAX_YEAR_DIFFERENCE: i32 = 2;

/// Weight of the title similarity in the blended score, out of
/// [`WEIGHT_DENOM`].
pub const TITLE_WEIGHT: u64 = 7;

/// Weight of the author overlap in the blended score, out of
/// [`WEIGHT_DENOM`].
pub const AUTHOR_WEIGHT: u64 = 3;

/// Denominator of the blend weights.
pub const WEIGHT_DENOM: u64 = 10;

/// The similarity values the engine needs for one local/remote entry pair.
///
/// Every value is a similarity of *normalized* strings (see
/// [`crate::normalize_string`]) scaled by [`SIM_SCALE`]:
/// - `title_sim`: similarity of the normalized titles; meaningful only when
///   both entries carry a title.
/// - `venue_sim`: similarity of the normalized venues; meaningful only when
///   both entries carry a venue.
/// - `author_full[i][j]`: similarity of the normalized `i`-th local author
///   name and the normalized `j`-th remote author name.
/// - `author_last[i][j]`: similarity of the last tokens (see
///   [`crate::last_token_of`]) of those two normalized names.
pub struct SimInput {
    pub title_sim: u64,
    pub venue_sim: u64,
    pub author_full: Vec<Vec<u64>>,
    pub author_last: Vec<Vec<u64>>,
}

impl SimInput {
    /// Well-formedness for a pair with `n_local` local and `n_remote`
    /// remote authors: matrices of exactly that shape, every value within
    /// scale.
    pub open spec fn wf(self, n_local: int, n_remote: int) -> bool {
        &&& self.title_sim <= SIM_SCALE
        &&& self.venue_sim <= SIM_SCALE
        &&& self.author_full@.len() == n_local
        &&& self.author_last@.len() == n_local
        &&& forall|i: int|
            0 <= i < n_local ==> (#[trigger] self.author_full@[i])@.len() == n_remote
        &&& forall|i: int|
            0 <= i < n_local ==> (#[trigger] self.author_last@[i])@.len() == n_remote
        &&& forall|i: int, j: int|
            0 <= i < n_local && 0 <= j < n_remote ==> (#[trigger] self.author_full@[i]@[j])
                <= SIM_SCALE
        &&& forall|i: int, j: int|
            0 <= i < n_local && 0 <= j < n_remote ==> (#[trigger] self.author_last@[i]@[j])
                <= SIM_SCALE
    }
}

/// Title similarity of two entries: the supplied similarity of the
/// normalized titles, or zero when either title is unknown.
pub open spec fn spec_title_similarity(a: Entry, b: Entry, title_sim: u64) -> u64 {
    if a.title is Some && b.title is Some {
        title_sim
    } else {
        0
    }
}

/// Whether the publication years are close enough for a match: always when
/// either year is unknown, else within [`MAX_YEAR_DIFFERENCE`] inclusive.
pub open spec fn spec_years_compatible(a: Entry, b: Entry) -> bool {
    match (a.year, b.year) {
        (Some(ya), Some(yb)) => -(MAX_YEAR_DIFFERENCE as int) <= ya - yb
            <= MAX_YEAR_DIFFERENCE as int,
        _ => true,
    }
}

/// Whether the `i`-th local author has a matching remote author: some
/// column passes the full-name threshold or the last-name threshold.
pub open spec fn author_has_match(sims: SimInput, i: int) -> bool {
    exists|j: int|
        0 <= j < sims.author_full@[i]@.len() && (sims.author_full@[i]@[j] >= AUTHOR_MATCH_SIM
            || sims.author_last@[i]@[j] >= LAST_NAME_MATCH_SIM)
}

/// How many of the first `i` local authors have a matching remote author.
pub open spec fn matched_authors(sims: SimInput, i: int) -> int
    decreases i,
{
    if i <= 0 {
        0
    } else {
        matched_authors(sims, i - 1) + if author_has_match(sims, i - 1) {
            1int
        } else {
            0int
        }
    }
}

/// Author overlap of two entries: the fraction of local authors with a
/// match among the remote authors, in fixed point; one when either list is
/// empty (no signal, vacuously compatible).
pub open spec fn spec_author_overlap(local: Entry, remote: Entry, sims: SimInput) -> u64 {
    if local.authors@.len() == 0 || remote.authors@.len() == 0 {
        SIM_SCALE
    } else {
        (matched_authors(sims, local.authors@.len() as int) * SIM_SCALE / (local.authors@.len()
            as int)) as u64
    }
}

/// Title similarity of two entries, given the similarity `title_sim` of
/// their normalized titles.
pub fn title_similarity(a: &Entry, b: &Entry, title_sim: u64) -> (r: u64)
    ensures
        r == spec_title_similarity(*a, *b, title_sim),
        a.title is Some && b.title is Some ==> r == title_sim,
        a.title is None || b.title is None ==> r == 0,
{
    if a.title.is_some() && b.title.is_some() {
        title_sim
    } else {
        0
    }
}

/// Identical titles yield maximal similarity: when an entry is compared
/// with itself and the supplied similarity of its normalized title with
/// itself is maximal — which it is for any sound similarity metric — the
/// title similarity is maximal.
pub proof fn lemma_title_similarity_identical(e: Entry, sim: u64)
    requires
        e.title is Some,
        sim == SIM_SCALE,
    ensures
        spec_title_similarity(e, e, sim) == SIM_SCALE,
{
}

/// Whether the publication years are close enough for a match: true
/// whenever either year is unknown; with both years known, true exactly
/// when they differ by at most [`MAX_YEAR_DIFFERENCE`] in either
/// direction.
pub fn years_compatible(a: &Entry, b: &Entry) -> (r: bool)
    ensures
        r == spec_years_compatible(*a, *b),
        a.year is None || b.year is None ==> r,
        a.year matches Some(ya) && b.year matches Some(yb) && (ya - yb
            > MAX_YEAR_DIFFERENCE as int || ya - yb < -(MAX_YEAR_DIFFERENCE as int)) ==> !r,
        a.year matches Some(ya) && b.year matches Some(yb) && -(MAX_YEAR_DIFFERENCE as int) <= ya
            - yb <= MAX_YEAR_DIFFERENCE as int ==> r,
{
    match (a.year, b.year) {
        (Some(ya), Some(yb)) => {
            let d: i64 = ya as i64 - yb as i64;
            -(MAX_YEAR_DIFFERENCE as i64) <= d && d <= MAX_YEAR_DIFFERENCE as i64
        },
        _ => true,
    }
}

fn author_row_match(sims: &SimInput, i: usize, n_remote: usize) -> (r: bool)
    requires
        i < sims.author_full@.len(),
        i < sims.author_last@.len(),
        sims.author_full@[i as int]@.len() == n_remote,
        sims.author_last@[i as int]@.len() == n_remote,
    ensures
        r == author_has_match(*sims, i as int),
{
    let full: &Vec<u64> = &sims.author_full[i];
    let last: &Vec<u64> = &sims.author_last[i];
    let mut j: usize = 0;
    while j < n_remote
        invariant
            j <= n_remote,
            full@ == sims.author_full@[i as int]@,
            last@ == sims.author_last@[i as int]@,
            full@.len() == n_remote,
            last@.len() == n_remote,
            forall|k: int|
                0 <= k < j ==> !(sims.author_full@[i as int]@[k] >= AUTHOR_MATCH_SIM
                    || sims.author_last@[i as int]@[k] >= LAST_NAME_MATCH_SIM),
        decreases n_remote - j,
    {
        if full[j] >= AUTHOR_MATCH_SIM || last[j] >= LAST_NAME_MATCH_SIM {
            return true;
        }
        j = j + 1;
    }
    false
}

/// The fraction of local authors with a fuzzy match among the remote
/// authors, in fixed point; [`SIM_SCALE`] (vacuously compatible) when
/// either author list is empty.
pub fn author_overlap(local: &Entry, remote: &Entry, sims: &SimInput) -> (r: u64)
    requires
        sims.wf(local.authors@.len() as int, remote.authors@.len() as int),
    ensures
        r == spec_author_overlap(*local, *remote, *sims),
        r <= SIM_SCALE,
        local.authors@.len() == 0 || remote.authors@.len() == 0 ==> r == SIM_SCALE,
{
    let n_local = local.authors.len();
    let n_remote = remote.authors.len();
    if n_local == 0 || n_remote == 0 {
        return SIM_SCALE;
    }
    let mut matched: usize = 0;
    let mut i: usize = 0;
    while i < n_local
        invariant
            sims.wf(n_local as int, n_remote as int),
            i <= n_local,
            matched <= i,
            matched == matched_authors(*sims, i as int),
        decreases n_local - i,
    {
        if author_row_match(sims, i, n_remote) {
            matched = matched + 1;
        }
        i = i + 1;
    }
    let numerator: u128 = (matched as u128) * (SIM_SCALE as u128);
    let quotient: u128 = numerator / (n_local as u128);
    proof {
        lemma_mul_inequality(matched as int, n_local as int, SIM_SCALE as int);
        lemma_div_is_ordered(
            (matched as int) * (SIM_SCALE as int),
            (n_local as int) * (SIM_SCALE as int),
            n_local as int,
        );
        lemma_div_multiples_vanish_fancy(SIM_SCALE as int, 0, n_local as int);
        assert((n_local as int) * (SIM_SCALE as int) == (n_local as int) * (SIM_SCALE as int) + 0);
    }
    quotient as u64
}

/// Whether both entries carry a DOI and the two are equal under
/// case-insensitive comparison.
pub open spec fn spec_doi_match(a: Entry, b: Entry) -> bool {
    match (a.doi, b.doi) {
        (Some(da), Some(db)) => crate::text::lower_seq(da@) == crate::text::lower_seq(db@),
        _ => false,
    }
}

/// The combined match score of a target and a candidate entry: zero when a
/// hard filter rejects the pair, [`SIM_SCALE`] on a case-insensitive DOI
/// match, else a weighted blend of title similarity and author overlap.
pub open spec fn spec_match_score(target: Entry, candidate: Entry, sims: SimInput) -> u64 {
    let ts = spec_title_similarity(target, candidate, sims.title_sim);
    let ao = spec_author_overlap(target, candidate, sims);
    if ts < TITLE_MATCH_SIM {
        0
    } else if !spec_years_compatible(target, candidate) {
        0
    } else if target.authors@.len() > 0 && candidate.authors@.len() > 0 && ao < MIN_AUTHOR_OVERLAP {
        0
    } else if spec_doi_match(target, candidate) {
        SIM_SCALE
    } else {
        ((ts * TITLE_WEIGHT + ao * AUTHOR_WEIGHT) / (WEIGHT_DENOM as int)) as u64
    }
}

/// The combined match score of `target` against `candidate`.
///
/// Hard filters force a zero score: a title similarity below
/// [`TITLE_MATCH_SIM`], incompatible years, or (when both sides list
/// authors) an author overlap below [`MIN_AUTHOR_OVERLAP`]. A pair that
/// passes the filters scores [`SIM_SCALE`] outright when the DOIs match
/// case-insensitively, and otherwise the weighted blend of title
/// similarity and author overlap.
pub fn match_score(target: &Entry, candidate: &Entry, sims: &SimInput) -> (r: u64)
    requires
        sims.wf(target.authors@.len() as int, candidate.authors@.len() as int),
    ensures
        r == spec_match_score(*target, *candidate, *sims),
        r <= SIM_SCALE,
        spec_title_similarity(*target, *candidate, sims.title_sim) < TITLE_MATCH_SIM ==> r == 0,
        !spec_years_compatible(*target, *candidate) ==> r == 0,
        target.authors@.len() > 0 && candidate.authors@.len() > 0 && spec_author_overlap(
            *target,
            *candidate,
            *sims,
        ) < MIN_AUTHOR_OVERLAP ==> r == 0,
        spec_title_similarity(*target, *candidate, sims.title_sim) >= TITLE_MATCH_SIM
            && spec_years_compatible(*target, *candidate) && !(target.authors@.len() > 0
            && candidate.authors@.len() > 0 && spec_author_overlap(*target, *candidate, *sims)
            < MIN_AUTHOR_OVERLAP) && spec_doi_match(*target, *candidate) ==> r == SIM_SCALE,
{
    let ts = title_similarity(target, candidate, sims.title_sim);
    if ts < TITLE_MATCH_SIM {
        return 0;
    }
    if !years_compatible(target, candidate) {
        return 0;
    }
    let ao = author_overlap(target, candidate, sims);
    if target.authors.len() > 0 && candidate.authors.len() > 0 && ao < MIN_AUTHOR_OVERLAP {
        return 0;
    }
    let doi_matches = match (&target.doi, &candidate.doi) {
        (Some(da), Some(db)) => crate::text::eq_ignore_case(da.as_str(), db.as_str()),
        _ => false,
    };
    if doi_matches {
        return SIM_SCALE;
    }
    proof {
        lemma_div_is_ordered(
            (ts * TITLE_WEIGHT + ao * AUTHOR_WEIGHT) as int,
            (SIM_SCALE * WEIGHT_DENOM) as int,
            WEIGHT_DENOM as int,
        );
    }
    (ts * TITLE_WEIGHT + ao * AUTHOR_WEIGHT) / WEIGHT_DENOM
}

/// The score of the `i`-th candidate against `target`.
pub open spec fn spec_candidate_score(
    target: Entry,
    candidates: Seq<Entry>,
    sims: Seq<SimInput>,
    i: int,
) -> u64 {
    spec_match_score(target, candidates[i], sims[i])
}

/// The best-scoring candidate: the index and score of the first candidate
/// attaining the maximum positive score, or `None` when every candidate is
/// rejected (scores zero).
pub fn find_best_match(target: &Entry, candidates: &Vec<Entry>, sims: &Vec<SimInput>) -> (r: Option<
    (usize, u64),
>)
    requires
        sims@.len() == candidates@.len(),
        forall|i: int|
            0 <= i < candidates@.len() ==> (#[trigger] sims@[i]).wf(
                target.authors@.len() as int,
                candidates@[i].authors@.len() as int,
            ),
    ensures
        r is None <==> (forall|i: int|
            0 <= i < candidates@.len() ==> #[trigger] spec_candidate_score(
                *target,
                candidates@,
                sims@,
                i,
            ) == 0),
        r matches Some((best, score)) ==> {
            &&& 0 <= best < candidates@.len()
            &&& score == spec_candidate_score(*target, candidates@, sims@, best as int)
            &&& score > 0
            &&& forall|j: int|
                0 <= j < candidates@.len() ==> #[trigger] spec_candidate_score(
                    *target,
                    candidates@,
                    sims@,
                    j,
                ) <= score
            &&& forall|j: int|
                0 <= j < best ==> #[trigger] spec_candidate_score(*target, candidates@, sims@, j)
                    < score
        },
{
    let n = candidates.len();
    let mut have: bool = false;
    let mut best_i: usize = 0;
    let mut best_s: u64 = 0;
    let mut i: usize = 0;
    while i < n
        invariant
            n == candidates@.len(),
            sims@.len() == candidates@.len(),
            forall|k: int|
                0 <= k < candidates@.len() ==> (#[trigger] sims@[k]).wf(
                    target.authors@.len() as int,
                    candidates@[k].authors@.len() as int,
                ),
            i <= n,
            !have ==> (forall|j: int|
                0 <= j < i ==> #[trigger] spec_candidate_score(*target, candidates@, sims@, j)
                    == 0),
            have ==> {
                &&& best_i < i
                &&& best_s == spec_candidate_score(*target, candidates@, sims@, best_i as int)
                &&& best_s > 0
                &&& forall|j: int|
                    0 <= j < i ==> #[trigger] spec_candidate_score(*target, candidates@, sims@, j)
                        <= best_s
                &&& forall|j: int|
                    0 <= j < best_i ==> #[trigger] spec_candidate_score(
                        *target,
                        candidates@,
                        sims@,
                        j,
                    ) < best_s
            },
        decreases n - i,
    {
        let s = match_score(target, &candidates[i], &sims[i]);
        if s > 0 && (!have || s > best_s) {
            have = true;
            best_i = i;
            best_s = s;
        }
        i = i + 1;
    }
    if have {
        Some((best_i, best_s))
    } else {
        None
    }
}

/// The similarity as a percentage, rounded to the nearest whole number,
/// as it is embedded in discrepancy messages.
pub open spec fn percent_of(sim: u64) -> int {
    (sim + 5000) / 10000
}

/// The title discrepancies for one pair: nothing unless both entries carry
/// a title; an `Error` below [`TITLE_MATCH_SIM`]; a `Warning` below
/// [`TITLE_WARNING_SIM`].
pub open spec fn title_discs(local: Entry, remote: Entry, ts: u64) -> Seq<DiscrepancyView> {
    match (local.title, remote.title) {
        (Some(lt), Some(rt)) => if ts < TITLE_MATCH_SIM {
            seq![
                DiscrepancyView {
                    field: DiscrepancyField::Title,
                    severity: Severity::Error,
                    local_value: lt@,
                    remote_value: rt@,
                    message: "Title significantly different (similarity: "@ + dec_digits(
                        percent_of(ts),
                    ) + "%)"@,
                },
            ]
        } else if ts < TITLE_WARNING_SIM {
            seq![
                DiscrepancyView {
                    field: DiscrepancyField::Title,
                    severity: Severity::Warning,
                    local_value: lt@,
                    remote_value: rt@,
                    message: "Title slightly different (similarity: "@ + dec_digits(
                        percent_of(ts),
                    ) + "%)"@,
                },
            ]
        } else {
            Seq::<DiscrepancyView>::empty()
        },
        _ => Seq::<DiscrepancyView>::empty(),
    }
}

/// The year discrepancy for one pair: an `Error` when both years are known
/// and differ.
pub open spec fn year_discs(local: Entry, remote: Entry) -> Seq<DiscrepancyView> {
    match (local.year, remote.year) {
        (Some(ly), Some(ry)) => if ly != ry {
            seq![
                DiscrepancyView {
                    field: DiscrepancyField::Year,
                    severity: Severity::Error,
                    local_value: int_digits(ly as int),
                    remote_value: int_digits(ry as int),
                    message: "Year mismatch: "@ + int_digits(ly as int) + " vs "@ + int_digits(
                        ry as int,
                    ),
                },
            ]
        } else {
            Seq::<DiscrepancyView>::empty()
        },
        _ => Seq::<DiscrepancyView>::empty(),
    }
}

/// The author-count discrepancy: a `Warning` when the list lengths differ.
pub open spec fn author_count_discs(local: Entry, remote: Entry) -> Seq<DiscrepancyView> {
    let nl = local.authors@.len() as int;
    let nr = remote.authors@.len() as int;
    if nl != nr {
        seq![
            DiscrepancyView {
                field: DiscrepancyField::Authors,
                severity: Severity::Warning,
                local_value: dec_digits(nl) + " authors"@,
                remote_value: dec_digits(nr) + " authors"@,
                message: "Author count differs: "@ + dec_digits(nl) + " (local) vs "@ + dec_digits(
                    nr,
                ) + " (remote)"@,
            },
        ]
    } else {
        Seq::<DiscrepancyView>::empty()
    }
}

/// The index of the remote author most similar to a local author, among
/// the first `n` columns of its similarity row; ties go to the earliest
/// index (only strictly greater similarities advance the best).
pub open spec fn best_remote_index(row: Seq<u64>, n: int) -> int
    decreases n,
{
    if n <= 1 {
        0
    } else {
        let b = best_remote_index(row, n - 1);
        if row[n - 1] > row[b] {
            n - 1
        } else {
            b
        }
    }
}

/// The spelling discrepancy for the `i`-th local author: a `Warning`
/// naming it and its best remote counterpart when even the best full-name
/// similarity stays below [`AUTHOR_MATCH_SIM`].
pub open spec fn author_name_disc(
    local: Entry,
    remote: Entry,
    sims: SimInput,
    i: int,
) -> Seq<DiscrepancyView> {
    let row = sims.author_full@[i]@;
    let b = best_remote_index(row, remote.authors@.len() as int);
    if row[b] < AUTHOR_MATCH_SIM {
        seq![
            DiscrepancyView {
                field: DiscrepancyField::Authors,
                severity: Severity::Warning,
                local_value: local.authors@[i]@,
                remote_value: remote.authors@[b]@,
                message: "Author name spelling may differ: '"@ + local.authors@[i]@ + "' vs '"@
                    + remote.authors@[b]@ + "'"@,
            },
        ]
    } else {
        Seq::<DiscrepancyView>::empty()
    }
}

/// The spelling discrepancies of the first `i` local authors, in order.
pub open spec fn author_name_discs(
    local: Entry,
    remote: Entry,
    sims: SimInput,
    i: int,
) -> Seq<DiscrepancyView>
    decreases i,
{
    if i <= 0 {
        Seq::<DiscrepancyView>::empty()
    } else {
        author_name_discs(local, remote, sims, i - 1) + author_name_disc(local, remote, sims, i - 1)
    }
}

/// All author discrepancies: nothing when either list is empty, else the
/// count mismatch followed by the per-author spelling warnings.
pub open spec fn author_discs(local: Entry, remote: Entry, sims: SimInput) -> Seq<DiscrepancyView> {
    if local.authors@.len() == 0 || remote.authors@.len() == 0 {
        Seq::<DiscrepancyView>::empty()
    } else {
        author_count_discs(local, remote) + author_name_discs(
            local,
            remote,
            sims,
            local.authors@.len() as int,
        )
    }
}

/// The DOI discrepancy: a `Warning` flagging a gap in local metadata when
/// only the remote entry carries a DOI. The asymmetry is intentional: the
/// engine prompts enrichment of the local record, never removal of
/// remote-only data.
pub open spec fn doi_discs(local: Entry, remote: Entry) -> Seq<DiscrepancyView> {
    match (local.doi, remote.doi) {
        (None, Some(rd)) => seq![
            DiscrepancyView {
                field: DiscrepancyField::Doi,
                severity: Severity::Warning,
                local_value: "(none)"@,
                remote_value: rd@,
                message: "Missing DOI in local entry"@,
            },
        ],
        _ => Seq::<DiscrepancyView>::empty(),
    }
}

/// The venue discrepancy: never more than `Info`, and only when both
/// venues are known and their similarity falls below [`VENUE_MATCH_SIM`].
pub open spec fn venue_discs(local: Entry, remote: Entry, vs: u64) -> Seq<DiscrepancyView> {
    match (local.venue, remote.venue) {
        (Some(lv), Some(rv)) => if vs < VENUE_MATCH_SIM {
            seq![
                DiscrepancyView {
                    field: DiscrepancyField::Venue,
                    severity: Severity::Info,
                    local_value: lv@,
                    remote_value: rv@,
                    message: "Venue name differs"@,
                },
            ]
        } else {
            Seq::<DiscrepancyView>::empty()
        },
        _ => Seq::<DiscrepancyView>::empty(),
    }
}

/// Every discrepancy of one local/remote pair, in the fixed field order:
/// title, year, authors (count mismatch first, then each flagged author),
/// DOI, venue.
pub open spec fn spec_compare_entries(
    local: Entry,
    remote: Entry,
    sims: SimInput,
) -> Seq<DiscrepancyView> {
    title_discs(local, remote, sims.title_sim) + year_discs(local, remote) + author_discs(
        local,
        remote,
        sims,
    ) + doi_discs(local, remote) + venue_discs(local, remote, sims.venue_sim)
}

/// The discrepancy records in `ds` render exactly the model `m`.
spec fn dmatch(ds: Seq<Discrepancy>, m: Seq<DiscrepancyView>) -> bool {
    ds.len() == m.len() && forall|k: int| 0 <= k < ds.len() ==> (#[trigger] ds[k])@ == m[k]
}

fn compare_authors(local: &Entry, remote: &Entry, sims: &SimInput) -> (r: Vec<Discrepancy>)
    requires
        sims.wf(local.authors@.len() as int, remote.authors@.len() as int),
    ensures
        dmatch(r@, author_discs(*local, *remote, *sims)),
{
    let mut discrepancies: Vec<Discrepancy> = Vec::new();
    let n_local = local.authors.len();
    let n_remote = remote.authors.len();
    if n_local == 0 || n_remote == 0 {
        return discrepancies;
    }
    if n_local != n_remote {
        let mut lv = crate::text::u64_to_string(n_local as u64);
        lv.append(" authors");
        let mut rv = crate::text::u64_to_string(n_remote as u64);
        rv.append(" authors");
        let mut message = String::from_str("Author count differs: ");
        push_dec_u64(&mut message, n_local as u64);
        message.append(" (local) vs ");
        push_dec_u64(&mut message, n_remote as u64);
        message.append(" (remote)");
        discrepancies.push(
            Discrepancy {
                field: DiscrepancyField::Authors,
                severity: Severity::Warning,
                local_value: lv,
                remote_value: rv,
                message,
            },
        );
    }
    assert(dmatch(discrepancies@, author_count_discs(*local, *remote)));
    let mut i: usize = 0;
    while i < n_local
        invariant
            sims.wf(n_local as int, n_remote as int),
            n_local == local.authors@.len(),
            n_remote == remote.authors@.len(),
            1 <= n_remote,
            i <= n_local,
            dmatch(
                discrepancies@,
                author_count_discs(*local, *remote) + author_name_discs(
                    *local,
                    *remote,
                    *sims,
                    i as int,
                ),
            ),
        decreases n_local - i,
    {
        let row: &Vec<u64> = &sims.author_full[i];
        let mut best_j: usize = 0;
        let mut k: usize = 1;
        while k < n_remote
            invariant
                row@ == sims.author_full@[i as int]@,
                row@.len() == n_remote,
                1 <= k <= n_remote,
                best_j < k,
                best_j as int == best_remote_index(row@, k as int),
            decreases n_remote - k,
        {
            if row[k] > row[best_j] {
                best_j = k;
            }
            k = k + 1;
        }
        if row[best_j] < AUTHOR_MATCH_SIM {
            let local_author: &String = &local.authors[i];
            let remote_author: &String = &remote.authors[best_j];
            let mut message = String::from_str("Author name spelling may differ: '");
            message.append(local_author.as_str());
            message.append("' vs '");
            message.append(remote_author.as_str());
            message.append("'");
            discrepancies.push(
                Discrepancy {
                    field: DiscrepancyField::Authors,
                    severity: Severity::Warning,
                    local_value: local_author.clone(),
                    remote_value: remote_author.clone(),
                    message,
                },
            );
        }
        i = i + 1;
        proof {
            assert(author_name_discs(*local, *remote, *sims, i as int) == author_name_discs(
                *local,
                *remote,
                *sims,
                i - 1,
            ) + author_name_disc(*local, *remote, *sims, i - 1));
            assert(dmatch(
                discrepancies@,
                author_count_discs(*local, *remote) + author_name_discs(
                    *local,
                    *remote,
                    *sims,
                    i as int,
                ),
            ));
        }
    }
    discrepancies
}

/// Compare a local entry against a remote entry and list every detected
/// discrepancy, given the similarities of the normalized field values.
pub fn compare_entries(local: &Entry, remote: &Entry, sims: &SimInput) -> (r: Vec<Discrepancy>)
    requires
        sims.wf(local.authors@.len() as int, remote.authors@.len() as int),
    ensures
        r.deep_view() == spec_compare_entries(*local, *remote, *sims),
{
    let mut discrepancies: Vec<Discrepancy> = Vec::new();

    // Titles
    match (&local.title, &remote.title) {
        (Some(local_title), Some(remote_title)) => {
            let ts = sims.title_sim;
            if ts < TITLE_MATCH_SIM {
                let mut message = String::from_str(
                    "Title significantly different (similarity: ",
                );
                push_dec_u64(&mut message, (ts + 5000) / 10000);
                message.append("%)");
                discrepancies.push(
                    Discrepancy {
                        field: DiscrepancyField::Title,
                        severity: Severity::Error,
                        local_value: local_title.clone(),
                        remote_value: remote_title.clone(),
                        message,
                    },
                );
            } else if ts < TITLE_WARNING_SIM {
                let mut message = String::from_str("Title slightly different (similarity: ");
                push_dec_u64(&mut message, (ts + 5000) / 10000);
                message.append("%)");
                discrepancies.push(
                    Discrepancy {
                        field: DiscrepancyField::Title,
                        severity: Severity::Warning,
                        local_value: local_title.clone(),
                        remote_value: remote_title.clone(),
                        message,
                    },
                );
            }
        },
        _ => {},
    }
    let ghost m1 = title_discs(*local, *remote, sims.title_sim);
    assert(dmatch(discrepancies@, m1));

    // Years
    match (local.year, remote.year) {
        (Some(local_year), Some(remote_year)) => {
            if local_year != remote_year {
                let mut message = String::from_str("Year mismatch: ");
                push_dec_i32(&mut message, local_year);
                message.append(" vs ");
                push_dec_i32(&mut message, remote_year);
                discrepancies.push(
                    Discrepancy {
                        field: DiscrepancyField::Year,
                        severity: Severity::Error,
                        local_value: crate::text::i32_to_string(local_year),
                        remote_value: crate::text::i32_to_string(remote_year),
                        message,
                    },
                );
            }
        },
        _ => {},
    }
    let ghost m2 = m1 + year_discs(*local, *remote);
    assert(dmatch(discrepancies@, m2));

    // Authors
    let mut author_issues = compare_authors(local, remote, sims);
    discrepancies.append(&mut author_issues);
    let ghost m3 = m2 + author_discs(*local, *remote, *sims);
    assert(dmatch(discrepancies@, m3));

    // Missing DOI in the local entry
    match (&local.doi, &remote.doi) {
        (None, Some(remote_doi)) => {
            discrepancies.push(
                Discrepancy {
                    field: DiscrepancyField::Doi,
                    severity: Severity::Warning,
                    local_value: String::from_str("(none)"),
                    remote_value: remote_doi.clone(),
                    message: String::from_str("Missing DOI in local entry"),
                },
            );
        },
        _ => {},
    }
    let ghost m4 = m3 + doi_discs(*local, *remote);
    assert(dmatch(discrepancies@, m4));

    // Venues
    match (&local.venue, &remote.venue) {
        (Some(local_venue), Some(remote_venue)) => {
            if sims.venue_sim < VENUE_MATCH_SIM {
                discrepancies.push(
                    Discrepancy {
                        field: DiscrepancyField::Venue,
                        severity: Severity::Info,
                        local_value: local_venue.clone(),
                        remote_value: remote_venue.clone(),
                        message: String::from_str("Venue name differs"),
                    },
                );
            }
        },
        _ => {},
    }
    let ghost m5 = m4 + venue_discs(*local, *remote, sims.venue_sim);
    assert(dmatch(discrepancies@, m5));

    proof {
        let m = spec_compare_entries(*local, *remote, *sims);
        assert forall|k: int| 0 <= k < m.len() implies discrepancies.deep_view()[k] == m[k] by {
            assert(discrepancies@[k]@ == m5[k]);
        }
        assert(discrepancies.deep_view() =~= m);
    }
    discrepancies
}

} // verus!
