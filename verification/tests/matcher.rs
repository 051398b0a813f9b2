use bibval::{
    author_overlap, compare_entries, find_best_match, last_token_of, match_score,
    normalize_string, title_similarity, years_compatible, DiscrepancyField, Entry, Severity,
    SimInput, SIM_SCALE,
};

fn ppm(x: f64) -> u64 {
    (x * 1_000_000.0).round() as u64
}

fn sim(a: &str, b: &str) -> u64 {
    ppm(strsim::jaro_winkler(a, b))
}

/// Builds the similarity input for a pair of entries the way a caller of
/// the engine does: every similarity is taken over normalized strings, and
/// the last-name matrix over the final tokens of the normalized names.
fn sims_for(local: &Entry, remote: &Entry) -> SimInput {
    let title_sim = match (&local.title, &remote.title) {
        (Some(a), Some(b)) => sim(&normalize_string(a), &normalize_string(b)),
        _ => 0,
    };
    let venue_sim = match (&local.venue, &remote.venue) {
        (Some(a), Some(b)) => sim(&normalize_string(a), &normalize_string(b)),
        _ => 0,
    };
    let mut author_full = Vec::new();
    let mut author_last = Vec::new();
    for la in &local.authors {
        let ln = normalize_string(la);
        let ll = last_token_of(&ln);
        let mut full_row = Vec::new();
        let mut last_row = Vec::new();
        for ra in &remote.authors {
            let rn = normalize_string(ra);
            full_row.push(sim(&ln, &rn));
            last_row.push(sim(&ll, &last_token_of(&rn)));
        }
        author_full.push(full_row);
        author_last.push(last_row);
    }
    SimInput { title_sim, venue_sim, author_full, author_last }
}

fn entry(id: &str, kind: &str) -> Entry {
    Entry::new(id.to_string(), kind.to_string())
}

#[test]
fn test_title_similarity() {
    let mut a = entry("a", "article");
    a.title = Some("Deep Learning for Image Classification".to_string());

    let mut b = entry("b", "article");
    b.title = Some("Deep Learning for Image Classification".to_string());

    let s = sims_for(&a, &b).title_sim;
    assert!(title_similarity(&a, &b, s) > 990_000);

    b.title = Some("Deep Learning for Image Recognition".to_string());
    let s = sims_for(&a, &b).title_sim;
    assert!(title_similarity(&a, &b, s) > 850_000);

    b.title = Some("Quantum Computing in Finance".to_string());
    let s = sims_for(&a, &b).title_sim;
    assert!(title_similarity(&a, &b, s) < 700_000);
}

#[test]
fn test_year_mismatch() {
    let mut local = entry("test", "article");
    local.title = Some("Test Paper".to_string());
    local.year = Some(2021);

    let mut remote = entry("test", "article");
    remote.title = Some("Test Paper".to_string());
    remote.year = Some(2020);

    let sims = sims_for(&local, &remote);
    let discrepancies = compare_entries(&local, &remote, &sims);
    assert!(discrepancies.iter().any(|d| d.field == DiscrepancyField::Year));
}

#[test]
fn test_normalize_string() {
    assert_eq!(
        normalize_string("  Deep  Learning, for IMAGE: Classification! "),
        "deep learning for image classification"
    );
    assert_eq!(normalize_string(""), "");
    assert_eq!(normalize_string("...!?"), "");
    assert_eq!(normalize_string("J. Smith"), "j smith");
}

#[test]
fn test_last_token() {
    assert_eq!(last_token_of("john smith"), "smith");
    assert_eq!(last_token_of("smith"), "smith");
    assert_eq!(last_token_of(""), "");
}

#[test]
fn test_title_similarity_identical_is_maximal() {
    let mut a = entry("a", "article");
    a.title = Some("A Study of Things".to_string());
    let b = a.clone();
    let s = sims_for(&a, &b).title_sim;
    assert_eq!(s, SIM_SCALE);
    assert_eq!(title_similarity(&a, &b, s), SIM_SCALE);
}

#[test]
fn test_title_similarity_absent_is_zero() {
    let mut a = entry("a", "article");
    a.title = Some("A Study of Things".to_string());
    let b = entry("b", "article");
    assert_eq!(title_similarity(&a, &b, 999_999), 0);
}

#[test]
fn test_years_compatible_cases() {
    let mut a = entry("a", "article");
    let mut b = entry("b", "article");

    // Either year absent: never a filtering signal.
    assert!(years_compatible(&a, &b));
    a.year = Some(2020);
    assert!(years_compatible(&a, &b));

    // Difference beyond two in either direction: incompatible.
    b.year = Some(2023);
    assert!(!years_compatible(&a, &b));
    b.year = Some(2017);
    assert!(!years_compatible(&a, &b));

    // Within the inclusive tolerance: compatible.
    b.year = Some(2022);
    assert!(years_compatible(&a, &b));
    b.year = Some(2018);
    assert!(years_compatible(&a, &b));
    b.year = Some(2020);
    assert!(years_compatible(&a, &b));
}

#[test]
fn test_author_overlap_empty_list() {
    let mut a = entry("a", "article");
    let mut b = entry("b", "article");
    let sims = sims_for(&a, &b);
    assert_eq!(author_overlap(&a, &b, &sims), SIM_SCALE);

    a.authors = vec!["John Smith".to_string()];
    let sims = sims_for(&a, &b);
    assert_eq!(author_overlap(&a, &b, &sims), SIM_SCALE);

    a.authors = Vec::new();
    b.authors = vec!["Amy Lee".to_string()];
    let sims = sims_for(&a, &b);
    assert_eq!(author_overlap(&a, &b, &sims), SIM_SCALE);
}

#[test]
fn test_author_overlap_last_name_match() {
    let mut local = entry("l", "article");
    local.authors = vec!["John Smith".to_string(), "Amy Lee".to_string()];
    let mut remote = entry("r", "article");
    remote.authors = vec![
        "J. Smith".to_string(),
        "Amy Lee".to_string(),
        "Kim Park".to_string(),
    ];
    let sims = sims_for(&local, &remote);
    // "John Smith" matches "J. Smith" through the last-name rule, and
    // "Amy Lee" matches exactly, so every local author has a match.
    assert_eq!(author_overlap(&local, &remote, &sims), SIM_SCALE);
}

#[test]
fn test_author_overlap_fraction() {
    let mut local = entry("l", "article");
    local.authors = vec!["John Smith".to_string(), "Amy Lee".to_string()];
    let mut remote = entry("r", "article");
    remote.authors = vec!["Amy Lee".to_string()];
    let sims = sims_for(&local, &remote);
    // One of two local authors has a match.
    assert_eq!(author_overlap(&local, &remote, &sims), SIM_SCALE / 2);
}

#[test]
fn test_compare_entries_author_warnings() {
    let mut local = entry("l", "article");
    local.title = Some("Test Paper".to_string());
    local.authors = vec!["John Smith".to_string(), "Amy Lee".to_string()];
    let mut remote = entry("r", "article");
    remote.title = Some("Test Paper".to_string());
    remote.authors = vec![
        "J. Smith".to_string(),
        "Amy Lee".to_string(),
        "Kim Park".to_string(),
    ];
    let sims = sims_for(&local, &remote);
    let ds = compare_entries(&local, &remote, &sims);

    let author_ds: Vec<_> =
        ds.iter().filter(|d| d.field == DiscrepancyField::Authors).collect();
    assert_eq!(author_ds.len(), 2);

    // The count mismatch comes first.
    assert_eq!(author_ds[0].severity, Severity::Warning);
    assert_eq!(author_ds[0].local_value, "2 authors");
    assert_eq!(author_ds[0].remote_value, "3 authors");
    assert_eq!(
        author_ds[0].message,
        "Author count differs: 2 (local) vs 3 (remote)"
    );

    // "John Smith" vs its best counterpart "J. Smith" stays below the
    // full-name threshold, so it is flagged; "Amy Lee" matches exactly.
    assert_eq!(author_ds[1].severity, Severity::Warning);
    assert_eq!(author_ds[1].local_value, "John Smith");
    assert_eq!(author_ds[1].remote_value, "J. Smith");
    assert!(!ds.iter().any(|d| d.local_value == "Amy Lee"));
}

#[test]
fn test_match_score_hard_filters() {
    // Dissimilar titles force a zero score.
    let mut a = entry("a", "article");
    a.title = Some("Deep Learning for Image Classification".to_string());
    let mut b = entry("b", "article");
    b.title = Some("Quantum Computing in Finance".to_string());
    let sims = sims_for(&a, &b);
    assert_eq!(match_score(&a, &b, &sims), 0);

    // Incompatible years force a zero score even with identical titles.
    b.title = a.title.clone();
    a.year = Some(2021);
    b.year = Some(2010);
    let sims = sims_for(&a, &b);
    assert_eq!(match_score(&a, &b, &sims), 0);

    // Disjoint author lists force a zero score.
    b.year = Some(2021);
    a.authors = vec!["John Smith".to_string()];
    b.authors = vec!["Kim Park".to_string()];
    let sims = sims_for(&a, &b);
    assert_eq!(author_overlap(&a, &b, &sims), 0);
    assert_eq!(match_score(&a, &b, &sims), 0);
}

#[test]
fn test_match_score_doi_shortcut() {
    let mut a = entry("a", "article");
    a.title = Some("Some Paper".to_string());
    a.doi = Some("10.1/ABC".to_string());
    let mut b = entry("b", "article");
    b.title = Some("Some Paper".to_string());
    b.doi = Some("10.1/abc".to_string());

    // A title similarity inside the acceptance band, so that the blended
    // score would stay below the maximum.
    let sims = SimInput {
        title_sim: 860_000,
        venue_sim: 0,
        author_full: Vec::new(),
        author_last: Vec::new(),
    };
    // Case-insensitively equal DOIs short-circuit to a perfect score.
    assert_eq!(match_score(&a, &b, &sims), SIM_SCALE);

    // Without the DOI match the same pair gets the weighted blend:
    // 0.86 * 0.7 + 1.0 * 0.3 (vacuous author overlap) = 0.902.
    b.doi = Some("10.1/xyz".to_string());
    assert_eq!(match_score(&a, &b, &sims), 902_000);

    // The shortcut does not override the hard filters: with a rejected
    // title the score is zero despite the equal DOIs.
    b.doi = Some("10.1/abc".to_string());
    let low = SimInput {
        title_sim: 500_000,
        venue_sim: 0,
        author_full: Vec::new(),
        author_last: Vec::new(),
    };
    assert_eq!(match_score(&a, &b, &low), 0);
}

#[test]
fn test_find_best_match() {
    let mut target = entry("t", "article");
    target.title = Some("Deep Learning for Image Classification".to_string());

    // Every candidate rejected: no match.
    let mut far = entry("c0", "article");
    far.title = Some("Quantum Computing in Finance".to_string());
    let candidates = vec![far.clone()];
    let sims = candidates.iter().map(|c| sims_for(&target, c)).collect();
    assert_eq!(find_best_match(&target, &candidates, &sims), None);

    // The best-scoring candidate wins.
    let mut near = entry("c1", "article");
    near.title = Some("Deep Learning for Image Recognition".to_string());
    let mut exact = entry("c2", "article");
    exact.title = Some("Deep Learning for Image Classification".to_string());
    let candidates = vec![far.clone(), near.clone(), exact.clone()];
    let sims: Vec<SimInput> = candidates.iter().map(|c| sims_for(&target, c)).collect();
    let (best, score) = find_best_match(&target, &candidates, &sims).unwrap();
    assert_eq!(best, 2);
    assert_eq!(score, SIM_SCALE);

    // Ties go to the first candidate encountered.
    let candidates = vec![far, exact.clone(), exact];
    let sims: Vec<SimInput> = candidates.iter().map(|c| sims_for(&target, c)).collect();
    let (best, score) = find_best_match(&target, &candidates, &sims).unwrap();
    assert_eq!(best, 1);
    assert_eq!(score, SIM_SCALE);
}

#[test]
fn test_title_warning_band() {
    let mut local = entry("l", "article");
    local.title = Some("Deep Learning for Image Classification".to_string());
    let mut remote = entry("r", "article");
    remote.title = Some("Deep Learning for Image Recognition".to_string());

    // With the real metric this pair lands above the warning band, so no
    // title discrepancy is reported.
    let sims = sims_for(&local, &remote);
    assert!(sims.title_sim > 900_000);
    let ds = compare_entries(&local, &remote, &sims);
    assert!(!ds.iter().any(|d| d.field == DiscrepancyField::Title));

    // A similarity inside the warning band yields exactly one Warning.
    let banded = SimInput {
        title_sim: 870_000,
        venue_sim: 0,
        author_full: Vec::new(),
        author_last: Vec::new(),
    };
    let ds = compare_entries(&local, &remote, &banded);
    assert_eq!(ds.len(), 1);
    assert_eq!(ds[0].field, DiscrepancyField::Title);
    assert_eq!(ds[0].severity, Severity::Warning);
    assert_eq!(ds[0].message, "Title slightly different (similarity: 87%)");

    // A similarity below the acceptance threshold yields exactly one Error.
    let low = SimInput {
        title_sim: 500_000,
        venue_sim: 0,
        author_full: Vec::new(),
        author_last: Vec::new(),
    };
    let ds = compare_entries(&local, &remote, &low);
    assert_eq!(ds.len(), 1);
    assert_eq!(ds[0].field, DiscrepancyField::Title);
    assert_eq!(ds[0].severity, Severity::Error);
    assert_eq!(ds[0].message, "Title significantly different (similarity: 50%)");
}

#[test]
fn test_year_error_message() {
    let mut local = entry("l", "article");
    local.title = Some("Test Paper".to_string());
    local.year = Some(2021);
    let mut remote = entry("r", "article");
    remote.title = Some("Test Paper".to_string());
    remote.year = Some(2020);

    let sims = sims_for(&local, &remote);
    let ds = compare_entries(&local, &remote, &sims);
    // Exactly one discrepancy: the year error; the identical titles raise
    // no title discrepancy.
    assert_eq!(ds.len(), 1);
    assert_eq!(ds[0].field, DiscrepancyField::Year);
    assert_eq!(ds[0].severity, Severity::Error);
    assert_eq!(ds[0].local_value, "2021");
    assert_eq!(ds[0].remote_value, "2020");
    assert_eq!(ds[0].message, "Year mismatch: 2021 vs 2020");
}

#[test]
fn test_doi_missing_warning() {
    let local = entry("l", "article");
    let mut remote = entry("r", "article");
    remote.doi = Some("10.1/ABC".to_string());

    let sims = sims_for(&local, &remote);
    let ds = compare_entries(&local, &remote, &sims);
    assert_eq!(ds.len(), 1);
    assert_eq!(ds[0].field, DiscrepancyField::Doi);
    assert_eq!(ds[0].severity, Severity::Warning);
    assert_eq!(ds[0].local_value, "(none)");
    assert_eq!(ds[0].remote_value, "10.1/ABC");
    assert_eq!(ds[0].message, "Missing DOI in local entry");

    // The asymmetric cases raise nothing.
    let ds = compare_entries(&remote, &local, &sims_for(&remote, &local));
    assert!(ds.is_empty());
}

#[test]
fn test_venue_info() {
    let mut local = entry("l", "article");
    local.venue = Some("NeurIPS".to_string());
    let mut remote = entry("r", "article");
    remote.venue = Some("International Conference on Machine Learning".to_string());

    let sims = sims_for(&local, &remote);
    let ds = compare_entries(&local, &remote, &sims);
    assert_eq!(ds.len(), 1);
    assert_eq!(ds[0].field, DiscrepancyField::Venue);
    assert_eq!(ds[0].severity, Severity::Info);
    assert_eq!(ds[0].message, "Venue name differs");

    // Identical venues raise nothing.
    remote.venue = local.venue.clone();
    let ds = compare_entries(&local, &remote, &sims_for(&local, &remote));
    assert!(ds.is_empty());
}

#[test]
fn test_year_from_epoch_millis() {
    assert_eq!(bibval::year_from_epoch_millis(0), 1970);
    // 2023-01-01 in epoch milliseconds; the 365-day-year approximation
    // still lands in 2023.
    assert_eq!(bibval::year_from_epoch_millis(1_672_531_200_000), 2023);
}

#[test]
fn test_number_rendering() {
    assert_eq!(bibval::u64_to_string(0), "0");
    assert_eq!(bibval::u64_to_string(42), "42");
    assert_eq!(bibval::u64_to_string(1_000_000), "1000000");
    assert_eq!(bibval::i32_to_string(2021), "2021");
    assert_eq!(bibval::i32_to_string(-7), "-7");
    assert_eq!(bibval::i32_to_string(0), "0");
}
