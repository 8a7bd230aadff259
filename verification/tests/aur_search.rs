use deploytix::aur::search::{
    popularity_bonus, rank, score_one, RankedHit, SearchHit, BAND_EXACT, BAND_NAME_FUZZY,
    POPULARITY_CAP,
};

/// A thousand times the natural logarithm of one more than the popularity.
fn scaled(popularity: f64) -> i64 {
    if popularity <= 0.0 {
        return 0;
    }
    ((popularity + 1.0).ln() * 1000.0) as i64
}

fn hit(name: &str, description: &str, popularity: f64) -> SearchHit {
    SearchHit {
        name: name.to_string(),
        version: "1.0".to_string(),
        description: description.to_string(),
        votes: 0,
        popularity: scaled(popularity),
        out_of_date: false,
    }
}

fn names(ranked: &[RankedHit]) -> Vec<&str> {
    ranked.iter().map(|r| r.hit.name.as_str()).collect()
}

#[test]
fn an_exact_name_wins_even_against_a_far_more_popular_package() {
    let ranked = rank("yay", vec![hit("yay-bin", "", 5000.0), hit("yay", "", 0.1)]);
    assert_eq!(names(&ranked)[0], "yay");
}

#[test]
fn a_prefix_beats_a_mid_string_fuzzy_match() {
    let ranked = rank(
        "hhd",
        vec![hit("adjustor-hhd", "", 0.0), hit("hhd-ui", "", 0.0)],
    );
    assert_eq!(names(&ranked)[0], "hhd-ui");
}

#[test]
fn a_name_match_beats_a_description_only_match() {
    let ranked = rank(
        "decky",
        vec![
            hit("some-tool", "works well with decky loader", 900.0),
            hit("decky-loader-bin", "", 0.1),
        ],
    );
    assert_eq!(names(&ranked)[0], "decky-loader-bin");
}

#[test]
fn a_typo_still_finds_the_package() {
    let ranked = rank("deckyloader", vec![hit("decky-loader-bin", "", 0.0)]);
    assert_eq!(names(&ranked), vec!["decky-loader-bin"]);
}

#[test]
fn popularity_orders_comparable_matches() {
    let ranked = rank(
        "hhd",
        vec![hit("hhd-alpha", "", 0.1), hit("hhd-beta", "", 500.0)],
    );
    assert_eq!(names(&ranked)[0], "hhd-beta");
}

#[test]
fn popularity_can_never_promote_a_worse_match() {
    let ranked = rank(
        "hhd",
        vec![
            hit("wildly-popular", "mentions hhd in passing", 999_999.0),
            hit("hhd", "", 0.0),
        ],
    );
    assert_eq!(names(&ranked)[0], "hhd");
}

#[test]
fn results_that_match_nothing_are_dropped() {
    let ranked = rank("hhd", vec![hit("libreoffice", "office suite", 100.0)]);
    assert!(ranked.is_empty(), "{:?}", names(&ranked));
}

#[test]
fn matching_is_case_insensitive() {
    let ranked = rank("HHD", vec![hit("hhd", "", 0.0)]);
    assert_eq!(names(&ranked), vec!["hhd"]);
}

#[test]
fn description_only_hits_are_marked_as_such() {
    let ranked = rank("decky", vec![hit("some-tool", "plugin for decky", 0.0)]);
    assert_eq!(ranked.len(), 1);
    assert!(!ranked[0].name_match, "must be flagged as description-only");
}

#[test]
fn an_empty_term_ranks_nothing() {
    assert!(rank("", vec![hit("hhd", "", 0.0)]).is_empty());
    assert!(rank("   ", vec![hit("hhd", "", 0.0)]).is_empty());
}

#[test]
fn ordering_is_stable_for_identical_scores() {
    let a = rank("hhd", vec![hit("hhd-b", "", 0.0), hit("hhd-a", "", 0.0)]);
    let b = rank("hhd", vec![hit("hhd-a", "", 0.0), hit("hhd-b", "", 0.0)]);
    assert_eq!(names(&a), names(&b));
    assert_eq!(names(&a), vec!["hhd-a", "hhd-b"]);
}

#[test]
fn popularity_bonus_is_bounded_and_monotonic() {
    assert_eq!(popularity_bonus(scaled(0.0)), 0);
    assert_eq!(popularity_bonus(scaled(-1.0)), 0);
    assert!(popularity_bonus(scaled(10.0)) > popularity_bonus(scaled(1.0)));
    assert!(popularity_bonus(scaled(f64::MAX)) <= POPULARITY_CAP);
}

#[test]
fn an_out_of_date_package_is_not_demoted() {
    let mut stale = hit("hhd", "", 0.0);
    stale.out_of_date = true;
    let ranked = rank("hhd", vec![hit("hhd-other", "", 0.0), stale]);
    assert_eq!(names(&ranked)[0], "hhd");
}

#[test]
fn scores_add_the_band_and_the_bonus() {
    let exact = score_one("yay", hit("Yay", "", 1.0), None, false).unwrap();
    assert_eq!(exact.score, BAND_EXACT + scaled(1.0));
    let near = score_one("yy", hit("yay", "", 0.0), Some(25), false).unwrap();
    assert_eq!(near.score, BAND_NAME_FUZZY + 25);
    assert!(near.name_match);
    assert!(score_one("zz", hit("yay", "", 0.0), None, false).is_none());
}

#[test]
fn a_resembling_name_has_a_score_of_its_own() {
    let ranked = rank("hgt", vec![hit("hhd-git", "", 0.0)]);
    assert_eq!(ranked.len(), 1);
    assert!(ranked[0].name_match);
    assert!(ranked[0].score > BAND_NAME_FUZZY, "{}", ranked[0].score);
    assert!(rank("tgh", vec![hit("hhd-git", "", 0.0)]).is_empty());
}

#[test]
fn the_faintest_name_match_outranks_any_description() {
    let faint = score_one("abc", hit("xaxbxc", "", 0.0), Some(-95_000), false).unwrap();
    let told = score_one("abc", hit("zzz", "abc", 1e9), None, true).unwrap();
    assert!(faint.name_match && !told.name_match);
    assert!(faint.score > told.score);
    let usual = score_one("abc", hit("xaxbxc", "", 0.0), Some(42), false).unwrap();
    assert_eq!(usual.score, 100_042);
}

#[test]
fn a_hit_that_comes_twice_is_ranked_twice() {
    let ranked = rank("yay", vec![hit("yay", "", 1.0), hit("yay", "", 1.0), hit("zzz", "", 9.0)]);
    assert_eq!(names(&ranked), vec!["yay", "yay"]);
}
