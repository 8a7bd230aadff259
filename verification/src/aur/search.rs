//! Ranking what a search in the AUR found by what was typed: an exact name first,
//! then names that begin with it, then names that resemble it, then descriptions.
//! How popular a package is only orders those that match alike.
use vstd::prelude::*;

use fuzzy_matcher::skim::SkimMatcherV2;
use fuzzy_matcher::FuzzyMatcher;

use crate::text;
use crate::text::{comes_before, lower, same, starts_with, trim, Text};

verus! {

/// A package that a search found.
#[derive(Debug, Clone, PartialEq, Eq)]
pub struct SearchHit {
    pub name: String,
    pub version: String,
    pub description: String,
    pub votes: u64,
    /// A thousand times the natural logarithm of one more than its popularity; zero
    /// where it is not popular at all.
    pub popularity: i64,
    pub out_of_date: bool,
}

/// A package with its rank.
#[derive(Debug, Clone, PartialEq, Eq)]
pub struct RankedHit {
    pub hit: SearchHit,
    /// The higher the better.
    pub score: i64,
    /// The name matched, and not only the description.
    pub name_match: bool,
}

pub const BAND_EXACT: i64 = 1_000_000;

pub const BAND_PREFIX: i64 = 500_000;

pub const BAND_NAME_FUZZY: i64 = 100_000;

pub const BAND_DESC_ONLY: i64 = 0;

/// What popularity counts at most, far less than what lies between two bands.
pub const POPULARITY_CAP: i64 = 10_000;

/// The least that a resemblance counts, so that it never falls out of its band.
pub const FUZZY_FLOOR: i64 = -89_999;

// ------------------------------------------------------------------------ matching
/// The characters of `pattern` occur in `choice` in their order, whatever the case
/// of ASCII letters.
pub open spec fn within(pattern: Text, choice: Text) -> bool
    decreases choice.len(),
{
    if pattern.len() == 0 {
        true
    } else if choice.len() == 0 {
        false
    } else if text::lower_char(pattern[0]) == text::lower_char(choice[0]) {
        within(pattern.drop_first(), choice.drop_first())
    } else {
        within(pattern, choice.drop_first())
    }
}

/// What `SkimMatcherV2::fuzzy_match` returns for a choice and a pattern, where the
/// matcher is the default one made to ignore case.
pub uninterp spec fn skim_score(choice: Seq<char>, pattern: Seq<char>) -> Option<i64>;

/// `SkimMatcherV2::fuzzy_match` of the default matcher, made to ignore case. There
/// is a score if and only if the characters of the pattern occur in the choice in
/// their order; how high it is, is named and not described. Each call has a matcher of
/// its own: one that is used again keeps cells of its score matrix, and what it scores
/// then rests on what it scored before.
#[verifier::external_body]
fn fuzzy_score(choice: &str, pattern: &str) -> (r: Option<i64>)
    ensures
        r == skim_score(choice@, pattern@),
        r is Some <==> within(pattern@, choice@),
{
    SkimMatcherV2::default().ignore_case().fuzzy_match(choice, pattern)
}

// ------------------------------------------------------------------------- scoring
/// What popularity counts.
pub open spec fn bonus(popularity: int) -> int {
    if popularity < 0 {
        0
    } else if popularity > POPULARITY_CAP {
        POPULARITY_CAP as int
    } else {
        popularity
    }
}

pub fn popularity_bonus(popularity: i64) -> (r: i64)
    ensures
        r == bonus(popularity as int),
{
    if popularity < 0 {
        0
    } else if popularity > POPULARITY_CAP {
        POPULARITY_CAP
    } else {
        popularity
    }
}

/// How a package matches.
pub enum Match {
    Exact,
    Prefix,
    /// The name resembles what was typed, with this score.
    Fuzzy(int),
    Description,
}

/// How a package matches `needle`, given how its name scores and whether its
/// description resembles it.
pub open spec fn match_of(
    needle: Text,
    name: Text,
    name_score: Option<i64>,
    description_matches: bool,
) -> Option<Match> {
    if text::lowered(name) == needle {
        Some(Match::Exact)
    } else if text::begins(text::lowered(name), needle) {
        Some(Match::Prefix)
    } else {
        match name_score {
            Some(s) => Some(Match::Fuzzy(s as int)),
            None => if description_matches {
                Some(Match::Description)
            } else {
                None
            },
        }
    }
}

/// What a match counts without popularity.
pub open spec fn band(m: Match) -> int {
    match m {
        Match::Exact => BAND_EXACT as int,
        Match::Prefix => BAND_PREFIX as int,
        Match::Fuzzy(s) => BAND_NAME_FUZZY + (if s < FUZZY_FLOOR {
            FUZZY_FLOOR as int
        } else if s < POPULARITY_CAP {
            s
        } else {
            POPULARITY_CAP as int
        }),
        Match::Description => BAND_DESC_ONLY as int,
    }
}

/// What a match counts.
pub open spec fn score_of(m: Match, popularity: int) -> int {
    band(m) + bonus(popularity)
}

/// Ranks one package, given how its name scores and whether its description
/// resembles what was typed. One that matches nowhere is dropped.
pub fn score_one(
    needle: &str,
    hit: SearchHit,
    name_score: Option<i64>,
    description_matches: bool,
) -> (r: Option<RankedHit>)
    ensures
        match match_of(needle@, hit.name@, name_score, description_matches) {
            Some(m) => r matches Some(ranked) && ranked.hit == hit && ranked.score == score_of(
                m,
                hit.popularity as int,
            ) && ranked.name_match == !(m is Description),
            None => r is None,
        },
{
    let name = lower(hit.name.as_str());
    let more: i64 = popularity_bonus(hit.popularity);
    if same(name.as_str(), needle) {
        return Some(RankedHit { hit, score: BAND_EXACT + more, name_match: true });
    }
    if starts_with(name.as_str(), needle) {
        return Some(RankedHit { hit, score: BAND_PREFIX + more, name_match: true });
    }
    match name_score {
        Some(s) => {
            let capped: i64 = if s < FUZZY_FLOOR {
                FUZZY_FLOOR
            } else if s < POPULARITY_CAP {
                s
            } else {
                POPULARITY_CAP
            };
            Some(RankedHit { hit, score: BAND_NAME_FUZZY + capped + more, name_match: true })
        },
        None => if description_matches {
            Some(RankedHit { hit, score: BAND_DESC_ONLY + more, name_match: false })
        } else {
            None
        },
    }
}

/// The rank of one package.
pub open spec fn ranked_as(needle: Text, hit: SearchHit) -> Option<RankedHit> {
    match match_of(
        needle,
        hit.name@,
        skim_score(text::lowered(hit.name@), needle),
        within(needle, text::lowered(hit.description@)),
    ) {
        Some(m) => Some(
            RankedHit {
                hit,
                score: score_of(m, hit.popularity as int) as i64,
                name_match: !(m is Description),
            },
        ),
        None => None,
    }
}

fn rank_one(needle: &str, hit: SearchHit) -> (r: Option<RankedHit>)
    ensures
        r == ranked_as(needle@, hit),
{
    let name_score = fuzzy_score(lower(hit.name.as_str()).as_str(), needle);
    let described = match fuzzy_score(lower(hit.description.as_str()).as_str(), needle) {
        Some(_) => true,
        None => false,
    };
    score_one(needle, hit, name_score, described)
}

// ------------------------------------------------------------------------ ordering
/// The higher score first, and the name decides between equal scores.
pub open spec fn better(a: RankedHit, b: RankedHit) -> bool {
    a.score > b.score || a.score == b.score && text::precedes(a.hit.name@, b.hit.name@)
}

fn is_better(a: &RankedHit, b: &RankedHit) -> (r: bool)
    ensures
        r == better(*a, *b),
{
    a.score > b.score || (a.score == b.score && comes_before(
        a.hit.name.as_str(),
        b.hit.name.as_str(),
    ))
}

/// A list with one more package, before those that are not better.
pub open spec fn placed(x: RankedHit, s: Seq<RankedHit>) -> Seq<RankedHit>
    decreases s.len(),
{
    if s.len() == 0 || !better(s[0], x) {
        seq![x] + s
    } else {
        seq![s[0]] + placed(x, s.drop_first())
    }
}

/// The packages that match, the best first; those that rank alike stay in their
/// order.
pub open spec fn ranking(needle: Text, hits: Seq<SearchHit>) -> Seq<RankedHit>
    decreases hits.len(),
{
    if hits.len() == 0 {
        seq![]
    } else {
        match ranked_as(needle, hits[0]) {
            Some(x) => placed(x, ranking(needle, hits.drop_first())),
            None => ranking(needle, hits.drop_first()),
        }
    }
}

proof fn lemma_placed_at(x: RankedHit, s: Seq<RankedHit>, k: int)
    requires
        0 <= k <= s.len(),
        forall|i: int| 0 <= i < k ==> better(#[trigger] s[i], x),
        k < s.len() ==> !better(s[k], x),
    ensures
        placed(x, s) == s.insert(k, x),
    decreases s.len(),
{
    if k == 0 {
        assert(seq![x] + s =~= s.insert(0, x));
    } else {
        let t = s.drop_first();
        assert forall|i: int| 0 <= i < k - 1 implies better(#[trigger] t[i], x) by {
            assert(t[i] == s[i + 1]);
        }
        lemma_placed_at(x, t, k - 1);
        assert(seq![s[0]] + t.insert(k - 1, x) =~= s.insert(k, x));
    }
}

fn place(x: RankedHit, list: &mut Vec<RankedHit>)
    ensures
        final(list)@ == placed(x, old(list)@),
{
    let ghost s = list@;
    let mut k: usize = 0;
    while k < list.len() && is_better(&list[k], &x)
        invariant
            k <= list@.len(),
            list@ == s,
            forall|i: int| 0 <= i < k ==> better(#[trigger] s[i], x),
        decreases list.len() - k,
    {
        k += 1;
    }
    proof {
        lemma_placed_at(x, s, k as int);
    }
    list.insert(k, x);
}

/// Ranks packages by what was typed, the best first. Nothing typed ranks nothing.
pub fn rank(term: &str, hits: Vec<SearchHit>) -> (r: Vec<RankedHit>)
    ensures
        ({
            let needle = text::lowered(text::trimmed(term@));
            r@ == if needle.len() == 0 {
                Seq::<RankedHit>::empty()
            } else {
                ranking(needle, hits@)
            }
        }),
{
    let needle = lower(trim(term).as_str());
    let mut list: Vec<RankedHit> = Vec::new();
    proof {
        reveal_strlit("");
    }
    if same(needle.as_str(), "") {
        return list;
    }
    assert(needle@.len() > 0) by {
        if needle@.len() == 0 {
            assert(needle@ =~= ""@);
        }
    }
    let ghost all = hits@;
    let mut rest = hits;
    assert(all.skip(all.len() as int) =~= seq![]);
    assert(all.take(all.len() as int) =~= all);
    while rest.len() > 0
        invariant
            rest@.len() <= all.len(),
            rest@ == all.take(rest@.len() as int),
            list@ == ranking(needle@, all.skip(rest@.len() as int)),
        decreases rest@.len(),
    {
        let ghost n = rest@.len() as int;
        if let Some(hit) = rest.pop() {
            proof {
                assert(hit == all[n - 1]);
                assert(rest@ =~= all.take(n - 1));
                assert(all.skip(n - 1)[0] == hit);
                assert(all.skip(n - 1).drop_first() =~= all.skip(n));
            }
            if let Some(x) = rank_one(needle.as_str(), hit) {
                place(x, &mut list);
            }
        }
    }
    assert(all.skip(0) =~= all);
    list
}

// ---------------------------------------------------------------------------- laws
/// Popularity counts between nothing and its cap, and the more popular package never
/// counts less.
pub proof fn popularity_is_bounded_and_monotonic(a: int, b: int)
    requires
        a <= b,
    ensures
        0 <= bonus(a) <= bonus(b) <= POPULARITY_CAP,
{
}

/// Whatever the popularity of the two, an exact name beats any other match.
pub proof fn exact_name_wins(m: Match, popular: int, other: int)
    requires
        !(m is Exact),
    ensures
        score_of(Match::Exact, other) > score_of(m, popular),
{
}

/// Whatever the popularity of the two, a name that begins with what was typed beats
/// one that resembles it and one that only describes it.
pub proof fn prefix_beats_resemblance(m: Match, popular: int, other: int)
    requires
        m is Fuzzy || m is Description,
    ensures
        score_of(Match::Prefix, other) > score_of(m, popular),
{
}

/// Whatever the popularity of the two, a name that matches beats a description, however
/// little it resembles what was typed.
pub proof fn name_beats_description(m: Match, popular: int, other: int)
    requires
        !(m is Description),
    ensures
        score_of(m, other) > score_of(Match::Description, popular),
{
}

/// The list is in order: nothing comes after what it is better than.
pub proof fn ranking_is_ordered(needle: Text, hits: Seq<SearchHit>)
    ensures
        forall|i: int, j: int|
            0 <= i < j < ranking(needle, hits).len() ==> !better(
                #[trigger] ranking(needle, hits)[j],
                #[trigger] ranking(needle, hits)[i],
            ),
    decreases hits.len(),
{
    if hits.len() > 0 {
        ranking_is_ordered(needle, hits.drop_first());
        if let Some(x) = ranked_as(needle, hits[0]) {
            lemma_placed_ordered(x, ranking(needle, hits.drop_first()));
        }
    }
}

proof fn lemma_better_order(a: RankedHit, b: RankedHit, c: RankedHit)
    ensures
        better(a, b) && better(b, c) ==> better(a, c),
        better(a, b) ==> !better(b, a),
        !better(b, a) && !better(c, b) ==> !better(c, a),
{
    text::lemma_precedes_total(a.hit.name@, b.hit.name@);
    text::lemma_precedes_total(b.hit.name@, c.hit.name@);
    text::lemma_precedes_total(a.hit.name@, c.hit.name@);
    if text::precedes(a.hit.name@, b.hit.name@) && text::precedes(b.hit.name@, c.hit.name@) {
        text::lemma_precedes_transitive(a.hit.name@, b.hit.name@, c.hit.name@);
    }
    if text::precedes(c.hit.name@, a.hit.name@) && text::precedes(a.hit.name@, b.hit.name@) {
        text::lemma_precedes_transitive(c.hit.name@, a.hit.name@, b.hit.name@);
    }
    if text::precedes(b.hit.name@, c.hit.name@) && text::precedes(c.hit.name@, a.hit.name@) {
        text::lemma_precedes_transitive(b.hit.name@, c.hit.name@, a.hit.name@);
    }
}

spec fn ordered(s: Seq<RankedHit>) -> bool {
    forall|i: int, j: int|
        0 <= i < j < s.len() ==> !better(#[trigger] s[j], #[trigger] s[i])
}

proof fn lemma_placed_ordered(x: RankedHit, s: Seq<RankedHit>)
    requires
        ordered(s),
    ensures
        ordered(placed(x, s)),
    decreases s.len(),
{
    let p = placed(x, s);
    if s.len() == 0 || !better(s[0], x) {
        assert forall|i: int, j: int| 0 <= i < j < p.len() implies !better(
            #[trigger] p[j],
            #[trigger] p[i],
        ) by {
            assert(p[j] == s[j - 1]);
            if i == 0 {
                if j > 1 {
                    assert(!better(s[j - 1], s[0]));
                }
                lemma_better_order(x, s[0], s[j - 1]);
            } else {
                assert(p[i] == s[i - 1]);
            }
        }
    } else {
        let t = s.drop_first();
        assert forall|i: int, j: int| 0 <= i < j < t.len() implies !better(
            #[trigger] t[j],
            #[trigger] t[i],
        ) by {
            assert(t[j] == s[j + 1]);
            assert(t[i] == s[i + 1]);
        }
        lemma_placed_ordered(x, t);
        let q = placed(x, t);
        lemma_placed_members(x, t);
        assert forall|i: int, j: int| 0 <= i < j < p.len() implies !better(
            #[trigger] p[j],
            #[trigger] p[i],
        ) by {
            assert(p[j] == q[j - 1]);
            if i == 0 {
                let y = q[j - 1];
                assert(q.contains(y));
                if y == x {
                    lemma_better_order(s[0], x, x);
                } else {
                    assert(t.contains(y));
                    let k = choose|k: int| 0 <= k < t.len() && t[k] == y;
                    assert(t[k] == s[k + 1]);
                    assert(!better(s[k + 1], s[0]));
                }
            } else {
                assert(p[i] == q[i - 1]);
            }
        }
    }
}

proof fn lemma_placed_members(x: RankedHit, s: Seq<RankedHit>)
    ensures
        forall|y: RankedHit| placed(x, s).contains(y) <==> y == x || s.contains(y),
    decreases s.len(),
{
    let p = placed(x, s);
    if s.len() == 0 || !better(s[0], x) {
        assert forall|y: RankedHit| p.contains(y) <==> y == x || s.contains(y) by {
            if y == x {
                assert(p[0] == y);
            }
            if s.contains(y) {
                let k = choose|k: int| 0 <= k < s.len() && s[k] == y;
                assert(p[k + 1] == y);
            }
            if p.contains(y) {
                let k = choose|k: int| 0 <= k < p.len() && p[k] == y;
                if k > 0 {
                    assert(s[k - 1] == y);
                }
            }
        }
    } else {
        let t = s.drop_first();
        lemma_placed_members(x, t);
        let q = placed(x, t);
        assert forall|y: RankedHit| p.contains(y) <==> y == x || s.contains(y) by {
            if q.contains(y) {
                let k = choose|k: int| 0 <= k < q.len() && q[k] == y;
                assert(p[k + 1] == y);
            }
            if y == s[0] {
                assert(p[0] == y);
            }
            if s.contains(y) {
                let k = choose|k: int| 0 <= k < s.len() && s[k] == y;
                if k > 0 {
                    assert(t[k - 1] == y);
                }
            }
            if t.contains(y) {
                let k = choose|k: int| 0 <= k < t.len() && t[k] == y;
                assert(s[k + 1] == y);
            }
            if p.contains(y) {
                let k = choose|k: int| 0 <= k < p.len() && p[k] == y;
                if k > 0 {
                    assert(q[k - 1] == y);
                } else {
                    assert(s.contains(s[0]));
                }
            }
        }
    }
}

/// The list holds the packages that match, and no others.
pub proof fn ranking_holds_what_matches(needle: Text, hits: Seq<SearchHit>, x: RankedHit)
    ensures
        ranking(needle, hits).contains(x) <==> exists|i: int|
            0 <= i < hits.len() && ranked_as(needle, #[trigger] hits[i]) == Some(x),
    decreases hits.len(),
{
    if hits.len() > 0 {
        let rest = hits.drop_first();
        ranking_holds_what_matches(needle, rest, x);
        if let Some(y) = ranked_as(needle, hits[0]) {
            lemma_placed_members(y, ranking(needle, rest));
        }
        if exists|i: int| 0 <= i < rest.len() && ranked_as(needle, #[trigger] rest[i]) == Some(x) {
            let i = choose|i: int|
                0 <= i < rest.len() && ranked_as(needle, #[trigger] rest[i]) == Some(x);
            assert(rest[i] == hits[i + 1]);
        }
        if exists|i: int| 0 <= i < hits.len() && ranked_as(needle, #[trigger] hits[i]) == Some(x) {
            let i = choose|i: int|
                0 <= i < hits.len() && ranked_as(needle, #[trigger] hits[i]) == Some(x);
            if i > 0 {
                assert(rest[i - 1] == hits[i]);
            }
        }
    }
}

/// The packages of a ranking.
pub open spec fn hits_of(list: Seq<RankedHit>) -> Seq<SearchHit> {
    list.map_values(|x: RankedHit| x.hit)
}

proof fn lemma_placed_hits(x: RankedHit, s: Seq<RankedHit>)
    ensures
        hits_of(placed(x, s)).to_multiset() == hits_of(s).to_multiset().insert(x.hit),
    decreases s.len(),
{
    if s.len() == 0 || !better(s[0], x) {
        assert(hits_of(placed(x, s)) =~= seq![x.hit] + hits_of(s));
        lemma_in_front(x.hit, hits_of(s));
    } else {
        let t = s.drop_first();
        lemma_placed_hits(x, t);
        assert(hits_of(placed(x, s)) =~= seq![s[0].hit] + hits_of(placed(x, t)));
        assert(hits_of(s) =~= seq![s[0].hit] + hits_of(t));
        lemma_in_front(s[0].hit, hits_of(placed(x, t)));
        lemma_in_front(s[0].hit, hits_of(t));
        assert(hits_of(placed(x, s)).to_multiset() =~= hits_of(s).to_multiset().insert(x.hit));
    }
}

proof fn lemma_in_front(h: SearchHit, s: Seq<SearchHit>)
    ensures
        (seq![h] + s).to_multiset() == s.to_multiset().insert(h),
{
    broadcast use vstd::seq_lib::group_to_multiset_ensures;

    vstd::seq_lib::lemma_multiset_commutative(seq![h], s);
    assert(seq![h] =~= Seq::<SearchHit>::empty().push(h));
    assert((seq![h] + s).to_multiset() =~= s.to_multiset().insert(h));
}

/// Ranking makes nothing up and shows nothing twice: a package that matches stands in the
/// list as often as it was found, and one that does not match does not stand in it.
pub proof fn ranking_keeps_count(needle: Text, hits: Seq<SearchHit>)
    ensures
        forall|h: SearchHit| #[trigger]
            hits_of(ranking(needle, hits)).to_multiset().count(h) == if ranked_as(needle, h)
                is Some {
                hits.to_multiset().count(h)
            } else {
                0
            },
        hits_of(ranking(needle, hits)).to_multiset().subset_of(hits.to_multiset()),
    decreases hits.len(),
{
    broadcast use vstd::seq_lib::group_to_multiset_ensures;

    if hits.len() > 0 {
        let rest = hits.drop_first();
        ranking_keeps_count(needle, rest);
        assert(hits =~= seq![hits[0]] + rest);
        lemma_in_front(hits[0], rest);
        if let Some(x) = ranked_as(needle, hits[0]) {
            lemma_placed_hits(x, ranking(needle, rest));
        }
        assert forall|h: SearchHit| #[trigger]
            hits_of(ranking(needle, hits)).to_multiset().count(h) == if ranked_as(needle, h)
                is Some {
                hits.to_multiset().count(h)
            } else {
                0
            } by {
            assert(hits_of(ranking(needle, rest)).to_multiset().count(h) == if ranked_as(needle, h)
                is Some {
                rest.to_multiset().count(h)
            } else {
                0
            });
        }
    } else {
        assert(hits_of(ranking(needle, hits)) =~= seq![]);
        assert(hits =~= seq![]);
    }
}

/// The package whose name was typed, in whatever case, is found and stands before every
/// package of another name, however popular that is; one whose name begins with what was
/// typed stands before those whose name does not.
pub proof fn typed_name_comes_first(needle: Text, a: SearchHit, b: SearchHit)
    requires
        ranked_as(needle, b) is Some,
    ensures
        text::lowered(a.name@) == needle ==> ranked_as(needle, a) is Some && ranked_as(
            needle,
            a,
        )->0.hit == a && (text::lowered(b.name@) != needle ==> better(
            ranked_as(needle, a)->0,
            ranked_as(needle, b)->0,
        )),
        text::begins(text::lowered(a.name@), needle) ==> ranked_as(needle, a) is Some && (
        !text::begins(text::lowered(b.name@), needle) && text::lowered(b.name@) != needle
            ==> better(ranked_as(needle, a)->0, ranked_as(needle, b)->0)),
{
}

} // verus!
