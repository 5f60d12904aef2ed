use vstd::prelude::*;
use vstd::string::*;
use vstd::utf8::encode_utf8;
use fuzzy_matcher::FuzzyMatcher;

use crate::text::{first_segment, first_segment_of, is_blank, is_blank_text};
use crate::ranking::{
    first_results, is_sorted_by_score, lemma_sort_is_permutation, lemma_sort_is_sorted, max_results,
    sort_by_score, sort_results_by_score,
};

verus! {

/// The address details of a Nominatim search hit.
#[derive(Debug, Clone)]
pub struct NominatimAddress {
    pub city: Option<String>,
    pub town: Option<String>,
    pub village: Option<String>,
    pub state: Option<String>,
    pub country: Option<String>,
}

/// One hit of a Nominatim search, as the service reports it.
#[derive(Debug, Clone)]
pub struct NominatimResult {
    pub display_name: String,
    pub lat: String,
    pub lon: String,
    pub address: Option<NominatimAddress>,
}

/// A city offered to the user: its name, its coordinates as decimal text,
/// the full place name and how well it matched the query.
#[derive(Debug, Clone)]
pub struct CitySearchResult {
    pub name: String,
    pub latitude: String,
    pub longitude: String,
    pub display_name: String,
    pub score: i64,
}

pub struct NominatimAddressView {
    pub city: Option<Seq<char>>,
    pub town: Option<Seq<char>>,
    pub village: Option<Seq<char>>,
    pub state: Option<Seq<char>>,
    pub country: Option<Seq<char>>,
}

pub struct NominatimResultView {
    pub display_name: Seq<char>,
    pub lat: Seq<char>,
    pub lon: Seq<char>,
    pub address: Option<NominatimAddressView>,
}

pub struct CitySearchResultView {
    pub name: Seq<char>,
    pub latitude: Seq<char>,
    pub longitude: Seq<char>,
    pub display_name: Seq<char>,
    pub score: i64,
}

pub open spec fn opt_text(o: Option<String>) -> Option<Seq<char>> {
    match o {
        Some(s) => Some(s@),
        None => None,
    }
}

impl View for NominatimAddress {
    type V = NominatimAddressView;

    open spec fn view(&self) -> NominatimAddressView {
        NominatimAddressView {
            city: opt_text(self.city),
            town: opt_text(self.town),
            village: opt_text(self.village),
            state: opt_text(self.state),
            country: opt_text(self.country),
        }
    }
}

impl View for NominatimResult {
    type V = NominatimResultView;

    open spec fn view(&self) -> NominatimResultView {
        NominatimResultView {
            display_name: self.display_name@,
            lat: self.lat@,
            lon: self.lon@,
            address: match self.address {
                Some(a) => Some(a@),
                None => None,
            },
        }
    }
}

impl View for CitySearchResult {
    type V = CitySearchResultView;

    open spec fn view(&self) -> CitySearchResultView {
        CitySearchResultView {
            name: self.name@,
            latitude: self.latitude@,
            longitude: self.longitude@,
            display_name: self.display_name@,
            score: self.score,
        }
    }
}

pub open spec fn nominatim_views(s: Seq<NominatimResult>) -> Seq<NominatimResultView> {
    s.map_values(|r: NominatimResult| r@)
}

pub open spec fn result_views(s: Seq<CitySearchResult>) -> Seq<CitySearchResultView> {
    s.map_values(|r: CitySearchResult| r@)
}

/// The name under which a hit is offered: the first of the address's city,
/// town and village that is present, else the display name up to its first
/// comma.
pub open spec fn spec_city_name(r: NominatimResultView) -> Seq<char> {
    match r.address {
        Some(a) => {
            if a.city is Some {
                a.city->0
            } else if a.town is Some {
                a.town->0
            } else if a.village is Some {
                a.village->0
            } else {
                first_segment(r.display_name)
            }
        },
        None => first_segment(r.display_name),
    }
}

/// Whether the hit's address names no city, town or village (or is absent).
pub open spec fn lacks_place_name(r: NominatimResultView) -> bool {
    match r.address {
        Some(a) => a.city is None && a.town is None && a.village is None,
        None => true,
    }
}

/// The name under which a Nominatim hit is offered to the user.
pub fn city_name(r: &NominatimResult) -> (name: String)
    ensures
        name@ == spec_city_name(r@),
        r@.address is Some && r@.address->0.city is Some ==> name@ == r@.address->0.city->0,
        r@.address is Some && r@.address->0.city is None && r@.address->0.town is Some ==> name@ == r@.address->0.town->0,
        r@.address is Some && r@.address->0.city is None && r@.address->0.town is None && r@.address->0.village is Some
            ==> name@ == r@.address->0.village->0,
        lacks_place_name(r@) ==> name@ == first_segment(r@.display_name),
{
    match &r.address {
        Some(a) => {
            match &a.city {
                Some(c) => {
                    return c.clone();
                },
                None => {},
            }
            match &a.town {
                Some(t) => {
                    return t.clone();
                },
                None => {},
            }
            match &a.village {
                Some(v) => {
                    return v.clone();
                },
                None => {},
            }
            first_segment_of(r.display_name.as_str())
        },
        None => first_segment_of(r.display_name.as_str()),
    }
}

// ---------------------------------------------------------------------------
// Percent-encoding of the search query
// ---------------------------------------------------------------------------

/// Bytes left as they are: ASCII letters and digits and `-`, `.`, `_`, `~`.
pub open spec fn is_unreserved(b: u8) -> bool {
    ||| 48 <= b <= 57
    ||| 65 <= b <= 90
    ||| 97 <= b <= 122
    ||| b == 45
    ||| b == 46
    ||| b == 95
    ||| b == 126
}

/// The upper-case hexadecimal digit for `d < 16`.
pub open spec fn hex_digit(d: u8) -> char {
    if d < 10 {
        (48 + d) as char
    } else {
        (55 + d) as char
    }
}

pub open spec fn percent_encode_byte(b: u8) -> Seq<char> {
    if is_unreserved(b) {
        seq![b as char]
    } else {
        seq!['%', hex_digit(b / 16), hex_digit(b % 16)]
    }
}

pub open spec fn percent_encode(bytes: Seq<u8>) -> Seq<char>
    decreases bytes.len(),
{
    if bytes.len() == 0 {
        seq![]
    } else {
        percent_encode_byte(bytes[0]) + percent_encode(bytes.drop_first())
    }
}

/// The percent-encoding of the UTF-8 bytes of `s`.
pub open spec fn url_encode(s: Seq<char>) -> Seq<char> {
    percent_encode(encode_utf8(s))
}

/// `urlencoding::encode`: every byte of the UTF-8 text is kept when it is an
/// ASCII letter, digit, `-`, `.`, `_` or `~`, and written as `%` and two
/// upper-case hex digits otherwise.
#[verifier::external_body]
fn encode_query(s: &str) -> (r: String)
    ensures
        r@ == url_encode(s@),
{
    urlencoding::encode(s).into_owned()
}

pub open spec fn search_url_prefix() -> Seq<char> {
    "https://nominatim.openstreetmap.org/search?q="@
}

pub open spec fn search_url_suffix() -> Seq<char> {
    "&format=json&limit=10&addressdetails=1"@
}

/// The Nominatim request for `query`: at most ten hits, with address details.
pub open spec fn spec_search_url(query: Seq<char>) -> Seq<char> {
    search_url_prefix() + url_encode(query) + search_url_suffix()
}

/// The address of the Nominatim search for `query`.
pub fn search_url(query: &str) -> (url: String)
    ensures
        url@ == spec_search_url(query@),
{
    let mut url = String::from_str("https://nominatim.openstreetmap.org/search?q=");
    let encoded = encode_query(query);
    url.append(encoded.as_str());
    url.append("&format=json&limit=10&addressdetails=1");
    url
}

// ---------------------------------------------------------------------------
// Fuzzy matching
// ---------------------------------------------------------------------------

/// The score that skim's fuzzy matcher (`SkimMatcherV2` with its default
/// settings) gives `choice` against `pattern`, `None` when they do not match.
pub uninterp spec fn skim_score(choice: Seq<char>, pattern: Seq<char>) -> Option<i64>;

/// ASCII letters folded to lower case, as a code point.
pub open spec fn ascii_fold(c: char) -> u32 {
    let v = c as u32;
    if 65 <= v <= 90 {
        (v + 32) as u32
    } else {
        v
    }
}

pub open spec fn has_ascii_upper(p: Seq<char>) -> bool {
    exists|i: int| 0 <= i < p.len() && 65 <= #[trigger] (p[i] as u32) <= 90
}

pub open spec fn chars_agree(c: char, p: char, case_sensitive: bool) -> bool {
    if case_sensitive {
        c == p
    } else {
        ascii_fold(c) == ascii_fold(p)
    }
}

/// Whether `pattern` occurs in `choice` as a subsequence, each pattern
/// character taken at its first agreeing position.
pub open spec fn greedy_subsequence(choice: Seq<char>, pattern: Seq<char>, case_sensitive: bool) -> bool
    decreases choice.len(),
{
    if pattern.len() == 0 {
        true
    } else if choice.len() == 0 {
        false
    } else if chars_agree(choice[0], pattern[0], case_sensitive) {
        greedy_subsequence(choice.drop_first(), pattern.drop_first(), case_sensitive)
    } else {
        greedy_subsequence(choice.drop_first(), pattern, case_sensitive)
    }
}

/// Smart case: the match respects case only when the pattern holds an
/// upper-case ASCII letter.
pub open spec fn fuzzy_contains(choice: Seq<char>, pattern: Seq<char>) -> bool {
    greedy_subsequence(choice, pattern, has_ascii_upper(pattern))
}

/// `FuzzyMatcher::fuzzy_match` of `SkimMatcherV2::default()`. The score itself
/// is left to the name `skim_score`; what the crate's source shows plainly is
/// stated: there is a score exactly when the pattern is a smart-case
/// subsequence of the choice, and the empty pattern scores 0. The matrix of
/// scores is kept in `i32` cells, so texts are bounded to keep them from
/// overflowing.
#[verifier::external_body]
fn fuzzy_score(choice: &str, pattern: &str) -> (score: Option<i64>)
    requires
        choice@.len() < 0x100_0000,
        pattern@.len() < 0x100_0000,
    ensures
        score == skim_score(choice@, pattern@),
        score is Some <==> fuzzy_contains(choice@, pattern@),
        pattern@.len() == 0 ==> score == Some(0i64),
{
    fuzzy_matcher::skim::SkimMatcherV2::default().fuzzy_match(choice, pattern)
}

// ---------------------------------------------------------------------------
// City search
// ---------------------------------------------------------------------------

/// A hit offered to the user with the given score.
pub open spec fn as_result(r: NominatimResultView, score: i64) -> CitySearchResultView {
    CitySearchResultView {
        name: spec_city_name(r),
        latitude: r.lat,
        longitude: r.lon,
        display_name: r.display_name,
        score,
    }
}

/// The hits that are kept, in the order they came: those whose coordinates
/// are numbers (`valid`) and that match the query (a score).
pub open spec fn matched_results(
    results: Seq<NominatimResultView>,
    valid: Seq<bool>,
    scores: Seq<Option<i64>>,
) -> Seq<CitySearchResultView>
    decreases results.len(),
{
    if results.len() == 0 {
        seq![]
    } else {
        let n = results.len() - 1;
        let rest = matched_results(results.drop_last(), valid.take(n), scores.take(n));
        if valid[n] && scores[n] is Some {
            rest.push(as_result(results[n], scores[n]->0))
        } else {
            rest
        }
    }
}

/// The offered results: the matched hits by descending score, equal scores in
/// arrival order, at most five.
pub open spec fn ranked_results(
    results: Seq<NominatimResultView>,
    valid: Seq<bool>,
    scores: Seq<Option<i64>>,
) -> Seq<CitySearchResultView> {
    first_results(sort_by_score(matched_results(results, valid, scores)))
}

/// Turns Nominatim hits into the results offered to the user, given for each
/// hit whether both its coordinates are numbers and its fuzzy-match score
/// against the query.
pub fn rank_matches(
    results: &Vec<NominatimResult>,
    coordinates_valid: &Vec<bool>,
    scores: &Vec<Option<i64>>,
) -> (ranked: Vec<CitySearchResult>)
    requires
        coordinates_valid.len() == results.len(),
        scores.len() == results.len(),
    ensures
        result_views(ranked@) == ranked_results(nominatim_views(results@), coordinates_valid@, scores@),
        ranked.len() <= 5,
        forall|k: int, j: int| 0 <= k < j < ranked.len() ==> ranked@[k].score >= ranked@[j].score,
        forall|k: int| 0 <= k < ranked.len() ==> presents_a_hit(
            (#[trigger] ranked@[k])@, nominatim_views(results@), coordinates_valid@, scores@),
{
    let ghost rv = nominatim_views(results@);
    let mut matched: Vec<CitySearchResult> = Vec::new();
    let n = results.len();
    for i in 0..n
        invariant
            n == results.len(),
            coordinates_valid.len() == n,
            scores.len() == n,
            rv == nominatim_views(results@),
            result_views(matched@) == matched_results(
                rv.take(i as int),
                coordinates_valid@.take(i as int),
                scores@.take(i as int),
            ),
    {
        let ghost before = result_views(matched@);
        proof {
            assert(rv.take(i + 1).drop_last() =~= rv.take(i as int));
            assert(coordinates_valid@.take(i + 1).take(i as int) =~= coordinates_valid@.take(i as int));
            assert(scores@.take(i + 1).take(i as int) =~= scores@.take(i as int));
            assert(rv.take(i + 1)[i as int] == results@[i as int]@);
        }
        if coordinates_valid[i] {
            match scores[i] {
                Some(score) => {
                    let r = &results[i];
                    let item = CitySearchResult {
                        name: city_name(r),
                        latitude: r.lat.clone(),
                        longitude: r.lon.clone(),
                        display_name: r.display_name.clone(),
                        score,
                    };
                    matched.push(item);
                    proof {
                        assert(result_views(matched@) =~= before.push(item@));
                    }
                },
                None => {},
            }
        }
    }
    proof {
        assert(rv.take(n as int) =~= rv);
        assert(coordinates_valid@.take(n as int) =~= coordinates_valid@);
        assert(scores@.take(n as int) =~= scores@);
    }
    let mut sorted = sort_results_by_score(matched);
    let ghost full = result_views(sorted@);
    sorted.truncate(5);
    proof {
        if full.len() > max_results() {
            assert(result_views(sorted@) =~= full.take(max_results() as int));
        }
        law_ranked_sorted(rv, coordinates_valid@, scores@);
        law_ranked_describe_hits(rv, coordinates_valid@, scores@);
        let out = ranked_results(rv, coordinates_valid@, scores@);
        assert forall|k: int, j: int| 0 <= k < j < sorted.len() implies sorted@[k].score >= sorted@[j].score by {
            assert(result_views(sorted@)[k] == out[k] && result_views(sorted@)[j] == out[j]);
        }
        assert forall|k: int| 0 <= k < sorted.len() implies presents_a_hit(
            (#[trigger] sorted@[k])@, rv, coordinates_valid@, scores@) by {
            assert(result_views(sorted@)[k] == out[k]);
        }
    }
    sorted
}

/// The fuzzy-match score of each hit whose coordinates are numbers.
pub open spec fn query_scores(
    results: Seq<NominatimResultView>,
    valid: Seq<bool>,
    query: Seq<char>,
) -> Seq<Option<i64>> {
    Seq::new(
        results.len(),
        |i: int|
            if valid[i] {
                skim_score(results[i].display_name, query)
            } else {
                None
            },
    )
}

/// The cities offered for `query`: none for a blank query, else the ranked
/// matches among the hits.
pub open spec fn spec_search_cities(
    query: Seq<char>,
    results: Seq<NominatimResultView>,
    valid: Seq<bool>,
) -> Seq<CitySearchResultView> {
    if is_blank_text(query) {
        seq![]
    } else {
        ranked_results(results, valid, query_scores(results, valid, query))
    }
}

/// Whether a query is worth sending to Nominatim: it is not blank.
pub fn should_search(query: &str) -> (r: bool)
    ensures
        r == !is_blank_text(query@),
{
    !is_blank(query)
}

/// The cities offered for `query`, from the Nominatim hits for it and, for
/// each hit, whether both its coordinates are numbers. A blank query offers
/// none. The query and the display names of hits with numeric coordinates
/// are to be shorter than 2^24 characters, the range over which the
/// matcher's 32-bit score cells cannot overflow.
pub fn search_cities(
    query: &str,
    results: &Vec<NominatimResult>,
    coordinates_valid: &Vec<bool>,
) -> (cities: Vec<CitySearchResult>)
    requires
        coordinates_valid.len() == results.len(),
        query@.len() < 0x100_0000,
        forall|i: int| 0 <= i < results.len() && coordinates_valid@[i] ==> (#[trigger] results@[i]).display_name@.len()
            < 0x100_0000,
    ensures
        result_views(cities@) == spec_search_cities(query@, nominatim_views(results@), coordinates_valid@),
        forall|k: int| 0 <= k < cities.len() ==> fuzzy_contains(#[trigger] cities@[k].display_name@, query@),
        forall|k: int| 0 <= k < cities.len() ==> skim_score(#[trigger] cities@[k].display_name@, query@) == Some(
            cities@[k].score,
        ),
        forall|k: int, j: int| 0 <= k < j < cities.len() ==> cities@[k].score >= cities@[j].score,
        forall|k: int| 0 <= k < cities.len() ==> presents_a_scored_hit(
            (#[trigger] cities@[k])@, nominatim_views(results@), coordinates_valid@, query@),
{
    if is_blank(query) {
        let none: Vec<CitySearchResult> = Vec::new();
        proof {
            assert(result_views(none@) =~= seq![]);
        }
        return none;
    }
    let ghost rv = nominatim_views(results@);
    let mut scores: Vec<Option<i64>> = Vec::new();
    let n = results.len();
    for i in 0..n
        invariant
            n == results.len(),
            coordinates_valid.len() == n,
            query@.len() < 0x100_0000,
            forall|k: int| 0 <= k < results.len() && coordinates_valid@[k] ==> (#[trigger] results@[k]).display_name@.len()
                < 0x100_0000,
            rv == nominatim_views(results@),
            scores@ == query_scores(rv, coordinates_valid@, query@).take(i as int),
            forall|k: int| 0 <= k < i && coordinates_valid@[k] ==>
                (#[trigger] scores@[k] is Some <==> fuzzy_contains(rv[k].display_name, query@)),
    {
        let score = if coordinates_valid[i] {
            fuzzy_score(results[i].display_name.as_str(), query)
        } else {
            None
        };
        scores.push(score);
        proof {
            assert(scores@ =~= query_scores(rv, coordinates_valid@, query@).take(i + 1));
        }
    }
    proof {
        assert(scores@ =~= query_scores(rv, coordinates_valid@, query@));
    }
    let cities = rank_matches(results, coordinates_valid, &scores);
    proof {
        law_ranked_from_matches(rv, coordinates_valid@, scores@);
        let out = ranked_results(rv, coordinates_valid@, scores@);
        assert forall|k: int| 0 <= k < cities.len() implies fuzzy_contains(
            #[trigger] cities@[k].display_name@,
            query@,
        ) by {
            assert(result_views(cities@)[k] == out[k]);
            assert(is_offered_hit(out[k], rv, coordinates_valid@, scores@));
            let i = choose|i: int| #[trigger] offered_from(out[k], rv, coordinates_valid@, scores@, i);
            assert(scores@[i] is Some);
        }
        law_search_scores_are_skim_scores(query@, rv, coordinates_valid@);
        law_search_best_first(query@, rv, coordinates_valid@);
        let found = spec_search_cities(query@, rv, coordinates_valid@);
        assert forall|k: int| 0 <= k < cities.len() implies skim_score(
            #[trigger] cities@[k].display_name@,
            query@,
        ) == Some(cities@[k].score) by {
            assert(result_views(cities@)[k] == found[k]);
        }
        assert forall|k: int, j: int| 0 <= k < j < cities.len() implies cities@[k].score
            >= cities@[j].score by {
            assert(result_views(cities@)[k] == found[k] && result_views(cities@)[j] == found[j]);
        }
        assert forall|k: int| 0 <= k < cities.len() implies presents_a_scored_hit(
            (#[trigger] cities@[k])@, rv, coordinates_valid@, query@) by {
            assert(result_views(cities@)[k] == found[k]);
        }
    }
    cities
}

// ---------------------------------------------------------------------------
// Laws of the city search
// ---------------------------------------------------------------------------

/// Whether hit `i` has numeric coordinates and a score.
pub open spec fn is_match(valid: Seq<bool>, scores: Seq<Option<i64>>, i: int) -> bool {
    valid[i] && scores[i] is Some
}

/// Whether `c` is hit `i`, offered under its score.
pub open spec fn offered_from(
    c: CitySearchResultView,
    results: Seq<NominatimResultView>,
    valid: Seq<bool>,
    scores: Seq<Option<i64>>,
    i: int,
) -> bool {
    &&& 0 <= i < results.len()
    &&& is_match(valid, scores, i)
    &&& c == as_result(results[i], scores[i]->0)
}

/// Whether `c` is one of the hits, offered under its score.
pub open spec fn is_offered_hit(
    c: CitySearchResultView,
    results: Seq<NominatimResultView>,
    valid: Seq<bool>,
    scores: Seq<Option<i64>>,
) -> bool {
    exists|i: int| #[trigger] offered_from(c, results, valid, scores, i)
}

proof fn lemma_matched_members(
    results: Seq<NominatimResultView>,
    valid: Seq<bool>,
    scores: Seq<Option<i64>>,
)
    requires
        valid.len() == results.len(),
        scores.len() == results.len(),
    ensures
        forall|k: int| 0 <= k < matched_results(results, valid, scores).len() ==> is_offered_hit(
            #[trigger] matched_results(results, valid, scores)[k], results, valid, scores),
        forall|i: int| 0 <= i < results.len() && is_match(valid, scores, i) ==>
            matched_results(results, valid, scores).contains(#[trigger] as_result(results[i], scores[i]->0)),
    decreases results.len(),
{
    if results.len() > 0 {
        let n = results.len() - 1;
        let r0 = results.drop_last();
        let v0 = valid.take(n);
        let s0 = scores.take(n);
        lemma_matched_members(r0, v0, s0);
        let m0 = matched_results(r0, v0, s0);
        let m = matched_results(results, valid, scores);
        assert forall|k: int| 0 <= k < m.len() implies is_offered_hit(#[trigger] m[k], results, valid, scores) by {
            if k < m0.len() {
                assert(m[k] == m0[k]);
                assert(is_offered_hit(m0[k], r0, v0, s0));
                let i = choose|i: int| #[trigger] offered_from(m0[k], r0, v0, s0, i);
                assert(r0[i] == results[i] && v0[i] == valid[i] && s0[i] == scores[i]);
                assert(offered_from(m[k], results, valid, scores, i));
            } else {
                assert(offered_from(m[k], results, valid, scores, n as int));
            }
        }
        assert forall|i: int| 0 <= i < results.len() && is_match(valid, scores, i) implies
            m.contains(#[trigger] as_result(results[i], scores[i]->0)) by {
            if i < n {
                assert(r0[i] == results[i] && v0[i] == valid[i] && s0[i] == scores[i]);
                assert(is_match(v0, s0, i));
                let x = as_result(results[i], scores[i]->0);
                assert(m0.contains(x));
                let k = choose|k: int| 0 <= k < m0.len() && m0[k] == x;
                assert(m[k] == x);
            } else {
                assert(m[m.len() - 1] == as_result(results[n], scores[n]->0));
            }
        }
    } else {
        assert(matched_results(results, valid, scores).len() == 0);
    }
}

proof fn lemma_sorted_contains(m: Seq<CitySearchResultView>, x: CitySearchResultView)
    ensures
        sort_by_score(m).contains(x) <==> m.contains(x),
{
    broadcast use vstd::seq_lib::to_multiset_contains;

    lemma_sort_is_permutation(m);
    vstd::seq_lib::to_multiset_contains(m, x);
    vstd::seq_lib::to_multiset_contains(sort_by_score(m), x);
}

/// Law: at most five cities are offered.
pub proof fn law_ranked_at_most_five(
    results: Seq<NominatimResultView>,
    valid: Seq<bool>,
    scores: Seq<Option<i64>>,
)
    ensures
        ranked_results(results, valid, scores).len() <= max_results(),
{
}

/// Law: five cities are offered when at least five hits match, and every
/// match when fewer do.
pub proof fn law_ranked_count(
    results: Seq<NominatimResultView>,
    valid: Seq<bool>,
    scores: Seq<Option<i64>>,
)
    ensures
        ranked_results(results, valid, scores).len() == if matched_results(results, valid, scores).len() < 5 {
            matched_results(results, valid, scores).len()
        } else {
            5
        },
{
    lemma_sort_is_permutation(matched_results(results, valid, scores));
}

/// Law: the offered cities come in descending order of score.
pub proof fn law_ranked_sorted(
    results: Seq<NominatimResultView>,
    valid: Seq<bool>,
    scores: Seq<Option<i64>>,
)
    ensures
        is_sorted_by_score(ranked_results(results, valid, scores)),
{
    lemma_sort_is_sorted(matched_results(results, valid, scores));
}

/// Law: every offered city is a hit with numeric coordinates and a score,
/// offered under that score.
pub proof fn law_ranked_from_matches(
    results: Seq<NominatimResultView>,
    valid: Seq<bool>,
    scores: Seq<Option<i64>>,
)
    requires
        valid.len() == results.len(),
        scores.len() == results.len(),
    ensures
        forall|k: int| 0 <= k < ranked_results(results, valid, scores).len() ==> is_offered_hit(
            #[trigger] ranked_results(results, valid, scores)[k], results, valid, scores),
{
    let m = matched_results(results, valid, scores);
    let t = sort_by_score(m);
    let out = ranked_results(results, valid, scores);
    lemma_matched_members(results, valid, scores);
    lemma_sort_is_permutation(m);
    assert forall|k: int| 0 <= k < out.len() implies is_offered_hit(#[trigger] out[k], results, valid, scores) by {
        assert(out[k] == t[k]);
        assert(t.contains(t[k]));
        lemma_sorted_contains(m, t[k]);
        let j = choose|j: int| 0 <= j < m.len() && m[j] == t[k];
        assert(m[j] == t[k]);
        assert(is_offered_hit(m[j], results, valid, scores));
        let i = choose|i: int| #[trigger] offered_from(m[j], results, valid, scores, i);
        assert(offered_from(out[k], results, valid, scores, i));
    }
}

/// Law: no better match is left out; a hit with numeric coordinates whose
/// score beats that of an offered city is offered too.
pub proof fn law_no_better_match_left_out(
    results: Seq<NominatimResultView>,
    valid: Seq<bool>,
    scores: Seq<Option<i64>>,
    i: int,
    k: int,
)
    requires
        valid.len() == results.len(),
        scores.len() == results.len(),
        0 <= i < results.len(),
        is_match(valid, scores, i),
        0 <= k < ranked_results(results, valid, scores).len(),
        scores[i]->0 > ranked_results(results, valid, scores)[k].score,
    ensures
        ranked_results(results, valid, scores).contains(as_result(results[i], scores[i]->0)),
{
    let m = matched_results(results, valid, scores);
    let t = sort_by_score(m);
    let out = ranked_results(results, valid, scores);
    let x = as_result(results[i], scores[i]->0);
    lemma_matched_members(results, valid, scores);
    assert(m.contains(x));
    lemma_sorted_contains(m, x);
    lemma_sort_is_sorted(m);
    let j = choose|j: int| 0 <= j < t.len() && t[j] == x;
    assert(out[k] == t[k]);
    if j < out.len() {
        assert(out[j] == x);
    } else {
        assert(k < j);
        assert(t[k].score >= t[j].score);
    }
}

/// Law: when no more than five hits match, every one of them is offered.
pub proof fn law_few_matches_all_offered(
    results: Seq<NominatimResultView>,
    valid: Seq<bool>,
    scores: Seq<Option<i64>>,
    i: int,
)
    requires
        valid.len() == results.len(),
        scores.len() == results.len(),
        0 <= i < results.len(),
        is_match(valid, scores, i),
        matched_results(results, valid, scores).len() <= max_results(),
    ensures
        ranked_results(results, valid, scores).contains(as_result(results[i], scores[i]->0)),
{
    let m = matched_results(results, valid, scores);
    lemma_matched_members(results, valid, scores);
    lemma_sorted_contains(m, as_result(results[i], scores[i]->0));
    lemma_sort_is_permutation(m);
}

/// Law: a blank query offers no city.
pub proof fn law_blank_query_offers_nothing(
    query: Seq<char>,
    results: Seq<NominatimResultView>,
    valid: Seq<bool>,
)
    requires
        is_blank_text(query),
    ensures
        spec_search_cities(query, results, valid).len() == 0,
{
}

/// Whether `c` presents hit `h`: the hit's name, coordinates and display name.
pub open spec fn describes_hit(c: CitySearchResultView, h: NominatimResultView) -> bool {
    &&& c.name == spec_city_name(h)
    &&& c.latitude == h.lat
    &&& c.longitude == h.lon
    &&& c.display_name == h.display_name
}

/// Whether `c` presents hit `i`, which has numeric coordinates, under the
/// score given for that hit.
pub open spec fn offered_as(
    c: CitySearchResultView,
    results: Seq<NominatimResultView>,
    valid: Seq<bool>,
    scores: Seq<Option<i64>>,
    i: int,
) -> bool {
    &&& 0 <= i < results.len()
    &&& valid[i]
    &&& scores[i] == Some(c.score)
    &&& describes_hit(c, results[i])
}

/// Whether `c` presents hit `i`, which has numeric coordinates, under the
/// fuzzy matcher's score of its display name against `query`.
pub open spec fn scored_hit(
    c: CitySearchResultView,
    results: Seq<NominatimResultView>,
    valid: Seq<bool>,
    query: Seq<char>,
    i: int,
) -> bool {
    &&& 0 <= i < results.len()
    &&& valid[i]
    &&& skim_score(results[i].display_name, query) == Some(c.score)
    &&& describes_hit(c, results[i])
}

/// Whether `c` presents some hit with numeric coordinates, under that hit's
/// given score.
pub open spec fn presents_a_hit(
    c: CitySearchResultView,
    results: Seq<NominatimResultView>,
    valid: Seq<bool>,
    scores: Seq<Option<i64>>,
) -> bool {
    exists|i: int| #[trigger] offered_as(c, results, valid, scores, i)
}

/// Whether `c` presents some hit with numeric coordinates, under the fuzzy
/// matcher's score of that hit against `query`.
pub open spec fn presents_a_scored_hit(
    c: CitySearchResultView,
    results: Seq<NominatimResultView>,
    valid: Seq<bool>,
    query: Seq<char>,
) -> bool {
    exists|i: int| #[trigger] scored_hit(c, results, valid, query, i)
}

/// Law: the text before the first comma is a prefix of the text, holds no
/// comma, and is followed by a comma unless it is the whole text.
pub proof fn law_first_segment(s: Seq<char>)
    ensures
        first_segment(s).len() <= s.len(),
        first_segment(s) == s.take(first_segment(s).len() as int),
        forall|k: int| 0 <= k < first_segment(s).len() ==> #[trigger] first_segment(s)[k] != ',',
        first_segment(s).len() == s.len() || s[first_segment(s).len() as int] == ',',
    decreases s.len(),
{
    crate::text::lemma_comma_index_bounds(s);
}

/// Law: a hit is named after its address's city if there is one, else its
/// town, else its village; with none of these (or no address) it is named by
/// its display name up to the first comma, whatever else the address holds.
/// In every case the name is one of those four texts.
pub proof fn law_city_name_choice(r: NominatimResultView)
    ensures
        r.address is Some && r.address->0.city is Some ==> spec_city_name(r) == r.address->0.city->0,
        r.address is Some && r.address->0.city is None && r.address->0.town is Some ==> spec_city_name(r) == r.address->0.town->0,
        r.address is Some && r.address->0.city is None && r.address->0.town is None && r.address->0.village is Some
            ==> spec_city_name(r) == r.address->0.village->0,
        lacks_place_name(r) ==> spec_city_name(r) == first_segment(r.display_name),
        spec_city_name(r) == first_segment(r.display_name) || (r.address is Some && (
            r.address->0.city == Some(spec_city_name(r)) || r.address->0.town == Some(spec_city_name(r))
                || r.address->0.village == Some(spec_city_name(r)))),
{
}

/// Law: every offered city presents one of the hits, one with numeric
/// coordinates: its name, coordinates and display name are that hit's, and
/// its score is the score given for that hit.
pub proof fn law_ranked_describe_hits(
    results: Seq<NominatimResultView>,
    valid: Seq<bool>,
    scores: Seq<Option<i64>>,
)
    requires
        valid.len() == results.len(),
        scores.len() == results.len(),
    ensures
        forall|k: int| 0 <= k < ranked_results(results, valid, scores).len() ==> presents_a_hit(
            #[trigger] ranked_results(results, valid, scores)[k], results, valid, scores),
{
    law_ranked_from_matches(results, valid, scores);
    let out = ranked_results(results, valid, scores);
    assert forall|k: int| 0 <= k < out.len() implies presents_a_hit(#[trigger] out[k], results, valid, scores) by {
        assert(is_offered_hit(out[k], results, valid, scores));
        let i = choose|i: int| #[trigger] offered_from(out[k], results, valid, scores, i);
        assert(offered_as(out[k], results, valid, scores, i));
    }
}

/// Law: every city offered for a query presents one of the hits with numeric
/// coordinates, and carries the fuzzy matcher's score of that hit's display
/// name against the query, so that its own display name scores exactly its
/// score.
pub proof fn law_search_scores_are_skim_scores(
    query: Seq<char>,
    results: Seq<NominatimResultView>,
    valid: Seq<bool>,
)
    requires
        valid.len() == results.len(),
    ensures
        forall|k: int| 0 <= k < spec_search_cities(query, results, valid).len() ==> presents_a_scored_hit(
            #[trigger] spec_search_cities(query, results, valid)[k], results, valid, query),
        forall|k: int| 0 <= k < spec_search_cities(query, results, valid).len() ==> skim_score(
            (#[trigger] spec_search_cities(query, results, valid)[k]).display_name,
            query,
        ) == Some(spec_search_cities(query, results, valid)[k].score),
{
    let out = spec_search_cities(query, results, valid);
    if !is_blank_text(query) {
        let scores = query_scores(results, valid, query);
        law_ranked_describe_hits(results, valid, scores);
        assert forall|k: int| 0 <= k < out.len() implies presents_a_scored_hit(#[trigger] out[k], results, valid, query) by {
            assert(presents_a_hit(out[k], results, valid, scores));
            let i = choose|i: int| #[trigger] offered_as(out[k], results, valid, scores, i);
            assert(scores[i] == skim_score(results[i].display_name, query));
            assert(scored_hit(out[k], results, valid, query, i));
        }
        assert forall|k: int| 0 <= k < out.len() implies skim_score((#[trigger] out[k]).display_name, query)
            == Some(out[k].score) by {
            assert(presents_a_hit(out[k], results, valid, scores));
            let i = choose|i: int| #[trigger] offered_as(out[k], results, valid, scores, i);
            assert(scores[i] == skim_score(results[i].display_name, query));
        }
    }
}

/// Law: of two offered cities, the one whose display name the fuzzy matcher
/// scores higher against the query comes first.
pub proof fn law_search_best_first(
    query: Seq<char>,
    results: Seq<NominatimResultView>,
    valid: Seq<bool>,
)
    requires
        valid.len() == results.len(),
    ensures
        forall|k: int, j: int| 0 <= k < j < spec_search_cities(query, results, valid).len()
            ==> spec_search_cities(query, results, valid)[k].score >= spec_search_cities(query, results, valid)[j].score,
        forall|k: int, j: int|
            0 <= k < spec_search_cities(query, results, valid).len()
            && 0 <= j < spec_search_cities(query, results, valid).len()
            && skim_score(spec_search_cities(query, results, valid)[k].display_name, query)->0
                > skim_score(spec_search_cities(query, results, valid)[j].display_name, query)->0
            ==> k < j,
{
    let out = spec_search_cities(query, results, valid);
    law_search_scores_are_skim_scores(query, results, valid);
    if !is_blank_text(query) {
        law_ranked_sorted(results, valid, query_scores(results, valid, query));
    }
    assert forall|k: int, j: int|
        0 <= k < out.len() && 0 <= j < out.len()
        && skim_score(out[k].display_name, query)->0 > skim_score(out[j].display_name, query)->0
        implies k < j by {
        assert(skim_score(out[k].display_name, query) == Some(out[k].score));
        assert(skim_score(out[j].display_name, query) == Some(out[j].score));
        if j <= k {
            if j < k {
                assert(out[j].score >= out[k].score);
            }
        }
    }
}

} // verus!
