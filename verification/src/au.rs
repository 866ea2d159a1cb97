//! Catalog fetch-and-match pipeline: given a region's matcher settings,
//! plans a search request against the catalog's REST API and filters the
//! decoded result down to the distribution URLs matching the configured
//! pattern.
//!
//! The network call and the structured decode of the response body belong to
//! the embedding application; this module owns the decisions around them:
//! it validates the settings, compiles the pattern, says what request to
//! send, and turns the outcome of the call into the matched URLs or a typed
//! error.

use crate::settings::MatcherSettingsDerive;
use crate::text::str_eq;
use vstd::prelude::*;

verus! {

/// Whether a pattern text is a valid regular expression. Named after the
/// behaviour of `regex::Regex::new`, which depends on the pattern alone.
pub uninterp spec fn pattern_compiles(p: Seq<char>) -> bool;

/// Whether a pattern is found anywhere in a text (a search, not a full
/// match, unless the pattern itself anchors). Named after the behaviour of
/// `regex::Regex::is_match`, which depends on the pattern and text alone.
pub uninterp spec fn pattern_found(p: Seq<char>, text: Seq<char>) -> bool;

#[verifier::external_type_specification]
#[verifier::external_body]
pub struct ExRegex(regex::Regex);

/// A pattern together with its compiled form.
#[derive(Debug)]
pub struct CompiledPattern {
    source: String,
    regex: regex::Regex,
}

impl CompiledPattern {
    /// A `CompiledPattern` only ever comes out of a successful compilation.
    #[verifier::type_invariant]
    spec fn compiled(self) -> bool {
        pattern_compiles(self.source@)
    }
}

/// Relies on `regex::Regex::new`: compilation succeeds exactly when the
/// pattern text is a valid regular expression, a property of the pattern
/// alone; the compiled value is paired with the text it came from.
#[verifier::external_body]
fn compile_regex(pattern: &str) -> (r: Option<CompiledPattern>)
    ensures
        r is Some <==> pattern_compiles(pattern@),
        r matches Some(p) ==> p.source@ == pattern@,
{
    match regex::Regex::new(pattern) {
        Ok(re) => Some(CompiledPattern { source: pattern.to_string(), regex: re }),
        Err(_) => None,
    }
}

/// Relies on `regex::Regex::clone` (an inexpensive handle clone): the clone
/// is compiled from the same pattern text as the original.
#[verifier::external_body]
fn clone_pattern(p: &CompiledPattern) -> (r: CompiledPattern)
    ensures
        r.source@ == p.source@,
{
    CompiledPattern { source: p.source.clone(), regex: p.regex.clone() }
}

/// Relies on `regex::Regex::is_match`: whether the pattern occurs anywhere
/// in the text depends on the pattern and the text alone. `compile_regex` is
/// the only producer of `CompiledPattern` values and pairs `regex` with the
/// exact `source` text it was compiled from.
#[verifier::external_body]
fn regex_is_match(p: &CompiledPattern, text: &str) -> (r: bool)
    ensures
        r == pattern_found(p.source@, text@),
{
    p.regex.is_match(text)
}

impl CompiledPattern {
    /// The pattern text this value was compiled from.
    pub closed spec fn pattern(&self) -> Seq<char> {
        self.source@
    }

    /// Compiles a pattern; `None` exactly when the text is not a valid
    /// regular expression.
    pub fn compile(pattern: &str) -> (r: Option<CompiledPattern>)
        ensures
            r is Some <==> pattern_compiles(pattern@),
            r matches Some(p) ==> p.pattern() == pattern@,
    {
        compile_regex(pattern)
    }

    /// Whether the pattern is found anywhere in the text.
    pub fn is_match(&self, text: &str) -> (r: bool)
        ensures
            r == pattern_found(self.pattern(), text@),
    {
        regex_is_match(self, text)
    }

    /// The pattern text this value was compiled from.
    pub fn source_text(&self) -> (r: &str)
        ensures
            r@ == self.pattern(),
    {
        self.source.as_str()
    }
}

/// An append-only memo of compiled patterns keyed by their exact source
/// text: a pattern already compiled is never recompiled.
pub struct PatternCache {
    entries: Vec<CompiledPattern>,
}

impl PatternCache {
    /// The pattern texts compiled so far, in insertion order.
    pub closed spec fn patterns(&self) -> Seq<Seq<char>> {
        self.entries@.map_values(|p: CompiledPattern| p.pattern())
    }

    /// An empty cache.
    pub fn new() -> (r: Self)
        ensures
            r.patterns() == Seq::<Seq<char>>::empty(),
    {
        let r = PatternCache { entries: Vec::new() };
        proof {
            assert(r.patterns() =~= Seq::<Seq<char>>::empty());
        }
        r
    }

    /// The compiled pattern stored at an index.
    pub fn entry(&self, i: usize) -> (r: &CompiledPattern)
        requires
            i < self.patterns().len(),
        ensures
            r.pattern() == self.patterns()[i as int],
    {
        &self.entries[i]
    }

    /// Hands back the index of the compiled form of a pattern, compiling and
    /// appending it only if no entry with that exact source text exists yet.
    /// The cache only ever grows, and existing entries are never replaced.
    pub fn compiled(&mut self, pattern: &str) -> (r: Option<usize>)
        ensures
            final(self).patterns().len() >= old(self).patterns().len(),
            forall|j: int| 0 <= j < old(self).patterns().len()
                ==> final(self).patterns()[j] == old(self).patterns()[j],
            match r {
                Some(i) => pattern_compiles(pattern@) && i < final(self).patterns().len()
                    && final(self).patterns()[i as int] == pattern@,
                None => !pattern_compiles(pattern@) && *final(self) == *old(self),
            },
    {
        let mut i: usize = 0;
        let n = self.entries.len();
        while i < n
            invariant
                n == self.entries@.len(),
                i <= n,
            decreases n - i,
        {
            let e = &self.entries[i];
            if str_eq(e.source_text(), pattern) {
                proof {
                    use_type_invariant(e);
                }
                return Some(i);
            }
            i += 1;
        }
        match compile_regex(pattern) {
            Some(p) => {
                let ghost before = self.entries@;
                self.entries.push(p);
                proof {
                    assert(self.entries@ =~= before.push(p));
                    assert(forall|j: int| 0 <= j < before.len()
                        ==> self.patterns()[j] == before.map_values(
                        |q: CompiledPattern| q.pattern(),
                    )[j]);
                }
                Some(self.entries.len() - 1)
            },
            None => None,
        }
    }
}

/// One downloadable resource entry decoded from a catalog search result.
#[derive(Debug)]
pub struct Distribution {
    /// Identifier of the entry.
    pub identifier: String,
    /// The candidate URL for matching and download.
    pub download_url: String,
    /// Modification timestamp, as given by the catalog.
    pub modified: Option<String>,
    /// Media type, as given by the catalog.
    pub media_type: Option<String>,
}

impl Distribution {
    /// Whether this distribution's download URL matches the pattern.
    pub fn am_i_right(&self, r: &CompiledPattern) -> (b: bool)
        ensures
            b == pattern_found(r.pattern(), self.download_url@),
    {
        r.is_match(self.download_url.as_str())
    }
}

/// One dataset group of a search result: a sequence of distributions.
#[derive(Debug)]
pub struct DataSets {
    /// The distributions of this group, in source order.
    pub distributions: Vec<Distribution>,
}

/// A decoded search result: a sequence of dataset groups.
#[derive(Debug)]
pub struct SearchDSResult {
    /// The dataset groups, in source order.
    pub data_sets: Vec<DataSets>,
}

/// The download URLs of the distributions whose URL the pattern matches,
/// in source order.
pub open spec fn group_urls(p: Seq<char>, dists: Seq<Distribution>) -> Seq<Seq<char>>
    decreases dists.len(),
{
    if dists.len() == 0 {
        Seq::empty()
    } else {
        let rest = group_urls(p, dists.drop_last());
        if pattern_found(p, dists.last().download_url@) {
            rest.push(dists.last().download_url@)
        } else {
            rest
        }
    }
}

/// The matching download URLs across a sequence of dataset groups: group
/// order first, then within-group order.
pub open spec fn groups_urls(p: Seq<char>, groups: Seq<DataSets>) -> Seq<Seq<char>>
    decreases groups.len(),
{
    if groups.len() == 0 {
        Seq::empty()
    } else {
        groups_urls(p, groups.drop_last()) + group_urls(p, groups.last().distributions@)
    }
}

/// The matching download URLs of a whole search result, order preserved, no
/// deduplication.
pub open spec fn matched_urls(p: Seq<char>, result: SearchDSResult) -> Seq<Seq<char>> {
    groups_urls(p, result.data_sets@)
}

/// Flattens a search result, keeps the distributions whose download URL
/// matches the pattern, and returns their URLs in source order.
pub fn match_search_result(pattern: &CompiledPattern, result: &SearchDSResult) -> (v: Vec<String>)
    ensures
        v.deep_view() == matched_urls(pattern.pattern(), *result),
{
    let ghost p = pattern.pattern();
    let mut out: Vec<String> = Vec::new();
    proof {
        assert(out.deep_view() =~= groups_urls(p, result.data_sets@.take(0)));
    }
    let mut gi: usize = 0;
    while gi < result.data_sets.len()
        invariant
            p == pattern.pattern(),
            gi <= result.data_sets@.len(),
            out.deep_view() == groups_urls(p, result.data_sets@.take(gi as int)),
        decreases result.data_sets@.len() - gi,
    {
        let group = &result.data_sets[gi];
        let ghost outer = out.deep_view();
        let mut di: usize = 0;
        while di < group.distributions.len()
            invariant
                p == pattern.pattern(),
                gi < result.data_sets@.len(),
                group == &result.data_sets@[gi as int],
                di <= group.distributions@.len(),
                outer == groups_urls(p, result.data_sets@.take(gi as int)),
                out.deep_view() == outer + group_urls(p, group.distributions@.take(di as int)),
            decreases group.distributions@.len() - di,
        {
            let d = &group.distributions[di];
            let ghost out_before = out.deep_view();
            if d.am_i_right(pattern) {
                out.push(d.download_url.clone());
                proof {
                    assert(out.deep_view() =~= out_before.push(d.download_url@));
                }
            }
            proof {
                let taken = group.distributions@.take(di + 1);
                assert(taken.drop_last() =~= group.distributions@.take(di as int));
                assert(taken.last() == group.distributions@[di as int]);
                assert(out.deep_view() =~= outer + group_urls(p, taken));
            }
            di += 1;
        }
        proof {
            assert(group.distributions@.take(group.distributions@.len() as int)
                =~= group.distributions@);
            let taken = result.data_sets@.take(gi + 1);
            assert(taken.drop_last() =~= result.data_sets@.take(gi as int));
            assert(taken.last() == result.data_sets@[gi as int]);
            assert(out.deep_view() =~= groups_urls(p, taken));
        }
        gi += 1;
    }
    proof {
        assert(result.data_sets@.take(result.data_sets@.len() as int) =~= result.data_sets@);
    }
    out
}

/// Law: the matching URLs of one group are exactly the group's
/// distributions, filtered by whether the pattern is found in their download
/// URL, mapped to that URL.
pub proof fn lemma_group_urls_is_filter_map(p: Seq<char>, dists: Seq<Distribution>)
    ensures
        group_urls(p, dists) == dists.filter(
            |d: Distribution| pattern_found(p, d.download_url@),
        ).map_values(|d: Distribution| d.download_url@),
    decreases dists.len(),
{
    broadcast use Seq::lemma_filter_push;
    broadcast use Seq::lemma_push_map_commute;

    let pred = |d: Distribution| pattern_found(p, d.download_url@);
    let f = |d: Distribution| d.download_url@;
    if dists.len() == 0 {
        dists.filter_lemma(pred);
        assert(dists.filter(pred).map_values(f) =~= Seq::<Seq<char>>::empty());
    } else {
        let prefix = dists.drop_last();
        lemma_group_urls_is_filter_map(p, prefix);
        assert(dists =~= prefix.push(dists.last()));
        assert(dists.filter(pred) == prefix.push(dists.last()).filter(pred));
    }
}

/// Law: the matching URLs of a whole search result are exactly its dataset
/// groups' distributions, flattened in source order, filtered by the
/// pattern, and mapped to their download URL.
pub proof fn lemma_matched_urls_is_filter_map(p: Seq<char>, result: SearchDSResult)
    ensures
        matched_urls(p, result) == result.data_sets@.map_values(
            |g: DataSets| g.distributions@,
        ).flatten().filter(|d: Distribution| pattern_found(p, d.download_url@)).map_values(
            |d: Distribution| d.download_url@,
        ),
{
    lemma_groups_urls_is_filter_map(p, result.data_sets@);
}

proof fn lemma_groups_urls_is_filter_map(p: Seq<char>, groups: Seq<DataSets>)
    ensures
        groups_urls(p, groups) == groups.map_values(
            |g: DataSets| g.distributions@,
        ).flatten().filter(|d: Distribution| pattern_found(p, d.download_url@)).map_values(
            |d: Distribution| d.download_url@,
        ),
    decreases groups.len(),
{
    broadcast use Seq::filter_distributes_over_add;

    let pred = |d: Distribution| pattern_found(p, d.download_url@);
    let f = |d: Distribution| d.download_url@;
    let gmap = groups.map_values(|g: DataSets| g.distributions@);
    gmap.lemma_flatten_and_flatten_alt_are_equivalent();
    if groups.len() == 0 {
        assert(gmap.flatten().filter(pred).map_values(f) =~= Seq::<Seq<char>>::empty());
    } else {
        let prefix = groups.drop_last();
        lemma_groups_urls_is_filter_map(p, prefix);
        lemma_group_urls_is_filter_map(p, groups.last().distributions@);
        let pmap = prefix.map_values(|g: DataSets| g.distributions@);
        pmap.lemma_flatten_and_flatten_alt_are_equivalent();
        assert(gmap.drop_last() =~= pmap);
        assert(gmap.flatten_alt() == pmap.flatten_alt() + gmap.last());
        let a = pmap.flatten();
        let b = gmap.last();
        assert((a + b).filter(pred) == a.filter(pred) + b.filter(pred));
        assert((a.filter(pred) + b.filter(pred)).map_values(f) =~= a.filter(pred).map_values(f)
            + b.filter(pred).map_values(f));
    }
}

/// Law: every URL kept from a group is one the pattern matches, and a group
/// never contributes more URLs than it has distributions.
pub proof fn lemma_group_urls_sound(p: Seq<char>, dists: Seq<Distribution>)
    ensures
        forall|k: int| 0 <= k < group_urls(p, dists).len() ==> pattern_found(
            p,
            group_urls(p, dists)[k],
        ),
        group_urls(p, dists).len() <= dists.len(),
    decreases dists.len(),
{
    if dists.len() > 0 {
        lemma_group_urls_sound(p, dists.drop_last());
    }
}

/// Law: a search result in which no distribution's download URL matches the
/// pattern yields the empty sequence — not an error.
pub proof fn lemma_no_match_empty(p: Seq<char>, groups: Seq<DataSets>)
    requires
        forall|i: int, j: int| 0 <= i < groups.len() && 0 <= j
            < groups[i].distributions@.len() ==> !pattern_found(
            p,
            groups[i].distributions@[j].download_url@,
        ),
    ensures
        groups_urls(p, groups).len() == 0,
    decreases groups.len(),
{
    if groups.len() > 0 {
        lemma_no_match_empty(p, groups.drop_last());
        lemma_group_no_match_empty(p, groups.last().distributions@);
    }
}

proof fn lemma_group_no_match_empty(p: Seq<char>, dists: Seq<Distribution>)
    requires
        forall|j: int| 0 <= j < dists.len() ==> !pattern_found(p, dists[j].download_url@),
    ensures
        group_urls(p, dists).len() == 0,
    decreases dists.len(),
{
    if dists.len() > 0 {
        lemma_group_no_match_empty(p, dists.drop_last());
    }
}

/// Errors of the fetch-and-match pipeline.
#[derive(Debug, PartialEq)]
pub enum FetcherMatcherError {
    /// A required matcher setting (`rest_url`, `query` or `matcher`) is
    /// absent.
    MissingSetting,
    /// The configured matcher is not a valid pattern.
    InvalidPattern,
    /// The network call failed; carries the transport's message.
    Transport(String),
    /// The response body did not decode into a search result; carries the
    /// decoder's message.
    Decode(String),
}

/// What the embedding application reports back about the network call and
/// the decode of its response body.
#[derive(Debug)]
pub enum FetchOutcome {
    /// The call itself failed; carries the transport's message.
    Transport(String),
    /// The body did not decode into a search result; carries the decoder's
    /// message.
    Malformed(String),
    /// The decoded search result.
    Success(SearchDSResult),
}

/// A planned catalog search request: where to send it, what to ask, and the
/// compiled pattern to filter the result with.
#[derive(Debug)]
pub struct FetchPlan {
    /// The REST endpoint to send the GET request to.
    pub url: String,
    /// The value of the single `query` parameter.
    pub query: String,
    /// The compiled pattern to filter result URLs with.
    pub matcher: CompiledPattern,
}

impl FetchPlan {
    /// The pattern text the plan filters with.
    pub closed spec fn pattern(&self) -> Seq<char> {
        self.matcher.pattern()
    }
}

/// All three matcher settings are present.
pub open spec fn settings_complete(s: MatcherSettingsDerive) -> bool {
    s.rest_url is Some && s.query is Some && s.matcher is Some
}

/// The plan carries exactly the settings' endpoint, query and pattern.
pub open spec fn plan_matches_settings(plan: FetchPlan, s: MatcherSettingsDerive) -> bool {
    match (s.rest_url, s.query, s.matcher) {
        (Some(u), Some(q), Some(m)) => plan.url == u && plan.query == q && plan.pattern() == m@,
        _ => false,
    }
}

/// Plans the catalog search request for a region's matcher settings:
/// requires all three settings present and the pattern to compile, and says
/// exactly which of the two failed otherwise.
pub fn plan_fetch(settings: &MatcherSettingsDerive) -> (r: Result<FetchPlan, FetcherMatcherError>)
    ensures
        match r {
            Ok(plan) => settings_complete(*settings) && plan_matches_settings(plan, *settings),
            Err(e) => (e == FetcherMatcherError::MissingSetting && !settings_complete(*settings))
                || (e == FetcherMatcherError::InvalidPattern && settings_complete(*settings)
                && (settings.matcher matches Some(m) && !pattern_compiles(m@))),
        },
{
    let url = match &settings.rest_url {
        Some(u) => u.clone(),
        None => { return Err(FetcherMatcherError::MissingSetting) },
    };
    let query = match &settings.query {
        Some(q) => q.clone(),
        None => { return Err(FetcherMatcherError::MissingSetting) },
    };
    let matcher_text = match &settings.matcher {
        Some(m) => m,
        None => { return Err(FetcherMatcherError::MissingSetting) },
    };
    match CompiledPattern::compile(matcher_text.as_str()) {
        Some(matcher) => Ok(FetchPlan { url, query, matcher }),
        None => Err(FetcherMatcherError::InvalidPattern),
    }
}

/// Plans the catalog search request as [`plan_fetch`] does, but compiles
/// the pattern through the given cache: a pattern compiled for an earlier
/// call is handed out again, not recompiled, and the cache only grows.
pub fn plan_fetch_cached(settings: &MatcherSettingsDerive, cache: &mut PatternCache) -> (r: Result<
    FetchPlan,
    FetcherMatcherError,
>)
    ensures
        final(cache).patterns().len() >= old(cache).patterns().len(),
        forall|j: int| 0 <= j < old(cache).patterns().len() ==> final(cache).patterns()[j] == old(
            cache,
        ).patterns()[j],
        r is Err ==> *final(cache) == *old(cache),
        match r {
            Ok(plan) => settings_complete(*settings) && plan_matches_settings(plan, *settings),
            Err(e) => (e == FetcherMatcherError::MissingSetting && !settings_complete(*settings))
                || (e == FetcherMatcherError::InvalidPattern && settings_complete(*settings)
                && (settings.matcher matches Some(m) && !pattern_compiles(m@))),
        },
{
    let url = match &settings.rest_url {
        Some(u) => u.clone(),
        None => { return Err(FetcherMatcherError::MissingSetting) },
    };
    let query = match &settings.query {
        Some(q) => q.clone(),
        None => { return Err(FetcherMatcherError::MissingSetting) },
    };
    let matcher_text = match &settings.matcher {
        Some(m) => m,
        None => { return Err(FetcherMatcherError::MissingSetting) },
    };
    match cache.compiled(matcher_text.as_str()) {
        Some(i) => {
            let entry = cache.entry(i);
            Ok(FetchPlan { url, query, matcher: clone_pattern(entry) })
        },
        None => Err(FetcherMatcherError::InvalidPattern),
    }
}

/// Concludes a planned fetch from what the application reports back: a
/// transport failure propagates as a transport error, an undecodable body as
/// a decode error, and a decoded search result yields exactly the matching
/// download URLs, in source order — an empty match is a success, and no
/// partial sequence is ever returned.
pub fn fetcher_matcher(plan: &FetchPlan, outcome: FetchOutcome) -> (r: Result<
    Vec<String>,
    FetcherMatcherError,
>)
    ensures
        match outcome {
            FetchOutcome::Transport(m) => r == Err::<Vec<String>, FetcherMatcherError>(
                FetcherMatcherError::Transport(m),
            ),
            FetchOutcome::Malformed(m) => r == Err::<Vec<String>, FetcherMatcherError>(
                FetcherMatcherError::Decode(m),
            ),
            FetchOutcome::Success(result) => r matches Ok(v) && v.deep_view() == matched_urls(
                plan.pattern(),
                result,
            ),
        },
{
    match outcome {
        FetchOutcome::Transport(m) => Err(FetcherMatcherError::Transport(m)),
        FetchOutcome::Malformed(m) => Err(FetcherMatcherError::Decode(m)),
        FetchOutcome::Success(result) => Ok(match_search_result(&plan.matcher, &result)),
    }
}

} // verus!
