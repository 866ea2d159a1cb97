//! Per-region configuration: layered-source merging, decoding and a
//! registry of merged, validated configuration snapshots keyed by
//! two-character region codes.
//!
//! The embedding application gathers the raw layers (an optional defaults
//! source, a required run-mode source, and environment overrides) and hands
//! them to [`Settings::load`], which merges and decodes them, stores the
//! result in a [`SettingsContainer`], and returns an independent copy.

use crate::text::{char_alphanumeric, is_alphanumeric_char, no_control_chars, str_no_control};
use vstd::hash_map::StringHashMap;
use vstd::prelude::*;
use vstd::string::*;

verus! {

/// A valid region code: exactly two characters, both alphanumeric.
pub open spec fn is_valid_region(s: Seq<char>) -> bool {
    s.len() == 2 && (forall|i: int| 0 <= i < s.len() ==> is_alphanumeric_char(s[i]))
}

/// Checks the region-code shape: exactly two characters, all alphanumeric.
pub fn validate_submod(submod: &str) -> (r: bool)
    ensures
        r == is_valid_region(submod@),
{
    let len = submod.unicode_len();
    if len != 2 {
        return false;
    }
    let c0 = submod.get_char(0);
    let c1 = submod.get_char(1);
    let r = char_alphanumeric(c0) && char_alphanumeric(c1);
    assert(r == is_valid_region(submod@)) by {
        if r {
            assert(forall|i: int| 0 <= i < submod@.len() ==> is_alphanumeric_char(submod@[i]))
                by {
                assert(submod@.len() == 2);
            }
        }
    }
    r
}

/// Error taxonomy of the configuration registry.
#[derive(Debug, Clone, Copy, PartialEq, Eq, Structural)]
pub enum SettingsError {
    /// A region code not of the two-character alphanumeric shape was passed.
    InvalidRegion,
    /// The required run-mode configuration source is absent.
    MissingSource,
    /// The merged configuration does not decode into a settings value.
    Decode,
    /// No entry is stored for the requested region.
    MissingEntry,
}

/// Per-region matcher configuration, immutable once loaded.
#[derive(Debug, PartialEq)]
pub struct MatcherSettingsDerive {
    /// Identifying label of the catalog; non-empty, free of control characters.
    pub catalog: String,
    /// URL of the REST search endpoint.
    pub rest_url: Option<String>,
    /// Value of the `query` parameter for the REST call.
    pub query: Option<String>,
    /// Pattern used to select matching fetcher URLs.
    pub matcher: Option<String>,
}

/// A region's configuration: a container holding the matcher settings, with
/// room for further per-region settings later.
#[derive(Debug, PartialEq)]
pub struct SettingsDerive {
    /// Settings of the fetch-and-match pipeline.
    pub fetcher_matcher: MatcherSettingsDerive,
}

/// Well-formedness of decoded matcher settings: the catalog label is
/// non-empty and no field holds a control character.
pub open spec fn wf_matcher_settings(m: MatcherSettingsDerive) -> bool {
    &&& m.catalog@.len() > 0
    &&& no_control_chars(m.catalog@)
    &&& (m.rest_url matches Some(u) ==> no_control_chars(u@))
    &&& (m.query matches Some(q) ==> no_control_chars(q@))
    &&& (m.matcher matches Some(p) ==> no_control_chars(p@))
}

impl MatcherSettingsDerive {
    /// Builds matcher settings from the four raw fields.
    pub fn new(
        catalog: String,
        rest_url: Option<String>,
        query: Option<String>,
        matcher: Option<String>,
    ) -> (r: Self)
        ensures
            r == (MatcherSettingsDerive { catalog, rest_url, query, matcher }),
    {
        MatcherSettingsDerive { catalog, rest_url, query, matcher }
    }
}

impl SettingsDerive {
    /// Wraps matcher settings into a region configuration.
    pub fn new(fetcher_matcher: MatcherSettingsDerive) -> (r: Self)
        ensures
            r == (SettingsDerive { fetcher_matcher }),
    {
        SettingsDerive { fetcher_matcher }
    }
}

fn clone_string_opt(s: &Option<String>) -> (r: Option<String>)
    ensures
        r == *s,
{
    match s {
        Some(v) => Some(v.clone()),
        None => None,
    }
}

fn clone_settings(s: &SettingsDerive) -> (r: SettingsDerive)
    ensures
        r == *s,
{
    SettingsDerive {
        fetcher_matcher: MatcherSettingsDerive {
            catalog: s.fetcher_matcher.catalog.clone(),
            rest_url: clone_string_opt(&s.fetcher_matcher.rest_url),
            query: clone_string_opt(&s.fetcher_matcher.query),
            matcher: clone_string_opt(&s.fetcher_matcher.matcher),
        },
    }
}

/// One raw configuration layer: each recognized key is either set by this
/// layer or left to earlier layers.
#[derive(Debug)]
pub struct SettingsSource {
    /// Value for the catalog label, if this layer sets it.
    pub catalog: Option<String>,
    /// Value for the REST endpoint URL, if this layer sets it.
    pub rest_url: Option<String>,
    /// Value for the query parameter, if this layer sets it.
    pub query: Option<String>,
    /// Value for the URL pattern, if this layer sets it.
    pub matcher: Option<String>,
}

/// The layer that sets nothing.
pub open spec fn empty_source() -> SettingsSource {
    SettingsSource { catalog: None, rest_url: None, query: None, matcher: None }
}

/// A later layer overrides a key exactly where it sets that key.
pub open spec fn override_field(base: Option<String>, over: Option<String>) -> Option<String> {
    if over is Some {
        over
    } else {
        base
    }
}

/// Key-wise merge of two layers: `over` wins on every key it sets, `base` is
/// retained on the rest.
pub open spec fn merged_source(base: SettingsSource, over: SettingsSource) -> SettingsSource {
    SettingsSource {
        catalog: override_field(base.catalog, over.catalog),
        rest_url: override_field(base.rest_url, over.rest_url),
        query: override_field(base.query, over.query),
        matcher: override_field(base.matcher, over.matcher),
    }
}

/// A merged source decodes exactly when the catalog label is present,
/// non-empty and control-free, and every present field is control-free.
pub open spec fn source_decodes(s: SettingsSource) -> bool {
    &&& s.catalog matches Some(c) && c@.len() > 0 && no_control_chars(c@)
    &&& (s.rest_url matches Some(u) ==> no_control_chars(u@))
    &&& (s.query matches Some(q) ==> no_control_chars(q@))
    &&& (s.matcher matches Some(p) ==> no_control_chars(p@))
}

/// The settings value a merged source decodes to: `Some` exactly on sources
/// that decode, carrying each key into the corresponding settings field.
pub open spec fn decode_source(s: SettingsSource) -> Option<SettingsDerive> {
    match s.catalog {
        Some(c) => if source_decodes(s) {
            Some(
                SettingsDerive {
                    fetcher_matcher: MatcherSettingsDerive {
                        catalog: c,
                        rest_url: s.rest_url,
                        query: s.query,
                        matcher: s.matcher,
                    },
                },
            )
        } else {
            None
        },
        None => None,
    }
}

impl SettingsSource {
    /// The layer that sets nothing.
    pub fn empty() -> (r: Self)
        ensures
            r == empty_source(),
    {
        SettingsSource { catalog: None, rest_url: None, query: None, matcher: None }
    }

    /// Merges `over` onto `base`: `over` wins on every key it sets.
    pub fn layer(base: SettingsSource, over: SettingsSource) -> (r: SettingsSource)
        ensures
            r == merged_source(base, over),
    {
        SettingsSource {
            catalog: if over.catalog.is_some() {
                over.catalog
            } else {
                base.catalog
            },
            rest_url: if over.rest_url.is_some() {
                over.rest_url
            } else {
                base.rest_url
            },
            query: if over.query.is_some() {
                over.query
            } else {
                base.query
            },
            matcher: if over.matcher.is_some() {
                over.matcher
            } else {
                base.matcher
            },
        }
    }
}

/// What merging the three layers yields: the run-mode source is required,
/// the defaults source is optional, environment overrides come last; the
/// merged source must decode.
pub open spec fn merge_all_spec(
    default_source: Option<SettingsSource>,
    mode_source: Option<SettingsSource>,
    env_source: SettingsSource,
) -> Result<SettingsDerive, SettingsError> {
    match mode_source {
        None => Err(SettingsError::MissingSource),
        Some(mode) => {
            let base = match default_source {
                Some(d) => d,
                None => empty_source(),
            };
            let merged = merged_source(merged_source(base, mode), env_source);
            match decode_source(merged) {
                Some(s) => Ok(s),
                None => Err(SettingsError::Decode),
            }
        },
    }
}

fn opt_no_control(s: &Option<String>) -> (r: bool)
    ensures
        r == (*s matches Some(v) ==> no_control_chars(v@)),
{
    match s {
        Some(v) => str_no_control(v.as_str()),
        None => true,
    }
}

impl SettingsDerive {
    /// Merges the configuration layers of one region — optional defaults,
    /// required run-mode source, environment overrides, later layers
    /// overriding key by key — and decodes the result.
    pub fn merge_all(
        default_source: Option<SettingsSource>,
        mode_source: Option<SettingsSource>,
        env_source: SettingsSource,
    ) -> (r: Result<SettingsDerive, SettingsError>)
        ensures
            r == merge_all_spec(default_source, mode_source, env_source),
            r matches Ok(s) ==> wf_matcher_settings(s.fetcher_matcher),
    {
        let mode = match mode_source {
            Some(m) => m,
            None => { return Err(SettingsError::MissingSource) },
        };
        let base = match default_source {
            Some(d) => d,
            None => SettingsSource::empty(),
        };
        let merged = SettingsSource::layer(SettingsSource::layer(base, mode), env_source);
        let catalog = match merged.catalog {
            Some(c) => c,
            None => { return Err(SettingsError::Decode) },
        };
        if catalog.unicode_len() == 0 {
            return Err(SettingsError::Decode);
        }
        if !str_no_control(catalog.as_str()) {
            return Err(SettingsError::Decode);
        }
        if !opt_no_control(&merged.rest_url) {
            return Err(SettingsError::Decode);
        }
        if !opt_no_control(&merged.query) {
            return Err(SettingsError::Decode);
        }
        if !opt_no_control(&merged.matcher) {
            return Err(SettingsError::Decode);
        }
        Ok(
            SettingsDerive {
                fetcher_matcher: MatcherSettingsDerive {
                    catalog,
                    rest_url: merged.rest_url,
                    query: merged.query,
                    matcher: merged.matcher,
                },
            },
        )
    }
}

/// The registry of per-region configuration snapshots. Its backing map does
/// not exist until the first write: the first upsert creates it, later
/// upserts mutate it in place.
pub struct SettingsContainer {
    settings: Option<StringHashMap<SettingsDerive>>,
}

impl View for SettingsContainer {
    type V = Map<Seq<char>, SettingsDerive>;

    closed spec fn view(&self) -> Map<Seq<char>, SettingsDerive> {
        match self.settings {
            None => Map::empty(),
            Some(m) => m@,
        }
    }
}

impl SettingsContainer {
    /// Whether the backing map has been created by a first write.
    pub closed spec fn is_initialized(&self) -> bool {
        self.settings is Some
    }

    /// A registry with no backing map yet.
    pub fn new() -> (r: Self)
        ensures
            r@ == Map::<Seq<char>, SettingsDerive>::empty(),
            !r.is_initialized(),
    {
        SettingsContainer { settings: None }
    }

    /// Inserts or replaces the configuration stored for a region. A first
    /// write creates the backing map with this single entry; any prior value
    /// for the region is discarded. Rejects malformed region codes before
    /// touching any state.
    pub fn upsert(&mut self, submod: &str, settings: SettingsDerive) -> (r: Result<
        bool,
        SettingsError,
    >)
        ensures
            match r {
                Ok(b) => b && is_valid_region(submod@) && final(self)@ == old(self)@.insert(
                    submod@,
                    settings,
                ) && final(self).is_initialized(),
                Err(e) => e == SettingsError::InvalidRegion && !is_valid_region(submod@)
                    && *final(self) == *old(self),
            },
    {
        if !validate_submod(submod) {
            return Err(SettingsError::InvalidRegion);
        }
        match &mut self.settings {
            Some(m) => {
                m.insert(submod.to_owned(), settings);
            },
            None => {
                let mut m = StringHashMap::<SettingsDerive>::new();
                m.insert(submod.to_owned(), settings);
                self.settings = Some(m);
            },
        }
        Ok(true)
    }

    /// Returns an independent copy of the configuration stored for a region,
    /// or says exactly why there is none: a malformed region code, or no
    /// entry written for that region yet.
    pub fn handle(&self, submod: &str) -> (r: Result<SettingsDerive, SettingsError>)
        ensures
            match r {
                Ok(s) => is_valid_region(submod@) && self@.contains_key(submod@) && s
                    == self@[submod@],
                Err(e) => (e == SettingsError::InvalidRegion && !is_valid_region(submod@)) || (e
                    == SettingsError::MissingEntry && is_valid_region(submod@)
                    && !self@.contains_key(submod@)),
            },
    {
        if !validate_submod(submod) {
            return Err(SettingsError::InvalidRegion);
        }
        match &self.settings {
            None => Err(SettingsError::MissingEntry),
            Some(m) => match m.get(submod) {
                Some(v) => Ok(clone_settings(v)),
                None => Err(SettingsError::MissingEntry),
            },
        }
    }
}

/// Entry point of the configuration registry.
#[derive(Debug)]
pub struct Settings;

impl Settings {
    /// Loads one region's configuration: validates the region code, merges
    /// the given layers, decodes the result, stores it in the registry and
    /// returns an independent copy of the stored value.
    pub fn load(
        container: &mut SettingsContainer,
        submod: &str,
        default_source: Option<SettingsSource>,
        mode_source: Option<SettingsSource>,
        env_source: SettingsSource,
    ) -> (r: Result<SettingsDerive, SettingsError>)
        ensures
            !is_valid_region(submod@) ==> r == Err::<SettingsDerive, SettingsError>(
                SettingsError::InvalidRegion,
            ) && *final(container) == *old(container),
            is_valid_region(submod@) ==> match merge_all_spec(
                default_source,
                mode_source,
                env_source,
            ) {
                Ok(s) => r == Ok::<SettingsDerive, SettingsError>(s) && final(container)@ == old(
                    container,
                )@.insert(submod@, s),
                Err(e) => r == Err::<SettingsDerive, SettingsError>(e) && *final(container)
                    == *old(container),
            },
    {
        if !validate_submod(submod) {
            return Err(SettingsError::InvalidRegion);
        }
        let merged = match SettingsDerive::merge_all(default_source, mode_source, env_source) {
            Ok(s) => s,
            Err(e) => { return Err(e) },
        };
        match container.upsert(submod, merged) {
            Ok(_) => {},
            Err(e) => { return Err(e) },
        }
        container.handle(submod)
    }
}

/// Law: for a valid region code, an upsert followed by a get on the same
/// region returns exactly the value that was inserted.
pub proof fn lemma_upsert_handle_round_trip(
    m: Map<Seq<char>, SettingsDerive>,
    region: Seq<char>,
    config: SettingsDerive,
)
    requires
        is_valid_region(region),
    ensures
        m.insert(region, config).contains_key(region),
        m.insert(region, config)[region] == config,
{
}

/// Law: an upsert makes its region present, and neither adds, removes nor
/// changes the entry of any other region.
pub proof fn lemma_upsert_preserves_other_regions(
    m: Map<Seq<char>, SettingsDerive>,
    region: Seq<char>,
    other: Seq<char>,
    config: SettingsDerive,
)
    requires
        is_valid_region(region),
        is_valid_region(other),
        region != other,
    ensures
        m.insert(region, config).contains_key(region),
        m.insert(region, config).contains_key(other) == m.contains_key(other),
        m.contains_key(other) ==> m.insert(region, config)[other] == m[other],
{
}

/// Law: upserts on distinct regions, serialized in either order by the
/// registry's writer lock, lose neither update — both regions end up present
/// with their own values.
pub proof fn lemma_distinct_upserts_keep_both(
    m: Map<Seq<char>, SettingsDerive>,
    r1: Seq<char>,
    c1: SettingsDerive,
    r2: Seq<char>,
    c2: SettingsDerive,
)
    requires
        is_valid_region(r1),
        is_valid_region(r2),
        r1 != r2,
    ensures
        m.insert(r1, c1).insert(r2, c2).contains_key(r1),
        m.insert(r1, c1).insert(r2, c2).contains_key(r2),
        m.insert(r1, c1).insert(r2, c2)[r1] == c1,
        m.insert(r1, c1).insert(r2, c2)[r2] == c2,
{
}

/// Law: upserts on the same region, serialized by the registry's writer
/// lock, leave exactly the last writer's value.
pub proof fn lemma_same_region_last_writer(
    m: Map<Seq<char>, SettingsDerive>,
    region: Seq<char>,
    c1: SettingsDerive,
    c2: SettingsDerive,
)
    requires
        is_valid_region(region),
    ensures
        m.insert(region, c1).insert(region, c2).contains_key(region),
        m.insert(region, c1).insert(region, c2)[region] == c2,
{
}

} // verus!
