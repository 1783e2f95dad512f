//! Rating sources, rating badges, and the user-preference ordering that decides
//! which badges are drawn and how rendered images are keyed in the caches.

use crate::error::{AppError, ErrorView};
use crate::id::{MediaType, ResolvedId};
use crate::text::{decimal, push_decimal, split_char, split_char_str, str_eq, trim, trim_str};
use vstd::prelude::*;
use vstd::string::*;

verus! {

/// Where a rating comes from.
#[derive(Debug, Clone, Copy, PartialEq, Eq, Structural)]
pub enum RatingSource {
    Imdb,
    Tmdb,
    Rt,
    RtAudience,
    Metacritic,
    Trakt,
    Letterboxd,
    Mal,
}

/// The short label drawn on a text badge.
pub open spec fn source_label(s: RatingSource) -> Seq<char> {
    match s {
        RatingSource::Imdb => "IMDb"@,
        RatingSource::Tmdb => "TMDB"@,
        RatingSource::Rt => "RTC"@,
        RatingSource::RtAudience => "RTA"@,
        RatingSource::Metacritic => "MC"@,
        RatingSource::Trakt => "Trakt"@,
        RatingSource::Letterboxd => "LB"@,
        RatingSource::Mal => "MAL"@,
    }
}

/// The single character that stands for a source in cache-key suffixes.
pub open spec fn source_char(s: RatingSource) -> char {
    match s {
        RatingSource::Mal => 'm',
        RatingSource::Imdb => 'i',
        RatingSource::Letterboxd => 'l',
        RatingSource::Rt => 'r',
        RatingSource::RtAudience => 'a',
        RatingSource::Metacritic => 'c',
        RatingSource::Tmdb => 't',
        RatingSource::Trakt => 'k',
    }
}

/// The source a cache-key character stands for.
pub open spec fn source_of_char(c: char) -> Option<RatingSource> {
    if c == 'm' {
        Some(RatingSource::Mal)
    } else if c == 'i' {
        Some(RatingSource::Imdb)
    } else if c == 'l' {
        Some(RatingSource::Letterboxd)
    } else if c == 'r' {
        Some(RatingSource::Rt)
    } else if c == 'a' {
        Some(RatingSource::RtAudience)
    } else if c == 'c' {
        Some(RatingSource::Metacritic)
    } else if c == 't' {
        Some(RatingSource::Tmdb)
    } else if c == 'k' {
        Some(RatingSource::Trakt)
    } else {
        None
    }
}

/// The key that names a source in user preferences (`ratings_order`).
pub open spec fn source_key(s: RatingSource) -> Seq<char> {
    match s {
        RatingSource::Imdb => "imdb"@,
        RatingSource::Tmdb => "tmdb"@,
        RatingSource::Rt => "rt"@,
        RatingSource::RtAudience => "rta"@,
        RatingSource::Metacritic => "mc"@,
        RatingSource::Trakt => "trakt"@,
        RatingSource::Letterboxd => "lb"@,
        RatingSource::Mal => "mal"@,
    }
}

/// The source a preference key names.
pub open spec fn source_of_key(k: Seq<char>) -> Option<RatingSource> {
    if k == "imdb"@ {
        Some(RatingSource::Imdb)
    } else if k == "tmdb"@ {
        Some(RatingSource::Tmdb)
    } else if k == "rt"@ {
        Some(RatingSource::Rt)
    } else if k == "rta"@ {
        Some(RatingSource::RtAudience)
    } else if k == "mc"@ {
        Some(RatingSource::Metacritic)
    } else if k == "trakt"@ {
        Some(RatingSource::Trakt)
    } else if k == "lb"@ {
        Some(RatingSource::Letterboxd)
    } else if k == "mal"@ {
        Some(RatingSource::Mal)
    } else {
        None
    }
}

/// The brand colour of a source's label section, as RGBA.
pub open spec fn source_color(s: RatingSource) -> Seq<u8> {
    match s {
        RatingSource::Imdb => seq![180u8, 145u8, 15u8, 255u8],
        RatingSource::Tmdb => seq![1u8, 155u8, 88u8, 255u8],
        RatingSource::Rt => seq![185u8, 35u8, 8u8, 255u8],
        RatingSource::RtAudience => seq![185u8, 35u8, 8u8, 255u8],
        RatingSource::Metacritic => seq![75u8, 150u8, 38u8, 255u8],
        RatingSource::Trakt => seq![175u8, 15u8, 45u8, 255u8],
        RatingSource::Letterboxd => seq![0u8, 155u8, 88u8, 255u8],
        RatingSource::Mal => seq![34u8, 60u8, 120u8, 255u8],
    }
}

/// All preference keys, in declaration order.
pub open spec fn all_source_keys() -> Seq<Seq<char>> {
    seq!["imdb"@, "tmdb"@, "rt"@, "rta"@, "mc"@, "trakt"@, "lb"@, "mal"@]
}

/// The canonical order of all sources, used to make cache keys deterministic.
pub open spec fn canonical_sources() -> Seq<RatingSource> {
    seq![
        RatingSource::Mal,
        RatingSource::Imdb,
        RatingSource::Letterboxd,
        RatingSource::Rt,
        RatingSource::RtAudience,
        RatingSource::Metacritic,
        RatingSource::Tmdb,
        RatingSource::Trakt,
    ]
}

impl RatingSource {
    /// The short label drawn on a text badge.
    pub fn label(&self) -> (s: &'static str)
        ensures
            s@ == source_label(*self),
    {
        match self {
            RatingSource::Imdb => "IMDb",
            RatingSource::Tmdb => "TMDB",
            RatingSource::Rt => "RTC",
            RatingSource::RtAudience => "RTA",
            RatingSource::Metacritic => "MC",
            RatingSource::Trakt => "Trakt",
            RatingSource::Letterboxd => "LB",
            RatingSource::Mal => "MAL",
        }
    }

    /// Single-char identifier used in cache key suffixes.
    pub fn cache_char(&self) -> (c: char)
        ensures
            c == source_char(*self),
    {
        match self {
            RatingSource::Mal => 'm',
            RatingSource::Imdb => 'i',
            RatingSource::Letterboxd => 'l',
            RatingSource::Rt => 'r',
            RatingSource::RtAudience => 'a',
            RatingSource::Metacritic => 'c',
            RatingSource::Tmdb => 't',
            RatingSource::Trakt => 'k',
        }
    }

    /// Reverse of `cache_char`.
    pub fn from_cache_char(c: char) -> (r: Option<RatingSource>)
        ensures
            r == source_of_char(c),
    {
        match c {
            'm' => Some(RatingSource::Mal),
            'i' => Some(RatingSource::Imdb),
            'l' => Some(RatingSource::Letterboxd),
            'r' => Some(RatingSource::Rt),
            'a' => Some(RatingSource::RtAudience),
            'c' => Some(RatingSource::Metacritic),
            't' => Some(RatingSource::Tmdb),
            'k' => Some(RatingSource::Trakt),
            _ => None,
        }
    }

    /// The key that names this source in user preferences.
    pub fn key(&self) -> (s: &'static str)
        ensures
            s@ == source_key(*self),
    {
        match self {
            RatingSource::Imdb => "imdb",
            RatingSource::Tmdb => "tmdb",
            RatingSource::Rt => "rt",
            RatingSource::RtAudience => "rta",
            RatingSource::Metacritic => "mc",
            RatingSource::Trakt => "trakt",
            RatingSource::Letterboxd => "lb",
            RatingSource::Mal => "mal",
        }
    }

    /// The source a preference key names, if any (keys are case-sensitive).
    pub fn from_key(key: &str) -> (r: Option<RatingSource>)
        ensures
            r == source_of_key(key@),
    {
        if str_eq(key, "imdb") {
            Some(RatingSource::Imdb)
        } else if str_eq(key, "tmdb") {
            Some(RatingSource::Tmdb)
        } else if str_eq(key, "rt") {
            Some(RatingSource::Rt)
        } else if str_eq(key, "rta") {
            Some(RatingSource::RtAudience)
        } else if str_eq(key, "mc") {
            Some(RatingSource::Metacritic)
        } else if str_eq(key, "trakt") {
            Some(RatingSource::Trakt)
        } else if str_eq(key, "lb") {
            Some(RatingSource::Letterboxd)
        } else if str_eq(key, "mal") {
            Some(RatingSource::Mal)
        } else {
            None
        }
    }

    /// Every preference key.
    pub fn all_keys() -> (v: Vec<&'static str>)
        ensures
            v@.len() == 8,
            forall|i: int| 0 <= i < 8 ==> (#[trigger] v@[i])@ == all_source_keys()[i],
    {
        let v = vec!["imdb", "tmdb", "rt", "rta", "mc", "trakt", "lb", "mal"];
        v
    }

    /// The brand colour of this source's label section, as RGBA.
    pub fn color(&self) -> (c: [u8; 4])
        ensures
            c@ == source_color(*self),
    {
        let c: [u8; 4] = match self {
            RatingSource::Imdb => [180, 145, 15, 255],
            RatingSource::Tmdb => [1, 155, 88, 255],
            RatingSource::Rt => [185, 35, 8, 255],
            RatingSource::RtAudience => [185, 35, 8, 255],
            RatingSource::Metacritic => [75, 150, 38, 255],
            RatingSource::Trakt => [175, 15, 45, 255],
            RatingSource::Letterboxd => [0, 155, 88, 255],
            RatingSource::Mal => [34, 60, 120, 255],
        };
        assert(c@ =~= source_color(*self));
        c
    }
}

/// Reading back the cache character of a source gives the source.
pub proof fn lemma_cache_char_roundtrip(s: RatingSource)
    ensures
        source_of_char(source_char(s)) == Some(s),
{
}

/// Distinct sources have distinct cache characters.
pub proof fn lemma_cache_char_injective(a: RatingSource, b: RatingSource)
    ensures
        source_char(a) == source_char(b) ==> a == b,
{
}

/// Reading back the preference key of a source gives the source.
pub proof fn lemma_key_roundtrip(s: RatingSource)
    ensures
        source_of_key(source_key(s)) == Some(s),
{
    reveal_strlit("imdb");
    reveal_strlit("tmdb");
    reveal_strlit("rt");
    reveal_strlit("rta");
    reveal_strlit("mc");
    reveal_strlit("trakt");
    reveal_strlit("lb");
    reveal_strlit("mal");
    assert("tmdb"@ != "imdb"@) by { assert("tmdb"@[0] != "imdb"@[0]); }
    assert("rt"@ != "imdb"@) by { assert("rt"@.len() != "imdb"@.len()); }
    assert("rt"@ != "tmdb"@) by { assert("rt"@.len() != "tmdb"@.len()); }
    assert("rta"@ != "imdb"@) by { assert("rta"@.len() != "imdb"@.len()); }
    assert("rta"@ != "tmdb"@) by { assert("rta"@.len() != "tmdb"@.len()); }
    assert("rta"@ != "rt"@) by { assert("rta"@.len() != "rt"@.len()); }
    assert("mc"@ != "imdb"@) by { assert("mc"@.len() != "imdb"@.len()); }
    assert("mc"@ != "tmdb"@) by { assert("mc"@.len() != "tmdb"@.len()); }
    assert("mc"@ != "rt"@) by { assert("mc"@[0] != "rt"@[0]); }
    assert("mc"@ != "rta"@) by { assert("mc"@.len() != "rta"@.len()); }
    assert("trakt"@ != "imdb"@) by { assert("trakt"@.len() != "imdb"@.len()); }
    assert("trakt"@ != "tmdb"@) by { assert("trakt"@.len() != "tmdb"@.len()); }
    assert("trakt"@ != "rt"@) by { assert("trakt"@.len() != "rt"@.len()); }
    assert("trakt"@ != "rta"@) by { assert("trakt"@.len() != "rta"@.len()); }
    assert("trakt"@ != "mc"@) by { assert("trakt"@.len() != "mc"@.len()); }
    assert("lb"@ != "imdb"@) by { assert("lb"@.len() != "imdb"@.len()); }
    assert("lb"@ != "tmdb"@) by { assert("lb"@.len() != "tmdb"@.len()); }
    assert("lb"@ != "rt"@) by { assert("lb"@[0] != "rt"@[0]); }
    assert("lb"@ != "rta"@) by { assert("lb"@.len() != "rta"@.len()); }
    assert("lb"@ != "mc"@) by { assert("lb"@[0] != "mc"@[0]); }
    assert("lb"@ != "trakt"@) by { assert("lb"@.len() != "trakt"@.len()); }
    assert("mal"@ != "imdb"@) by { assert("mal"@.len() != "imdb"@.len()); }
    assert("mal"@ != "tmdb"@) by { assert("mal"@.len() != "tmdb"@.len()); }
    assert("mal"@ != "rt"@) by { assert("mal"@.len() != "rt"@.len()); }
    assert("mal"@ != "rta"@) by { assert("mal"@[0] != "rta"@[0]); }
    assert("mal"@ != "mc"@) by { assert("mal"@.len() != "mc"@.len()); }
    assert("mal"@ != "trakt"@) by { assert("mal"@.len() != "trakt"@.len()); }
    assert("mal"@ != "lb"@) by { assert("mal"@.len() != "lb"@.len()); }
}

/// Every preference key in `all_keys` names a source, and that source's key is it.
pub proof fn lemma_all_keys_name_sources(i: int)
    requires
        0 <= i < 8,
    ensures
        source_of_key(all_source_keys()[i]) matches Some(s) && source_key(s) == all_source_keys()[i],
{
    let s = if i == 0 {
        RatingSource::Imdb
    } else if i == 1 {
        RatingSource::Tmdb
    } else if i == 2 {
        RatingSource::Rt
    } else if i == 3 {
        RatingSource::RtAudience
    } else if i == 4 {
        RatingSource::Metacritic
    } else if i == 5 {
        RatingSource::Trakt
    } else if i == 6 {
        RatingSource::Letterboxd
    } else {
        RatingSource::Mal
    };
    lemma_key_roundtrip(s);
    assert(all_source_keys()[i] == source_key(s));
}

/// One rating to draw: its source and the value text shown on the badge.
#[derive(Debug, Clone)]
pub struct RatingBadge {
    pub source: RatingSource,
    pub value: String,
}

/// The mathematical value of a badge: its source and its value text.
pub open spec fn badge_view(b: RatingBadge) -> (RatingSource, Seq<char>) {
    (b.source, b.value@)
}

/// The values of a list of badges.
pub open spec fn badge_views(bs: Seq<RatingBadge>) -> Seq<(RatingSource, Seq<char>)> {
    bs.map_values(|b: RatingBadge| badge_view(b))
}

/// The sources of a list of badge values.
pub open spec fn sources_of(bs: Seq<(RatingSource, Seq<char>)>) -> Seq<RatingSource> {
    bs.map_values(|b: (RatingSource, Seq<char>)| b.0)
}

/// Ratings gathered for a title, with the ids the ratings provider reported.
#[derive(Debug, Clone, Default)]
pub struct RatingsResult {
    pub badges: Vec<RatingBadge>,
    pub tmdb_id: Option<u64>,
    pub tvdb_id: Option<u64>,
    pub imdb_id: Option<String>,
}

/// A cache-key suffix: `@` followed by the cache character of each source.
pub open spec fn suffix_of(sources: Seq<RatingSource>) -> Seq<char> {
    seq!['@'] + sources.map_values(|s: RatingSource| source_char(s))
}

fn cache_char_str(s: RatingSource) -> (r: &'static str)
    ensures
        r@ == seq![source_char(s)],
{
    match s {
        RatingSource::Mal => { proof { reveal_strlit("m"); } "m" },
        RatingSource::Imdb => { proof { reveal_strlit("i"); } "i" },
        RatingSource::Letterboxd => { proof { reveal_strlit("l"); } "l" },
        RatingSource::Rt => { proof { reveal_strlit("r"); } "r" },
        RatingSource::RtAudience => { proof { reveal_strlit("a"); } "a" },
        RatingSource::Metacritic => { proof { reveal_strlit("c"); } "c" },
        RatingSource::Tmdb => { proof { reveal_strlit("t"); } "t" },
        RatingSource::Trakt => { proof { reveal_strlit("k"); } "k" },
    }
}

/// Appends the cache characters of `sources` to `out`.
fn push_source_chars(out: &mut String, sources: &[RatingSource])
    ensures
        final(out)@ == old(out)@ + sources@.map_values(|s: RatingSource| source_char(s)),
{
    let n = sources.len();
    let mut i: usize = 0;
    while i < n
        invariant
            n == sources@.len(),
            i <= n,
            out@ == old(out)@ + sources@.take(i as int).map_values(|s: RatingSource| source_char(s)),
        decreases n - i,
    {
        out.append(cache_char_str(sources[i]));
        assert(sources@.take(i + 1).map_values(|s: RatingSource| source_char(s))
            =~= sources@.take(i as int).map_values(|s: RatingSource| source_char(s)).push(source_char(sources@[i as int])));
        i = i + 1;
    }
    assert(sources@.take(n as int) =~= sources@);
}

/// The suffix for a list of sources.
fn suffix_string(sources: &[RatingSource]) -> (s: String)
    ensures
        s@ == suffix_of(sources@),
{
    proof { reveal_strlit("@"); }
    let mut s = String::from_str("@");
    push_source_chars(&mut s, sources);
    s
}

/// The sources of a list of badges.
fn badge_source_list(badges: &[RatingBadge]) -> (v: Vec<RatingSource>)
    ensures
        v@ == sources_of(badge_views(badges@)),
{
    let n = badges.len();
    let mut v: Vec<RatingSource> = Vec::new();
    let mut i: usize = 0;
    while i < n
        invariant
            n == badges@.len(),
            i <= n,
            v@ == sources_of(badge_views(badges@.take(i as int))),
        decreases n - i,
    {
        v.push(badges[i].source);
        assert(sources_of(badge_views(badges@.take(i + 1))) =~= sources_of(badge_views(badges@.take(i as int))).push(badges@[i as int].source));
        i = i + 1;
    }
    assert(badges@.take(n as int) =~= badges@);
    v
}

/// Cache key suffix from the badges actually rendered: `@` followed by the
/// cache character of each badge's source, in badge order.
pub fn badges_cache_suffix(badges: &[RatingBadge]) -> (s: String)
    ensures
        s@ == suffix_of(sources_of(badge_views(badges@))),
{
    let sources = badge_source_list(badges);
    suffix_string(sources.as_slice())
}

/// Whether `s` occurs in `v`.
fn has_source(v: &[RatingSource], s: RatingSource) -> (r: bool)
    ensures
        r == v@.contains(s),
{
    let n = v.len();
    let mut i: usize = 0;
    while i < n
        invariant
            n == v@.len(),
            i <= n,
            forall|j: int| 0 <= j < i ==> v@[j] != s,
        decreases n - i,
    {
        if v[i] == s {
            return true;
        }
        i = i + 1;
    }
    false
}

/// The canonical source order.
fn canonical_order() -> (v: Vec<RatingSource>)
    ensures
        v@ == canonical_sources(),
{
    let v = vec![
        RatingSource::Mal,
        RatingSource::Imdb,
        RatingSource::Letterboxd,
        RatingSource::Rt,
        RatingSource::RtAudience,
        RatingSource::Metacritic,
        RatingSource::Tmdb,
        RatingSource::Trakt,
    ];
    assert(v@ =~= canonical_sources());
    v
}

/// The sources present in `sources`, each once, in canonical order.
pub open spec fn canonical_present(sources: Seq<RatingSource>) -> Seq<RatingSource> {
    canonical_sources().filter(|c: RatingSource| sources.contains(c))
}

/// The stored available-sources string depends only on which sources have
/// ratings, not on the order (or repetition) in which the ratings arrive.
pub proof fn lemma_available_sources_order_independent(a: Seq<RatingSource>, b: Seq<RatingSource>)
    requires
        forall|s: RatingSource| a.contains(s) <==> b.contains(s),
    ensures
        canonical_present(a) == canonical_present(b),
{
    let ca = |c: RatingSource| a.contains(c);
    let cb = |c: RatingSource| b.contains(c);
    assert(ca =~= cb);
}

/// Encodes which sources have ratings as their cache characters, each once, in
/// canonical order (e.g. `"irt"`), regardless of the order the ratings came in.
pub fn available_sources_string(badges: &[RatingBadge]) -> (s: String)
    ensures
        s@ == canonical_present(sources_of(badge_views(badges@))).map_values(|c: RatingSource| source_char(c)),
{
    let sources = badge_source_list(badges);
    let canon = canonical_order();
    let mut present: Vec<RatingSource> = Vec::new();
    let mut i: usize = 0;
    while i < 8
        invariant
            canon@ == canonical_sources(),
            i <= 8,
            present@ == canonical_sources().take(i as int).filter(|c: RatingSource| sources@.contains(c)),
        decreases 8 - i,
    {
        let c = canon[i];
        proof {
            canonical_sources().take(i as int).lemma_filter_push(c, |c: RatingSource| sources@.contains(c));
            assert(canonical_sources().take(i + 1) =~= canonical_sources().take(i as int).push(c));
        }
        if has_source(sources.as_slice(), c) {
            present.push(c);
        }
        i = i + 1;
    }
    assert(canonical_sources().take(8) =~= canonical_sources());
    let mut s = String::new();
    push_source_chars(&mut s, present.as_slice());
    assert(s@ =~= present@.map_values(|c: RatingSource| source_char(c)));
    s
}


/// The sources named by a list of preference keys (each key trimmed; unknown keys
/// are skipped).
pub open spec fn sources_of_keys(parts: Seq<Seq<char>>) -> Seq<RatingSource>
    decreases parts.len(),
{
    if parts.len() == 0 {
        Seq::empty()
    } else {
        let rest = sources_of_keys(parts.drop_last());
        match source_of_key(trim(parts.last())) {
            Some(src) => rest.push(src),
            None => rest,
        }
    }
}

/// The sources named by a comma-separated order preference such as `"trakt,imdb"`.
pub open spec fn parse_order_spec(order: Seq<char>) -> Seq<RatingSource> {
    sources_of_keys(split_char(order, ','))
}

/// Parses a comma-separated order string into the known sources it names.
fn parse_order(order: &str) -> (v: Vec<RatingSource>)
    ensures
        v@ == parse_order_spec(order@),
{
    let parts = split_char_str(order, ',');
    let ghost all = split_char(order@, ',');
    let n = parts.len();
    let mut v: Vec<RatingSource> = Vec::new();
    let mut i: usize = 0;
    while i < n
        invariant
            n == parts@.len(),
            n == all.len(),
            all == split_char(order@, ','),
            forall|k: int| 0 <= k < n ==> (#[trigger] parts@[k])@ == all[k],
            i <= n,
            v@ == sources_of_keys(all.take(i as int)),
        decreases n - i,
    {
        let key = trim_str(parts[i]);
        assert(all.take(i + 1).drop_last() =~= all.take(i as int));
        assert(all.take(i + 1).last() == all[i as int]);
        match RatingSource::from_key(key) {
            Some(src) => v.push(src),
            None => {},
        }
        i = i + 1;
    }
    assert(all.take(n as int) =~= all);
    v
}

/// `sources` reordered by `preferred`: first the preferred sources that are
/// present (in preference order), then the present sources that are not
/// preferred (in the order they came in).
pub open spec fn reorder(sources: Seq<RatingSource>, preferred: Seq<RatingSource>) -> Seq<RatingSource> {
    preferred.filter(|p: RatingSource| sources.contains(p)) + sources.filter(
        |s: RatingSource| !preferred.contains(s),
    )
}

/// The first `limit` elements of `s` (all of it when it is shorter).
pub open spec fn truncated<A>(s: Seq<A>, limit: int) -> Seq<A> {
    if limit < s.len() {
        s.take(limit)
    } else {
        s
    }
}

/// Reordering by the order preference (when one is given), then keeping at
/// most `limit` sources; a limit of 0 means no ratings at all.
pub open spec fn order_and_limit_spec(sources: Seq<RatingSource>, order: Seq<char>, limit: int) -> Seq<RatingSource> {
    if limit == 0 {
        Seq::empty()
    } else if order.len() == 0 {
        truncated(sources, limit)
    } else {
        truncated(reorder(sources, parse_order_spec(order)), limit)
    }
}

/// The elements of `v` that occur in `other`, in order.
fn keep_present(v: &[RatingSource], other: &[RatingSource]) -> (r: Vec<RatingSource>)
    ensures
        r@ == v@.filter(|p: RatingSource| other@.contains(p)),
{
    let n = v.len();
    let mut r: Vec<RatingSource> = Vec::new();
    let mut i: usize = 0;
    while i < n
        invariant
            n == v@.len(),
            i <= n,
            r@ == v@.take(i as int).filter(|p: RatingSource| other@.contains(p)),
        decreases n - i,
    {
        let s = v[i];
        proof {
            v@.take(i as int).lemma_filter_push(s, |p: RatingSource| other@.contains(p));
            assert(v@.take(i + 1) =~= v@.take(i as int).push(s));
        }
        if has_source(other, s) {
            r.push(s);
        }
        i = i + 1;
    }
    assert(v@.take(n as int) =~= v@);
    r
}

/// The elements of `v` that do not occur in `other`, in order.
fn keep_absent(v: &[RatingSource], other: &[RatingSource]) -> (r: Vec<RatingSource>)
    ensures
        r@ == v@.filter(|s: RatingSource| !other@.contains(s)),
{
    let n = v.len();
    let mut r: Vec<RatingSource> = Vec::new();
    let mut i: usize = 0;
    while i < n
        invariant
            n == v@.len(),
            i <= n,
            r@ == v@.take(i as int).filter(|s: RatingSource| !other@.contains(s)),
        decreases n - i,
    {
        let s = v[i];
        proof {
            v@.take(i as int).lemma_filter_push(s, |s: RatingSource| !other@.contains(s));
            assert(v@.take(i + 1) =~= v@.take(i as int).push(s));
        }
        if !has_source(other, s) {
            r.push(s);
        }
        i = i + 1;
    }
    assert(v@.take(n as int) =~= v@);
    r
}

/// Every source chosen by the preferences is one of the given sources.
pub proof fn lemma_order_and_limit_subset(sources: Seq<RatingSource>, order: Seq<char>, limit: int)
    requires
        limit >= 0,
    ensures
        forall|k: int| 0 <= k < order_and_limit_spec(sources, order, limit).len() ==> sources.contains(
            #[trigger] order_and_limit_spec(sources, order, limit)[k],
        ),
{
    broadcast use vstd::seq_lib::group_filter_ensures;
    let r = order_and_limit_spec(sources, order, limit);
    assert forall|k: int| 0 <= k < r.len() implies sources.contains(#[trigger] r[k]) by {
        if order.len() == 0 {
            assert(sources[k] == r[k]);
        } else {
            let preferred = parse_order_spec(order);
            let first = preferred.filter(|p: RatingSource| sources.contains(p));
            let second = sources.filter(|s: RatingSource| !preferred.contains(s));
            let all = first + second;
            assert(r[k] == all[k]);
            if k < first.len() {
                assert(first[k] == all[k]);
            } else {
                assert(second[k - first.len()] == all[k]);
                assert(second.contains(all[k]));
                sources.lemma_filter_contains_rev(|s: RatingSource| !preferred.contains(s), all[k]);
            }
        }
    }
}

/// The canonical order lists each source once.
pub proof fn lemma_canonical_distinct()
    ensures
        forall|j: int, k: int|
            0 <= j < 8 && 0 <= k < 8 && j != k ==> canonical_sources()[j] != canonical_sources()[k],
{
}

/// Reorders `sources` according to `order`, appending sources not mentioned in
/// `order` in the order they came in, then truncates to `limit` (0 = no ratings).
fn order_and_limit(sources: Vec<RatingSource>, order: &str, limit: i32) -> (r: Vec<RatingSource>)
    requires
        limit >= 0,
    ensures
        r@ == order_and_limit_spec(sources@, order@, limit as int),
{
    if limit == 0 {
        return Vec::new();
    }
    let mut result = if order.unicode_len() == 0 {
        sources
    } else {
        let preferred = parse_order(order);
        let mut first = keep_present(preferred.as_slice(), sources.as_slice());
        let mut second = keep_absent(sources.as_slice(), preferred.as_slice());
        first.append(&mut second);
        first
    };
    let ghost before = result@;
    if (limit as usize) < result.len() {
        result.truncate(limit as usize);
        assert(result@ =~= before.take(limit as int));
    }
    result
}

/// The sources named by cache characters (unknown characters are skipped).
pub open spec fn sources_of_chars(cs: Seq<char>) -> Seq<RatingSource>
    decreases cs.len(),
{
    if cs.len() == 0 {
        Seq::empty()
    } else {
        let rest = sources_of_chars(cs.drop_last());
        match source_of_char(cs.last()) {
            Some(src) => rest.push(src),
            None => rest,
        }
    }
}

fn sources_from_chars(s: &str) -> (v: Vec<RatingSource>)
    ensures
        v@ == sources_of_chars(s@),
{
    let n = s.unicode_len();
    let mut v: Vec<RatingSource> = Vec::new();
    let mut i: usize = 0;
    while i < n
        invariant
            n == s@.len(),
            i <= n,
            v@ == sources_of_chars(s@.take(i as int)),
        decreases n - i,
    {
        let c = s.get_char(i);
        assert(s@.take(i + 1).drop_last() =~= s@.take(i as int));
        match RatingSource::from_cache_char(c) {
            Some(src) => v.push(src),
            None => {},
        }
        i = i + 1;
    }
    assert(s@.take(n as int) =~= s@);
    v
}

/// Rebuilds the badges cache suffix from a stored available-sources string and
/// the user's preferences, without the rating values: the same ordering as
/// [`apply_rating_preferences`] followed by [`badges_cache_suffix`].
pub fn badges_suffix_from_available(available_sources: &str, order: &str, limit: i32) -> (s: String)
    requires
        limit >= 0,
    ensures
        s@ == suffix_of(order_and_limit_spec(sources_of_chars(available_sources@), order@, limit as int)),
{
    let available = sources_from_chars(available_sources);
    let ordered = order_and_limit(available, order, limit);
    suffix_string(ordered.as_slice())
}

/// The preferred sources followed by every other source in canonical order.
pub open spec fn complete_order(preferred: Seq<RatingSource>) -> Seq<RatingSource> {
    preferred + canonical_sources().filter(|c: RatingSource| !preferred.contains(c))
}

/// The cache suffix predicted from the preferences alone: every source, in the
/// preferred order followed by the rest in canonical order, truncated to
/// `limit`; `"@"` when the limit is 0.
pub open spec fn ratings_suffix_spec(order: Seq<char>, limit: int) -> Seq<char> {
    if limit == 0 {
        seq!['@']
    } else {
        suffix_of(truncated(complete_order(parse_order_spec(order)), limit))
    }
}

/// Computes a deterministic cache key suffix from rating preferences, e.g.
/// `@mil`: the sources named by `order`, then the missing sources in canonical
/// order, truncated to `limit`.
pub fn ratings_cache_suffix(order: &str, limit: i32) -> (s: String)
    requires
        limit >= 0,
    ensures
        s@ == ratings_suffix_spec(order@, limit as int),
{
    if limit == 0 {
        proof { reveal_strlit("@"); }
        return String::from_str("@");
    }
    let mut sources = parse_order(order);
    let ghost preferred = sources@;
    let canon = canonical_order();
    let mut i: usize = 0;
    while i < 8
        invariant
            canon@ == canonical_sources(),
            i <= 8,
            sources@ == preferred + canonical_sources().take(i as int).filter(
                |c: RatingSource| !preferred.contains(c),
            ),
        decreases 8 - i,
    {
        let c = canon[i];
        proof {
            canonical_sources().take(i as int).lemma_filter_push(c, |c: RatingSource| !preferred.contains(c));
            assert(canonical_sources().take(i + 1) =~= canonical_sources().take(i as int).push(c));
            let added = canonical_sources().take(i as int).filter(|c: RatingSource| !preferred.contains(c));
            if !preferred.contains(c) {
                lemma_canonical_distinct();
                assert(!canonical_sources().take(i as int).contains(c)) by {
                    if canonical_sources().take(i as int).contains(c) {
                        let k = choose|k: int| 0 <= k < i && canonical_sources().take(i as int)[k] == c;
                        assert(canonical_sources()[k] == c);
                    }
                }
                if added.contains(c) {
                    canonical_sources().take(i as int).lemma_filter_contains_rev(
                        |c: RatingSource| !preferred.contains(c),
                        c,
                    );
                }
                assert(!sources@.contains(c)) by {
                    if sources@.contains(c) {
                        let k = choose|k: int| 0 <= k < sources@.len() && sources@[k] == c;
                        if k >= preferred.len() {
                            assert(added[k - preferred.len()] == c);
                        }
                    }
                }
            } else {
                let k = choose|k: int| 0 <= k < preferred.len() && preferred[k] == c;
                assert(sources@[k] == c);
            }
        }
        if !has_source(sources.as_slice(), c) {
            sources.push(c);
        }
        i = i + 1;
    }
    assert(canonical_sources().take(8) =~= canonical_sources());
    let ghost before = sources@;
    if (limit as usize) < sources.len() {
        sources.truncate(limit as usize);
        assert(sources@ =~= before.take(limit as int));
    }
    suffix_string(sources.as_slice())
}

/// The first badge value with source `s`.
pub open spec fn first_with_source(bs: Seq<(RatingSource, Seq<char>)>, s: RatingSource) -> Option<(RatingSource, Seq<char>)>
    decreases bs.len(),
{
    if bs.len() == 0 {
        None
    } else if bs[0].0 == s {
        Some(bs[0])
    } else {
        first_with_source(bs.drop_first(), s)
    }
}

/// The badges to draw: for each source chosen by [`order_and_limit_spec`], the
/// first badge with that source.
pub open spec fn apply_preferences_spec(bs: Seq<(RatingSource, Seq<char>)>, order: Seq<char>, limit: int) -> Seq<(RatingSource, Seq<char>)> {
    order_and_limit_spec(sources_of(bs), order, limit).map_values(
        |s: RatingSource| first_with_source(bs, s).unwrap(),
    )
}

/// A source that occurs among the badges has a first badge, with that source.
pub proof fn lemma_first_with_source(bs: Seq<(RatingSource, Seq<char>)>, s: RatingSource)
    ensures
        sources_of(bs).contains(s) ==> (first_with_source(bs, s) matches Some(b) && b.0 == s
            && bs.contains(b)),
        !sources_of(bs).contains(s) ==> first_with_source(bs, s) is None,
    decreases bs.len(),
{
    if bs.len() > 0 {
        lemma_first_with_source(bs.drop_first(), s);
        if bs[0].0 != s {
            if sources_of(bs).contains(s) {
                let k = choose|k: int| 0 <= k < sources_of(bs).len() && sources_of(bs)[k] == s;
                assert(sources_of(bs.drop_first())[k - 1] == s);
            }
            if sources_of(bs.drop_first()).contains(s) {
                let k = choose|k: int| 0 <= k < sources_of(bs.drop_first()).len() && sources_of(bs.drop_first())[k] == s;
                assert(sources_of(bs)[k + 1] == s);
                let b = first_with_source(bs, s).unwrap();
                let j = choose|j: int| 0 <= j < bs.drop_first().len() && bs.drop_first()[j] == b;
                assert(bs[j + 1] == b);
            }
        } else {
            assert(sources_of(bs)[0] == s);
            assert(bs[0] == bs[0]);
        }
    }
}

/// Finds a copy of the first badge with source `s`.
fn find_badge(badges: &Vec<RatingBadge>, s: RatingSource) -> (r: Option<RatingBadge>)
    ensures
        match first_with_source(badge_views(badges@), s) {
            Some(b) => r matches Some(rb) && badge_view(rb) == b,
            None => r is None,
        },
{
    let n = badges.len();
    let mut i: usize = 0;
    assert(badge_views(badges@).skip(0) =~= badge_views(badges@));
    while i < n
        invariant
            n == badges@.len(),
            i <= n,
            first_with_source(badge_views(badges@), s) == first_with_source(
                badge_views(badges@).skip(i as int),
                s,
            ),
        decreases n - i,
    {
        assert(badge_views(badges@).skip(i as int).drop_first() =~= badge_views(badges@).skip(i + 1));
        if badges[i].source == s {
            return Some(RatingBadge { source: badges[i].source, value: badges[i].value.clone() });
        }
        i = i + 1;
    }
    None
}

/// Reorders and/or limits rating badges based on user preferences:
/// - a non-empty `order` puts the named sources first, in that order, followed
///   by the other badges in the order they came in;
/// - a `limit` of 0 gives no badges, a positive `limit` keeps that many.
pub fn apply_rating_preferences(badges: Vec<RatingBadge>, order: &str, limit: i32) -> (r: Vec<RatingBadge>)
    requires
        limit >= 0,
    ensures
        badge_views(r@) == apply_preferences_spec(badge_views(badges@), order@, limit as int),
{
    let sources = badge_source_list(badges.as_slice());
    let ordered = order_and_limit(sources, order, limit);
    let ghost views = badge_views(badges@);
    proof {
        lemma_order_and_limit_subset(sources_of(views), order@, limit as int);
    }
    let n = ordered.len();
    let mut result: Vec<RatingBadge> = Vec::new();
    let mut i: usize = 0;
    while i < n
        invariant
            n == ordered@.len(),
            i <= n,
            views == badge_views(badges@),
            ordered@ == order_and_limit_spec(sources_of(views), order@, limit as int),
            forall|k: int| 0 <= k < n ==> sources_of(views).contains(#[trigger] ordered@[k]),
            badge_views(result@) == ordered@.take(i as int).map_values(
                |s: RatingSource| first_with_source(views, s).unwrap(),
            ),
        decreases n - i,
    {
        let s = ordered[i];
        proof {
            lemma_first_with_source(views, s);
        }
        match find_badge(&badges, s) {
            Some(b) => result.push(b),
            None => {},
        }
        assert(ordered@.take(i + 1).map_values(|s: RatingSource| first_with_source(views, s).unwrap())
            =~= ordered@.take(i as int).map_values(|s: RatingSource| first_with_source(views, s).unwrap()).push(
            first_with_source(views, s).unwrap()));
        assert(badge_views(result@) =~= ordered@.take(i + 1).map_values(
                |s: RatingSource| first_with_source(views, s).unwrap()));
        i = i + 1;
    }
    assert(ordered@.take(n as int) =~= ordered@);
    result
}


/// Reading back the cache characters of a list of sources gives the list.
pub proof fn lemma_sources_of_chars_roundtrip(x: Seq<RatingSource>)
    ensures
        sources_of_chars(x.map_values(|c: RatingSource| source_char(c))) == x,
    decreases x.len(),
{
    let cs = x.map_values(|c: RatingSource| source_char(c));
    if x.len() > 0 {
        lemma_sources_of_chars_roundtrip(x.drop_last());
        assert(cs.drop_last() =~= x.drop_last().map_values(|c: RatingSource| source_char(c)));
        assert(x.drop_last().push(x.last()) =~= x);
    } else {
        assert(cs.len() == 0);
        assert(x =~= Seq::<RatingSource>::empty());
    }
}

/// The badges kept by [`apply_preferences_spec`] have exactly the sources chosen by
/// [`order_and_limit_spec`].
pub proof fn lemma_apply_preferences_sources(bs: Seq<(RatingSource, Seq<char>)>, order: Seq<char>, limit: int)
    requires
        limit >= 0,
    ensures
        sources_of(apply_preferences_spec(bs, order, limit)) == order_and_limit_spec(sources_of(bs), order, limit),
{
    let chosen = order_and_limit_spec(sources_of(bs), order, limit);
    lemma_order_and_limit_subset(sources_of(bs), order, limit);
    assert forall|k: int| 0 <= k < chosen.len() implies #[trigger] sources_of(
        apply_preferences_spec(bs, order, limit),
    )[k] == chosen[k] by {
        lemma_first_with_source(bs, chosen[k]);
    }
    assert(sources_of(apply_preferences_spec(bs, order, limit)) =~= chosen);
}

/// A source is present in canonical order exactly when it is present at all.
pub proof fn lemma_canonical_present_contains(sources: Seq<RatingSource>, x: RatingSource)
    ensures
        canonical_present(sources).contains(x) == sources.contains(x),
{
    let pred = |c: RatingSource| sources.contains(c);
    let k: int = match x {
        RatingSource::Mal => 0,
        RatingSource::Imdb => 1,
        RatingSource::Letterboxd => 2,
        RatingSource::Rt => 3,
        RatingSource::RtAudience => 4,
        RatingSource::Metacritic => 5,
        RatingSource::Tmdb => 6,
        RatingSource::Trakt => 7,
    };
    assert(canonical_sources()[k] == x);
    if sources.contains(x) {
        canonical_sources().lemma_filter_contains(pred, k);
    }
    if canonical_present(sources).contains(x) {
        let j = choose|j: int| 0 <= j < canonical_present(sources).len() && canonical_present(sources)[j] == x;
        canonical_sources().lemma_filter_pred(pred, j);
    }
}

/// The cache-key suffix rebuilt from the stored available sources equals the
/// suffix of the badges actually drawn, whenever the ratings are listed in
/// canonical order or the order preference names every rated source.
pub proof fn lemma_available_suffix_matches_drawn_badges(
    bs: Seq<(RatingSource, Seq<char>)>,
    order: Seq<char>,
    limit: int,
)
    requires
        limit >= 0,
        sources_of(bs) == canonical_present(sources_of(bs)) || (order.len() > 0 && forall|k: int|
            0 <= k < bs.len() ==> parse_order_spec(order).contains(#[trigger] bs[k].0)),
    ensures
        suffix_of(
            order_and_limit_spec(
                sources_of_chars(
                    canonical_present(sources_of(bs)).map_values(|c: RatingSource| source_char(c)),
                ),
                order,
                limit,
            ),
        ) == suffix_of(sources_of(apply_preferences_spec(bs, order, limit))),
{
    broadcast use vstd::seq_lib::group_filter_ensures;
    let srcs = sources_of(bs);
    let canon = canonical_present(srcs);
    lemma_sources_of_chars_roundtrip(canon);
    lemma_apply_preferences_sources(bs, order, limit);
    if srcs != canon {
        let preferred = parse_order_spec(order);
        assert forall|x: RatingSource| #[trigger] canon.contains(x) == srcs.contains(x) by {
            lemma_canonical_present_contains(srcs, x);
        }
        let p1 = |p: RatingSource| canon.contains(p);
        let p2 = |p: RatingSource| srcs.contains(p);
        assert(p1 =~= p2);
        assert forall|k: int| 0 <= k < srcs.len() implies !(|s: RatingSource| !preferred.contains(s))(
            srcs[k],
        ) by {
            assert(srcs[k] == bs[k].0);
        }
        srcs.lemma_all_neg_filter_empty(|s: RatingSource| !preferred.contains(s));
        assert forall|k: int| 0 <= k < canon.len() implies !(|s: RatingSource| !preferred.contains(s))(
            canon[k],
        ) by {
            assert(canon.contains(canon[k]));
            let j = choose|j: int| 0 <= j < srcs.len() && srcs[j] == canon[k];
            assert(srcs[j] == bs[j].0);
        }
        canon.lemma_all_neg_filter_empty(|s: RatingSource| !preferred.contains(s));
        assert(reorder(canon, preferred) =~= reorder(srcs, preferred));
    }
}


/// The key under which a title's ratings are cached: `{tmdb}/movie`,
/// `{tmdb}/tv` or `{show}/episode/S{season}E{episode}`.
pub open spec fn ratings_cache_key_spec(resolved: ResolvedId) -> Result<Seq<char>, ErrorView> {
    match resolved.media_type {
        MediaType::Movie => Ok(decimal(resolved.tmdb_id as nat) + "/movie"@),
        MediaType::Tv => Ok(decimal(resolved.tmdb_id as nat) + "/tv"@),
        MediaType::Episode => match resolved.episode {
            Some(ep) => Ok(
                decimal(ep.show_tmdb_id as nat) + "/episode/S"@ + decimal(ep.season_number as nat)
                    + "E"@ + decimal(ep.episode_number as nat),
            ),
            None => Err(
                ErrorView::Other(
                    "episode media type but no EpisodeInfo for tmdb_id="@ + decimal(
                        resolved.tmdb_id as nat,
                    ),
                ),
            ),
        },
    }
}

/// Builds the ratings cache key of a resolved title; an episode without
/// episode details is an error.
pub fn ratings_cache_key(resolved: &ResolvedId) -> (r: Result<String, AppError>)
    ensures
        match ratings_cache_key_spec(*resolved) {
            Ok(k) => r matches Ok(rk) && rk@ == k,
            Err(ev) => r matches Err(e) && e@ == ev,
        },
{
    match resolved.media_type {
        MediaType::Movie => {
            let mut s = String::new();
            push_decimal(&mut s, resolved.tmdb_id);
            s.append("/movie");
            Ok(s)
        },
        MediaType::Tv => {
            let mut s = String::new();
            push_decimal(&mut s, resolved.tmdb_id);
            s.append("/tv");
            Ok(s)
        },
        MediaType::Episode => match &resolved.episode {
            Some(ep) => {
                let mut s = String::new();
                push_decimal(&mut s, ep.show_tmdb_id);
                s.append("/episode/S");
                push_decimal(&mut s, ep.season_number as u64);
                s.append("E");
                push_decimal(&mut s, ep.episode_number as u64);
                Ok(s)
            },
            None => {
                let mut m = String::from_str("episode media type but no EpisodeInfo for tmdb_id=");
                push_decimal(&mut m, resolved.tmdb_id);
                Err(AppError::Other(m))
            },
        },
    }
}

/// The first badge with source `s` in an optional provider answer.
pub open spec fn provided(bs: Option<Seq<(RatingSource, Seq<char>)>>, s: RatingSource) -> Option<(RatingSource, Seq<char>)> {
    match bs {
        Some(v) => first_with_source(v, s),
        None => None,
    }
}

/// The first of two optional values that is present.
pub open spec fn either<A>(a: Option<A>, b: Option<A>) -> Option<A> {
    match a {
        Some(x) => Some(x),
        None => b,
    }
}

/// The present values of a list of optional values, in order.
pub open spec fn present_values<A>(xs: Seq<Option<A>>) -> Seq<A>
    decreases xs.len(),
{
    if xs.len() == 0 {
        Seq::empty()
    } else {
        let rest = present_values(xs.drop_last());
        match xs.last() {
            Some(x) => rest.push(x),
            None => rest,
        }
    }
}

/// The badges of a title in display order — IMDb, TMDB, RT critics, RT
/// audience, Metacritic, Trakt, Letterboxd, MAL — preferring MDBList for every
/// source it reports, with OMDb filling IMDb, RT and Metacritic, and the direct
/// Trakt rating filling Trakt.
pub open spec fn merged_badges(
    tmdb: Option<(RatingSource, Seq<char>)>,
    omdb: Option<Seq<(RatingSource, Seq<char>)>>,
    mdblist: Option<Seq<(RatingSource, Seq<char>)>>,
    trakt: Option<(RatingSource, Seq<char>)>,
) -> Seq<(RatingSource, Seq<char>)> {
    present_values(
        seq![
            either(provided(mdblist, RatingSource::Imdb), provided(omdb, RatingSource::Imdb)),
            tmdb,
            either(provided(mdblist, RatingSource::Rt), provided(omdb, RatingSource::Rt)),
            provided(mdblist, RatingSource::RtAudience),
            either(provided(mdblist, RatingSource::Metacritic), provided(omdb, RatingSource::Metacritic)),
            either(provided(mdblist, RatingSource::Trakt), trakt),
            provided(mdblist, RatingSource::Letterboxd),
            provided(mdblist, RatingSource::Mal),
        ],
    )
}

/// The value of an optional badge.
pub open spec fn opt_badge_view(b: Option<RatingBadge>) -> Option<(RatingSource, Seq<char>)> {
    match b {
        Some(x) => Some(badge_view(x)),
        None => None,
    }
}

/// The values of an optional badge list.
pub open spec fn opt_badges_view(b: Option<Vec<RatingBadge>>) -> Option<Seq<(RatingSource, Seq<char>)>> {
    match b {
        Some(v) => Some(badge_views(v@)),
        None => None,
    }
}

/// A copy of the first badge with source `s` in an optional badge list.
fn provided_badge(bs: &Option<Vec<RatingBadge>>, s: RatingSource) -> (r: Option<RatingBadge>)
    ensures
        opt_badge_view(r) == provided(opt_badges_view(*bs), s),
{
    match bs {
        Some(v) => find_badge(v, s),
        None => None,
    }
}

/// Appends `b` to `out` when present.
fn push_present(out: &mut Vec<RatingBadge>, b: Option<RatingBadge>)
    ensures
        badge_views(final(out)@) == match opt_badge_view(b) {
            Some(x) => badge_views(old(out)@).push(x),
            None => badge_views(old(out)@),
        },
{
    match b {
        Some(x) => {
            out.push(x);
            assert(badge_views(out@) =~= badge_views(old(out)@).push(badge_view(x)));
        },
        None => {},
    }
}

/// The first present of two optional badges.
fn or_badge(a: Option<RatingBadge>, b: Option<RatingBadge>) -> (r: Option<RatingBadge>)
    ensures
        opt_badge_view(r) == either(opt_badge_view(a), opt_badge_view(b)),
{
    match a {
        Some(x) => Some(x),
        None => b,
    }
}

/// Combines the answers of the rating providers into the title's ratings: the
/// badges in display order (see [`merged_badges`]) and the ids MDBList reported.
pub fn merge_ratings(
    tmdb: Option<RatingBadge>,
    omdb: Option<Vec<RatingBadge>>,
    mdblist: Option<(Vec<RatingBadge>, Option<u64>, Option<u64>, Option<String>)>,
    trakt: Option<RatingBadge>,
) -> (r: RatingsResult)
    ensures
        badge_views(r.badges@) == merged_badges(
            opt_badge_view(tmdb),
            opt_badges_view(omdb),
            match mdblist {
                Some(m) => Some(badge_views(m.0@)),
                None => None,
            },
            opt_badge_view(trakt),
        ),
        r.tmdb_id == match mdblist {
            Some(m) => m.1,
            None => None,
        },
        r.tvdb_id == match mdblist {
            Some(m) => m.2,
            None => None,
        },
        r.imdb_id == match mdblist {
            Some(m) => m.3,
            None => None,
        },
{
    let (mdb_badges, tmdb_id, tvdb_id, imdb_id) = match mdblist {
        Some((badges, tmdb_id, tvdb_id, imdb_id)) => (Some(badges), tmdb_id, tvdb_id, imdb_id),
        None => (None, None, None, None),
    };
    let ghost tv = opt_badge_view(tmdb);
    let ghost ov = opt_badges_view(omdb);
    let ghost mv = opt_badges_view(mdb_badges);
    let ghost kv = opt_badge_view(trakt);
    let b0 = or_badge(provided_badge(&mdb_badges, RatingSource::Imdb), provided_badge(&omdb, RatingSource::Imdb));
    let b2 = or_badge(provided_badge(&mdb_badges, RatingSource::Rt), provided_badge(&omdb, RatingSource::Rt));
    let b3 = provided_badge(&mdb_badges, RatingSource::RtAudience);
    let b4 = or_badge(provided_badge(&mdb_badges, RatingSource::Metacritic), provided_badge(&omdb, RatingSource::Metacritic));
    let b5 = or_badge(provided_badge(&mdb_badges, RatingSource::Trakt), trakt);
    let b6 = provided_badge(&mdb_badges, RatingSource::Letterboxd);
    let b7 = provided_badge(&mdb_badges, RatingSource::Mal);
    let ghost opts = seq![
        opt_badge_view(b0),
        tv,
        opt_badge_view(b2),
        opt_badge_view(b3),
        opt_badge_view(b4),
        opt_badge_view(b5),
        opt_badge_view(b6),
        opt_badge_view(b7),
    ];
    let mut badges: Vec<RatingBadge> = Vec::new();
    assert(badge_views(badges@) =~= present_values(opts.take(0)));
    push_present(&mut badges, b0);
    assert(badge_views(badges@) == present_values(opts.take(1))) by {
        assert(opts.take(1).drop_last() =~= opts.take(0));
        assert(opts.take(1).last() == opts[0]);
    }
    push_present(&mut badges, tmdb);
    assert(badge_views(badges@) == present_values(opts.take(2))) by {
        assert(opts.take(2).drop_last() =~= opts.take(1));
    }
    push_present(&mut badges, b2);
    assert(badge_views(badges@) == present_values(opts.take(3))) by {
        assert(opts.take(3).drop_last() =~= opts.take(2));
    }
    push_present(&mut badges, b3);
    assert(badge_views(badges@) == present_values(opts.take(4))) by {
        assert(opts.take(4).drop_last() =~= opts.take(3));
    }
    push_present(&mut badges, b4);
    assert(badge_views(badges@) == present_values(opts.take(5))) by {
        assert(opts.take(5).drop_last() =~= opts.take(4));
    }
    push_present(&mut badges, b5);
    assert(badge_views(badges@) == present_values(opts.take(6))) by {
        assert(opts.take(6).drop_last() =~= opts.take(5));
    }
    push_present(&mut badges, b6);
    assert(badge_views(badges@) == present_values(opts.take(7))) by {
        assert(opts.take(7).drop_last() =~= opts.take(6));
    }
    push_present(&mut badges, b7);
    assert(badge_views(badges@) == present_values(opts.take(8))) by {
        assert(opts.take(8).drop_last() =~= opts.take(7));
    }
    assert(opts.take(8) =~= opts);
    RatingsResult { badges, tmdb_id, tvdb_id, imdb_id }
}

/// The position of a source in the canonical order (`mal`, `imdb`, `lb`, `rt`,
/// `rta`, `mc`, `tmdb`, `trakt`).
pub open spec fn source_rank(s: RatingSource) -> int {
    match s {
        RatingSource::Mal => 0,
        RatingSource::Imdb => 1,
        RatingSource::Letterboxd => 2,
        RatingSource::Rt => 3,
        RatingSource::RtAudience => 4,
        RatingSource::Metacritic => 5,
        RatingSource::Tmdb => 6,
        RatingSource::Trakt => 7,
    }
}

/// The position of a cache character in the canonical order `milractk`.
pub open spec fn char_rank(c: char) -> int {
    if c == 'm' {
        0
    } else if c == 'i' {
        1
    } else if c == 'l' {
        2
    } else if c == 'r' {
        3
    } else if c == 'a' {
        4
    } else if c == 'c' {
        5
    } else if c == 't' {
        6
    } else if c == 'k' {
        7
    } else {
        8
    }
}

/// Whether the sources come in strictly increasing canonical position.
pub open spec fn rank_increasing(c: Seq<RatingSource>) -> bool {
    forall|i: int, j: int| 0 <= i < j < c.len() ==> source_rank(#[trigger] c[i]) < source_rank(#[trigger] c[j])
}

proof fn lemma_filter_rank_increasing(c: Seq<RatingSource>, p: spec_fn(RatingSource) -> bool)
    requires
        rank_increasing(c),
    ensures
        rank_increasing(c.filter(p)),
    decreases c.len(),
{
    reveal(Seq::filter);
    if c.len() > 0 {
        let d = c.drop_last();
        assert(rank_increasing(d)) by {
            assert forall|i: int, j: int| 0 <= i < j < d.len() implies source_rank(#[trigger] d[i]) < source_rank(
                #[trigger] d[j],
            ) by {
                assert(d[i] == c[i] && d[j] == c[j]);
            }
        }
        lemma_filter_rank_increasing(d, p);
        let sub = d.filter(p);
        if p(c.last()) {
            let r = sub.push(c.last());
            assert forall|i: int, j: int| 0 <= i < j < r.len() implies source_rank(#[trigger] r[i]) < source_rank(
                #[trigger] r[j],
            ) by {
                if j == r.len() - 1 {
                    assert(r[i] == sub[i]);
                    assert(sub.contains(sub[i]));
                    d.lemma_filter_contains_rev(p, sub[i]);
                    let k = choose|k: int| 0 <= k < d.len() && d[k] == sub[i];
                    assert(c[k] == d[k]);
                    assert(c[c.len() - 1] == c.last());
                } else {
                    assert(r[i] == sub[i] && r[j] == sub[j]);
                }
            }
        }
    }
}

/// The stored available-sources string lists each rated source exactly once,
/// in canonical order `milractk`: its characters strictly increase in
/// canonical position (so none repeats), and a character occurs in it exactly
/// when some rating's source has that cache character.
pub proof fn lemma_available_sources_shape(sources: Seq<RatingSource>)
    ensures
        ({
            let r = canonical_present(sources).map_values(|c: RatingSource| source_char(c));
            &&& forall|i: int, j: int| 0 <= i < j < r.len() ==> char_rank(#[trigger] r[i]) < char_rank(#[trigger] r[j])
            &&& forall|i: int, j: int| 0 <= i < j < r.len() ==> #[trigger] r[i] != #[trigger] r[j]
            &&& forall|c: char| r.contains(c) <==> sources.map_values(|s: RatingSource| source_char(s)).contains(c)
        }),
{
    let cp = canonical_present(sources);
    let r = cp.map_values(|c: RatingSource| source_char(c));
    let all = sources.map_values(|s: RatingSource| source_char(s));
    assert(rank_increasing(canonical_sources()));
    lemma_filter_rank_increasing(canonical_sources(), |c: RatingSource| sources.contains(c));
    assert forall|i: int, j: int| 0 <= i < j < r.len() implies char_rank(#[trigger] r[i]) < char_rank(#[trigger] r[j]) by {
        assert(r[i] == source_char(cp[i]) && r[j] == source_char(cp[j]));
        assert(source_rank(cp[i]) < source_rank(cp[j]));
    }
    assert forall|c: char| r.contains(c) <==> all.contains(c) by {
        if r.contains(c) {
            let k = choose|k: int| 0 <= k < r.len() && r[k] == c;
            assert(r[k] == source_char(cp[k]));
            assert(cp.contains(cp[k]));
            lemma_canonical_present_contains(sources, cp[k]);
            let m = choose|m: int| 0 <= m < sources.len() && sources[m] == cp[k];
            assert(all[m] == c);
        }
        if all.contains(c) {
            let m = choose|m: int| 0 <= m < all.len() && all[m] == c;
            assert(all[m] == source_char(sources[m]));
            assert(sources.contains(sources[m]));
            lemma_canonical_present_contains(sources, sources[m]);
            let k = choose|k: int| 0 <= k < cp.len() && cp[k] == sources[m];
            assert(r[k] == c);
        }
    }
}

/// The preferred sources followed by the rest in canonical order repeat no
/// source, when the preferences name none twice.
proof fn lemma_complete_order_distinct(preferred: Seq<RatingSource>)
    requires
        preferred.no_duplicates(),
    ensures
        complete_order(preferred).no_duplicates(),
{
    broadcast use vstd::seq_lib::group_filter_ensures;
    let pred = |c: RatingSource| !preferred.contains(c);
    let rest = canonical_sources().filter(pred);
    assert(rank_increasing(canonical_sources()));
    lemma_filter_rank_increasing(canonical_sources(), pred);
    let all = complete_order(preferred);
    assert forall|i: int, j: int| 0 <= i < all.len() && 0 <= j < all.len() && i != j implies all[i] != all[j] by {
        let n = preferred.len() as int;
        if i < n && j < n {
            assert(all[i] == preferred[i] && all[j] == preferred[j]);
        } else if i >= n && j >= n {
            assert(all[i] == rest[i - n] && all[j] == rest[j - n]);
            if i < j {
                assert(source_rank(rest[i - n]) < source_rank(rest[j - n]));
            } else {
                assert(source_rank(rest[j - n]) < source_rank(rest[i - n]));
            }
        } else if i < n {
            assert(all[i] == preferred[i] && all[j] == rest[j - n]);
            assert(pred(rest[j - n]));
            assert(preferred.contains(preferred[i]));
        } else {
            assert(all[j] == preferred[j] && all[i] == rest[i - n]);
            assert(pred(rest[i - n]));
            assert(preferred.contains(preferred[j]));
        }
    }
}

/// The predicted cache suffix for a limit is a prefix of the suffix for any
/// larger limit; a limit of 0 gives `"@"`; and, when the order preference
/// names no source twice, no source character repeats after the `@`.
pub proof fn lemma_ratings_suffix_prefix(order: Seq<char>, l1: int, l2: int)
    requires
        0 <= l1 <= l2,
    ensures
        ratings_suffix_spec(order, 0) == seq!['@'],
        ratings_suffix_spec(order, l1).len() <= ratings_suffix_spec(order, l2).len(),
        ratings_suffix_spec(order, l2).take(ratings_suffix_spec(order, l1).len() as int) == ratings_suffix_spec(
            order,
            l1,
        ),
        ratings_suffix_spec(order, l2)[0] == '@',
        parse_order_spec(order).no_duplicates() ==> forall|i: int, j: int|
            1 <= i < j < ratings_suffix_spec(order, l2).len() ==> #[trigger] ratings_suffix_spec(order, l2)[i]
                != #[trigger] ratings_suffix_spec(order, l2)[j],
{
    let x = complete_order(parse_order_spec(order));
    let f = |s: RatingSource| source_char(s);
    let a = ratings_suffix_spec(order, l1);
    let b = ratings_suffix_spec(order, l2);
    if l2 > 0 {
        let t2 = truncated(x, l2);
        assert(b == seq!['@'] + t2.map_values(f));
        assert(b[0] == '@');
        if l1 > 0 {
            let t1 = truncated(x, l1);
            assert(t2.take(t1.len() as int) =~= t1);
            assert(a == seq!['@'] + t1.map_values(f));
            assert(b.take(a.len() as int) =~= a);
        } else {
            assert(b.take(1) =~= seq!['@']);
        }
        if parse_order_spec(order).no_duplicates() {
            lemma_complete_order_distinct(parse_order_spec(order));
            assert forall|i: int, j: int| 1 <= i < j < b.len() implies #[trigger] b[i] != #[trigger] b[j] by {
                assert(b[i] == source_char(t2[i - 1]) && b[j] == source_char(t2[j - 1]));
                assert(t2[i - 1] == x[i - 1] && t2[j - 1] == x[j - 1]);
                lemma_cache_char_injective(x[i - 1], x[j - 1]);
            }
        }
    } else {
        assert(b.take(1) =~= seq!['@']);
    }
}

proof fn lemma_filter_no_duplicates(s: Seq<RatingSource>, p: spec_fn(RatingSource) -> bool)
    requires
        s.no_duplicates(),
    ensures
        s.filter(p).no_duplicates(),
    decreases s.len(),
{
    reveal(Seq::filter);
    if s.len() > 0 {
        let d = s.drop_last();
        assert(d.no_duplicates()) by {
            assert forall|i: int, j: int| 0 <= i < d.len() && 0 <= j < d.len() && i != j implies d[i] != d[j] by {
                assert(d[i] == s[i] && d[j] == s[j]);
            }
        }
        lemma_filter_no_duplicates(d, p);
        let sub = d.filter(p);
        if p(s.last()) {
            assert(!sub.contains(s.last())) by {
                if sub.contains(s.last()) {
                    d.lemma_filter_contains_rev(p, s.last());
                    let k = choose|k: int| 0 <= k < d.len() && d[k] == s.last();
                    assert(s[k] == s[s.len() - 1]);
                }
            }
            let r = sub.push(s.last());
            assert forall|i: int, j: int| 0 <= i < r.len() && 0 <= j < r.len() && i != j implies r[i] != r[j] by {
                if i == r.len() - 1 {
                    assert(sub.contains(r[j]));
                } else if j == r.len() - 1 {
                    assert(sub.contains(r[i]));
                } else {
                    assert(r[i] == sub[i] && r[j] == sub[j]);
                }
            }
        }
    }
}

proof fn lemma_filter_all(s: Seq<RatingSource>, p: spec_fn(RatingSource) -> bool)
    requires
        forall|i: int| 0 <= i < s.len() ==> p(#[trigger] s[i]),
    ensures
        s.filter(p) == s,
    decreases s.len(),
{
    reveal(Seq::filter);
    if s.len() > 0 {
        let d = s.drop_last();
        assert forall|i: int| 0 <= i < d.len() implies p(#[trigger] d[i]) by {
            assert(d[i] == s[i]);
        }
        lemma_filter_all(d, p);
        assert(p(s[s.len() - 1]));
        assert(d.push(s.last()) =~= s);
    }
}

proof fn lemma_filter_none(s: Seq<RatingSource>, p: spec_fn(RatingSource) -> bool)
    requires
        forall|i: int| 0 <= i < s.len() ==> !p(#[trigger] s[i]),
    ensures
        s.filter(p) == Seq::<RatingSource>::empty(),
    decreases s.len(),
{
    reveal(Seq::filter);
    if s.len() > 0 {
        let d = s.drop_last();
        assert forall|i: int| 0 <= i < d.len() implies !p(#[trigger] d[i]) by {
            assert(d[i] == s[i]);
        }
        lemma_filter_none(d, p);
        assert(!p(s[s.len() - 1]));
    }
}

/// Filtering a duplicate-free `pref` by membership in a prefix of
/// `pref.filter(p)` gives that prefix back.
proof fn lemma_filter_by_prefix(
    pref: Seq<RatingSource>,
    p: spec_fn(RatingSource) -> bool,
    a: int,
    q: spec_fn(RatingSource) -> bool,
)
    requires
        pref.no_duplicates(),
        0 <= a <= pref.filter(p).len(),
        forall|x: RatingSource| pref.contains(x) ==> (q(x) <==> pref.filter(p).take(a).contains(x)),
    ensures
        pref.filter(q) == pref.filter(p).take(a),
    decreases pref.len(),
{
    reveal(Seq::filter);
    if pref.len() == 0 {
        assert(pref.filter(p).take(a) =~= pref.filter(q));
    } else {
        let d = pref.drop_last();
        let x = pref.last();
        let a0 = d.filter(p);
        assert(d.no_duplicates()) by {
            assert forall|i: int, j: int| 0 <= i < d.len() && 0 <= j < d.len() && i != j implies d[i] != d[j] by {
                assert(d[i] == pref[i] && d[j] == pref[j]);
            }
        }
        assert(!d.contains(x)) by {
            if d.contains(x) {
                let k = choose|k: int| 0 <= k < d.len() && d[k] == x;
                assert(pref[k] == pref[pref.len() - 1]);
            }
        }
        assert forall|y: RatingSource| d.contains(y) implies pref.contains(y) by {
            let k = choose|k: int| 0 <= k < d.len() && d[k] == y;
            assert(pref[k] == y);
        }
        assert(pref.contains(x)) by {
            assert(pref[pref.len() - 1] == x);
        }
        if a <= a0.len() {
            assert(pref.filter(p).take(a) =~= a0.take(a));
            assert(!a0.take(a).contains(x)) by {
                if a0.take(a).contains(x) {
                    let k = choose|k: int| 0 <= k < a && a0.take(a)[k] == x;
                    assert(a0.contains(a0[k]));
                    d.lemma_filter_contains_rev(p, x);
                }
            }
            assert(!q(x));
            lemma_filter_by_prefix(d, p, a, q);
        } else {
            assert(p(x));
            let t = a0.push(x);
            assert(pref.filter(p) == t);
            assert(t.take(a) =~= t);
            assert(q(x)) by {
                assert(t[t.len() - 1] == x);
            }
            assert forall|y: RatingSource| d.contains(y) implies (q(y) <==> a0.take(a0.len() as int).contains(y)) by {
                assert(a0.take(a0.len() as int) =~= a0);
                if t.contains(y) {
                    let k = choose|k: int| 0 <= k < t.len() && t[k] == y;
                    if k < a0.len() {
                        assert(a0[k] == y);
                    }
                }
                if a0.contains(y) {
                    let k = choose|k: int| 0 <= k < a0.len() && a0[k] == y;
                    assert(t[k] == y);
                }
            }
            lemma_filter_by_prefix(d, p, a0.len() as int, q);
            assert(a0.take(a0.len() as int) =~= a0);
        }
    }
}

/// Choosing by the preferences again keeps what was chosen, and what is
/// chosen repeats no source.
#[verifier::spinoff_prover]
#[verifier::rlimit(40)]
proof fn lemma_order_and_limit_idempotent(sources: Seq<RatingSource>, order: Seq<char>, limit: int)
    requires
        limit >= 0,
        sources.no_duplicates(),
        parse_order_spec(order).no_duplicates(),
    ensures
        order_and_limit_spec(sources, order, limit).no_duplicates(),
        order_and_limit_spec(order_and_limit_spec(sources, order, limit), order, limit) == order_and_limit_spec(
            sources,
            order,
            limit,
        ),
{
    broadcast use vstd::seq_lib::group_filter_ensures;
    let r = order_and_limit_spec(sources, order, limit);
    if limit == 0 {
    } else if order.len() == 0 {
        assert forall|i: int, j: int| 0 <= i < r.len() && 0 <= j < r.len() && i != j implies r[i] != r[j] by {
            assert(r[i] == sources[i] && r[j] == sources[j]);
        }
        assert(truncated(r, limit) =~= r);
    } else {
        let pref = parse_order_spec(order);
        let inp = |x: RatingSource| sources.contains(x);
        let notp = |x: RatingSource| !pref.contains(x);
        let a_all = pref.filter(inp);
        let b_all = sources.filter(notp);
        let all = a_all + b_all;
        let n = r.len() as int;
        let a: int = if n < a_all.len() { n } else { a_all.len() as int };
        let ta = a_all.take(a);
        let tb = b_all.take(n - a);
        assert(r =~= ta + tb);
        // `r` repeats nothing: both parts are duplicate-free and disjoint.
        lemma_filter_no_duplicates(pref, inp);
        lemma_filter_no_duplicates(sources, notp);
        assert forall|i: int, j: int| 0 <= i < r.len() && 0 <= j < r.len() && i != j implies r[i] != r[j] by {
            assert(r[i] == all[i] && r[j] == all[j]);
            let m = a_all.len() as int;
            if i < m && j >= m {
                assert(a_all.contains(a_all[i]));
                pref.lemma_filter_contains_rev(inp, a_all[i]);
                assert(notp(b_all[j - m]));
            } else if i >= m && j < m {
                assert(a_all.contains(a_all[j]));
                pref.lemma_filter_contains_rev(inp, a_all[j]);
                assert(notp(b_all[i - m]));
            }
        }
        // Elements of the first part are preferred; those of the second are not.
        assert forall|i: int| 0 <= i < ta.len() implies !notp(#[trigger] ta[i]) by {
            assert(ta[i] == a_all[i]);
            assert(a_all.contains(a_all[i]));
            pref.lemma_filter_contains_rev(inp, a_all[i]);
        }
        assert forall|i: int| 0 <= i < tb.len() implies notp(#[trigger] tb[i]) by {
            assert(tb[i] == b_all[i]);
        }
        lemma_filter_none(ta, notp);
        lemma_filter_all(tb, notp);
        Seq::filter_distributes_over_add(ta, tb, notp);
        assert(r.filter(notp) =~= tb);
        let inr = |x: RatingSource| r.contains(x);
        assert forall|x: RatingSource| pref.contains(x) implies (inr(x) <==> a_all.take(a).contains(x)) by {
            if r.contains(x) {
                let k = choose|k: int| 0 <= k < r.len() && r[k] == x;
                if k >= ta.len() {
                    assert(tb[k - ta.len()] == x);
                    assert(notp(tb[k - ta.len()]));
                } else {
                    assert(ta[k] == x);
                }
            }
            if ta.contains(x) {
                let k = choose|k: int| 0 <= k < ta.len() && ta[k] == x;
                assert(r[k] == x);
            }
        }
        lemma_filter_by_prefix(pref, inp, a, inr);
        assert(reorder(r, pref) =~= r);
        assert(truncated(r, limit) =~= r);
    }
}

/// The first badge with source `s` is the one at `k` when no earlier badge
/// has that source.
proof fn lemma_first_with_source_at(bs: Seq<(RatingSource, Seq<char>)>, s: RatingSource, k: int)
    requires
        0 <= k < bs.len(),
        bs[k].0 == s,
        forall|j: int| 0 <= j < k ==> (#[trigger] bs[j]).0 != s,
    ensures
        first_with_source(bs, s) == Some(bs[k]),
    decreases k,
{
    if k > 0 {
        let d = bs.drop_first();
        assert forall|j: int| 0 <= j < k - 1 implies (#[trigger] d[j]).0 != s by {
            assert(d[j] == bs[j + 1]);
        }
        assert(bs[0].0 != s);
        lemma_first_with_source_at(d, s, k - 1);
    }
}

/// Applying the rating preferences twice gives the same badges as applying
/// them once, when no source is rated twice and the order preference names
/// no source twice.
pub proof fn lemma_apply_preferences_idempotent(bs: Seq<(RatingSource, Seq<char>)>, order: Seq<char>, limit: int)
    requires
        limit >= 0,
        sources_of(bs).no_duplicates(),
        parse_order_spec(order).no_duplicates(),
    ensures
        apply_preferences_spec(apply_preferences_spec(bs, order, limit), order, limit) == apply_preferences_spec(
            bs,
            order,
            limit,
        ),
{
    let once = apply_preferences_spec(bs, order, limit);
    let chosen = order_and_limit_spec(sources_of(bs), order, limit);
    lemma_apply_preferences_sources(bs, order, limit);
    lemma_order_and_limit_idempotent(sources_of(bs), order, limit);
    lemma_order_and_limit_subset(sources_of(bs), order, limit);
    assert(sources_of(once) == chosen);
    let twice = apply_preferences_spec(once, order, limit);
    assert forall|k: int| 0 <= k < chosen.len() implies #[trigger] twice[k] == once[k] by {
        lemma_first_with_source(bs, chosen[k]);
        assert(once[k] == first_with_source(bs, chosen[k]).unwrap());
        assert(sources_of(once)[k] == once[k].0);
        assert forall|j: int| 0 <= j < k implies (#[trigger] once[j]).0 != chosen[k] by {
            assert(sources_of(once)[j] == once[j].0);
        }
        lemma_first_with_source_at(once, chosen[k], k);
    }
    assert(twice =~= once);
}

/// Every present value of a list of optional values is kept.
proof fn lemma_present_values_keeps<A>(xs: Seq<Option<A>>, i: int, x: A)
    requires
        0 <= i < xs.len(),
        xs[i] == Some(x),
    ensures
        present_values(xs).contains(x),
    decreases xs.len(),
{
    let rest = present_values(xs.drop_last());
    if i == xs.len() - 1 {
        assert(present_values(xs) == rest.push(x));
        assert(present_values(xs)[rest.len() as int] == x);
    } else {
        lemma_present_values_keeps(xs.drop_last(), i, x);
        let k = choose|k: int| 0 <= k < rest.len() && rest[k] == x;
        match xs.last() {
            Some(y) => {
                assert(present_values(xs) == rest.push(y));
                assert(present_values(xs)[k] == x);
            },
            None => {},
        }
    }
}

/// A source reported by a badge list has a first badge, taken from the list.
proof fn lemma_reported(v: Seq<(RatingSource, Seq<char>)>, b: (RatingSource, Seq<char>))
    requires
        v.contains(b),
    ensures
        first_with_source(v, b.0) matches Some(f) && f.0 == b.0 && v.contains(f),
{
    let k = choose|k: int| 0 <= k < v.len() && v[k] == b;
    assert(sources_of(v)[k] == b.0);
    lemma_first_with_source(v, b.0);
}

/// A source not reported by a badge list has no badge from it.
proof fn lemma_not_reported(v: Seq<(RatingSource, Seq<char>)>, s: RatingSource)
    requires
        forall|k: int| 0 <= k < v.len() ==> (#[trigger] v[k]).0 != s,
    ensures
        first_with_source(v, s) is None,
{
    if sources_of(v).contains(s) {
        let k = choose|k: int| 0 <= k < sources_of(v).len() && sources_of(v)[k] == s;
        assert(v[k].0 == s);
    }
    lemma_first_with_source(v, s);
}

/// Merging keeps every provider's rating: MDBList's badge for any source it
/// reports; OMDb's badge for IMDb, Rotten Tomatoes and Metacritic whenever
/// MDBList reports none for that source; the direct Trakt rating when MDBList
/// reports no Trakt rating; and the TMDB rating.
pub proof fn lemma_merge_keeps_every_provider(
    tmdb: Option<(RatingSource, Seq<char>)>,
    omdb: Option<Seq<(RatingSource, Seq<char>)>>,
    mdblist: Option<Seq<(RatingSource, Seq<char>)>>,
    trakt: Option<(RatingSource, Seq<char>)>,
    b: (RatingSource, Seq<char>),
)
    ensures
        mdblist is Some && mdblist.unwrap().contains(b) && b.0 != RatingSource::Tmdb ==> exists|
            x: (RatingSource, Seq<char>),
        |
            #![trigger merged_badges(tmdb, omdb, mdblist, trakt).contains(x)]
            merged_badges(tmdb, omdb, mdblist, trakt).contains(x) && x.0 == b.0 && mdblist.unwrap().contains(x),
        omdb is Some && omdb.unwrap().contains(b) && (b.0 == RatingSource::Imdb || b.0 == RatingSource::Rt || b.0
            == RatingSource::Metacritic) && (mdblist is Some ==> forall|k: int|
            0 <= k < mdblist.unwrap().len() ==> (#[trigger] mdblist.unwrap()[k]).0 != b.0) ==> exists|
            x: (RatingSource, Seq<char>),
        |
            #![trigger merged_badges(tmdb, omdb, mdblist, trakt).contains(x)]
            merged_badges(tmdb, omdb, mdblist, trakt).contains(x) && x.0 == b.0 && omdb.unwrap().contains(x),
        trakt == Some(b) && (mdblist is Some ==> forall|k: int|
            0 <= k < mdblist.unwrap().len() ==> (#[trigger] mdblist.unwrap()[k]).0 != RatingSource::Trakt) ==> merged_badges(
            tmdb,
            omdb,
            mdblist,
            trakt,
        ).contains(b),
        tmdb == Some(b) ==> merged_badges(tmdb, omdb, mdblist, trakt).contains(b),
{
    let xs = seq![
        either(provided(mdblist, RatingSource::Imdb), provided(omdb, RatingSource::Imdb)),
        tmdb,
        either(provided(mdblist, RatingSource::Rt), provided(omdb, RatingSource::Rt)),
        provided(mdblist, RatingSource::RtAudience),
        either(provided(mdblist, RatingSource::Metacritic), provided(omdb, RatingSource::Metacritic)),
        either(provided(mdblist, RatingSource::Trakt), trakt),
        provided(mdblist, RatingSource::Letterboxd),
        provided(mdblist, RatingSource::Mal),
    ];
    let merged = merged_badges(tmdb, omdb, mdblist, trakt);
    assert(merged == present_values(xs));
    let i: int = match b.0 {
        RatingSource::Imdb => 0,
        RatingSource::Tmdb => 1,
        RatingSource::Rt => 2,
        RatingSource::RtAudience => 3,
        RatingSource::Metacritic => 4,
        RatingSource::Trakt => 5,
        RatingSource::Letterboxd => 6,
        RatingSource::Mal => 7,
    };
    if let Some(m) = mdblist {
        if m.contains(b) && b.0 != RatingSource::Tmdb {
            lemma_reported(m, b);
            let f = first_with_source(m, b.0).unwrap();
            assert(xs[i] == Some(f));
            lemma_present_values_keeps(xs, i, f);
        }
    }
    if let Some(o) = omdb {
        if o.contains(b) && (b.0 == RatingSource::Imdb || b.0 == RatingSource::Rt || b.0 == RatingSource::Metacritic)
            && (mdblist is Some ==> forall|k: int| 0 <= k < mdblist.unwrap().len() ==> (#[trigger] mdblist.unwrap()[k]).0
            != b.0) {
            if let Some(m) = mdblist {
                lemma_not_reported(m, b.0);
            }
            lemma_reported(o, b);
            let f = first_with_source(o, b.0).unwrap();
            assert(xs[i] == Some(f));
            lemma_present_values_keeps(xs, i, f);
        }
    }
    if trakt == Some(b) && (mdblist is Some ==> forall|k: int| 0 <= k < mdblist.unwrap().len() ==> (
    #[trigger] mdblist.unwrap()[k]).0 != RatingSource::Trakt) {
        if let Some(m) = mdblist {
            lemma_not_reported(m, RatingSource::Trakt);
        }
        assert(xs[5] == Some(b));
        lemma_present_values_keeps(xs, 5, b);
    }
    if tmdb == Some(b) {
        assert(xs[1] == Some(b));
        lemma_present_values_keeps(xs, 1, b);
    }
}

/// A kept value comes from the list of optional values.
proof fn lemma_present_values_from<A>(xs: Seq<Option<A>>, x: A)
    requires
        present_values(xs).contains(x),
    ensures
        exists|i: int| 0 <= i < xs.len() && xs[i] == Some(x),
    decreases xs.len(),
{
    let rest = present_values(xs.drop_last());
    let k = choose|k: int| 0 <= k < present_values(xs).len() && present_values(xs)[k] == x;
    match xs.last() {
        Some(y) => {
            if k == rest.len() {
                assert(xs[xs.len() - 1] == Some(x));
            } else {
                assert(rest[k] == x);
                lemma_present_values_from(xs.drop_last(), x);
                let i = choose|i: int| 0 <= i < xs.drop_last().len() && xs.drop_last()[i] == Some(x);
                assert(xs[i] == Some(x));
            }
        },
        None => {
            assert(rest[k] == x);
            lemma_present_values_from(xs.drop_last(), x);
            let i = choose|i: int| 0 <= i < xs.drop_last().len() && xs.drop_last()[i] == Some(x);
            assert(xs[i] == Some(x));
        },
    }
}

proof fn lemma_provided_from(bs: Option<Seq<(RatingSource, Seq<char>)>>, s: RatingSource)
    ensures
        provided(bs, s) matches Some(f) ==> f.0 == s && bs is Some && bs.unwrap().contains(f),
{
    if let Some(v) = bs {
        lemma_first_with_source(v, s);
    }
}

/// Merging invents nothing: every merged badge is the TMDB rating, the direct
/// Trakt rating, or a badge MDBList or OMDb reported.
pub proof fn lemma_merge_invents_nothing(
    tmdb: Option<(RatingSource, Seq<char>)>,
    omdb: Option<Seq<(RatingSource, Seq<char>)>>,
    mdblist: Option<Seq<(RatingSource, Seq<char>)>>,
    trakt: Option<(RatingSource, Seq<char>)>,
    x: (RatingSource, Seq<char>),
)
    requires
        merged_badges(tmdb, omdb, mdblist, trakt).contains(x),
    ensures
        tmdb == Some(x) || trakt == Some(x) || (mdblist is Some && mdblist.unwrap().contains(x)) || (omdb is Some
            && omdb.unwrap().contains(x)),
{
    let xs = seq![
        either(provided(mdblist, RatingSource::Imdb), provided(omdb, RatingSource::Imdb)),
        tmdb,
        either(provided(mdblist, RatingSource::Rt), provided(omdb, RatingSource::Rt)),
        provided(mdblist, RatingSource::RtAudience),
        either(provided(mdblist, RatingSource::Metacritic), provided(omdb, RatingSource::Metacritic)),
        either(provided(mdblist, RatingSource::Trakt), trakt),
        provided(mdblist, RatingSource::Letterboxd),
        provided(mdblist, RatingSource::Mal),
    ];
    assert(merged_badges(tmdb, omdb, mdblist, trakt) == present_values(xs));
    lemma_present_values_from(xs, x);
    lemma_provided_from(mdblist, RatingSource::Imdb);
    lemma_provided_from(mdblist, RatingSource::Rt);
    lemma_provided_from(mdblist, RatingSource::RtAudience);
    lemma_provided_from(mdblist, RatingSource::Metacritic);
    lemma_provided_from(mdblist, RatingSource::Trakt);
    lemma_provided_from(mdblist, RatingSource::Letterboxd);
    lemma_provided_from(mdblist, RatingSource::Mal);
    lemma_provided_from(omdb, RatingSource::Imdb);
    lemma_provided_from(omdb, RatingSource::Rt);
    lemma_provided_from(omdb, RatingSource::Metacritic);
}

} // verus!
