//! Identifier types and the textual identifier formats accepted by the service:
//! `imdb`/`tmdb`/`tvdb` id types, `movie-{id}`, `series-{id}` and
//! `episode-{id}-S{season}E{episode}` values.

use crate::error::{AppError, ErrorView};
use crate::text::{
    ascii_upper, decimal, find, find_str, lemma_find, parse_unsigned, parse_unsigned_max, push_decimal,
    str_eq, strip_prefix, has_prefix, to_ascii_uppercase, lemma_decimal_digits, lemma_parse_decimal,
    lemma_find_some, occurs_at, is_digit, ascii_upper_char,
};
use vstd::prelude::*;
use vstd::string::*;

verus! {

/// Which external database an identifier belongs to.
#[derive(Debug, Clone, Copy, PartialEq, Eq, Structural)]
pub enum IdType {
    Imdb,
    Tmdb,
    Tvdb,
}

/// The kind of title an identifier resolves to.
#[derive(Debug, Clone, Copy, PartialEq, Eq, Structural)]
pub enum MediaType {
    Movie,
    Tv,
    Episode,
}

/// A TV episode: its show's TMDB id, season and episode numbers, and still image.
#[derive(Debug, Clone)]
pub struct EpisodeInfo {
    pub show_tmdb_id: u64,
    pub season_number: u32,
    pub episode_number: u32,
    pub still_path: Option<String>,
}

/// An identifier resolved against TMDB.
#[derive(Debug, Clone)]
pub struct ResolvedId {
    pub imdb_id: Option<String>,
    pub tmdb_id: u64,
    pub tvdb_id: Option<u64>,
    pub media_type: MediaType,
    pub poster_path: Option<String>,
    pub release_date: Option<String>,
    pub episode: Option<EpisodeInfo>,
}

/// The canonical TMDB id value of a title: `movie-{id}`, `series-{id}` or
/// `episode-{show}-S{season}E{episode}` (an episode without details falls back
/// to the series form).
pub open spec fn tmdb_id_value(tmdb_id: u64, media_type: MediaType, episode: Option<EpisodeInfo>) -> Seq<char> {
    match media_type {
        MediaType::Movie => "movie-"@ + decimal(tmdb_id as nat),
        MediaType::Tv => "series-"@ + decimal(tmdb_id as nat),
        MediaType::Episode => match episode {
            Some(ep) => "episode-"@ + decimal(ep.show_tmdb_id as nat) + "-S"@ + decimal(
                ep.season_number as nat,
            ) + "E"@ + decimal(ep.episode_number as nat),
            None => "series-"@ + decimal(tmdb_id as nat),
        },
    }
}

/// Formats the canonical TMDB id value of a title.
pub fn format_tmdb_id_value(tmdb_id: u64, media_type: &MediaType, episode: Option<&EpisodeInfo>) -> (s: String)
    ensures
        s@ == tmdb_id_value(
            tmdb_id,
            *media_type,
            match episode {
                Some(ep) => Some(*ep),
                None => None,
            },
        ),
{
    match media_type {
        MediaType::Movie => {
            let mut s = String::from_str("movie-");
            push_decimal(&mut s, tmdb_id);
            s
        },
        MediaType::Tv => {
            let mut s = String::from_str("series-");
            push_decimal(&mut s, tmdb_id);
            s
        },
        MediaType::Episode => match episode {
            Some(ep) => {
                let mut s = String::from_str("episode-");
                push_decimal(&mut s, ep.show_tmdb_id);
                s.append("-S");
                push_decimal(&mut s, ep.season_number as u64);
                s.append("E");
                push_decimal(&mut s, ep.episode_number as u64);
                s
            },
            None => {
                let mut s = String::from_str("series-");
                push_decimal(&mut s, tmdb_id);
                s
            },
        },
    }
}

/// The name of an id type as it appears in request paths.
pub open spec fn id_type_name(t: IdType) -> Seq<char> {
    match t {
        IdType::Imdb => "imdb"@,
        IdType::Tmdb => "tmdb"@,
        IdType::Tvdb => "tvdb"@,
    }
}

/// The id type named by `s` (names are case-sensitive).
pub open spec fn id_type_named(s: Seq<char>) -> Option<IdType> {
    if s == "imdb"@ {
        Some(IdType::Imdb)
    } else if s == "tmdb"@ {
        Some(IdType::Tmdb)
    } else if s == "tvdb"@ {
        Some(IdType::Tvdb)
    } else {
        None
    }
}

impl IdType {
    /// Parses an id type name; any other text is an `InvalidIdType` error carrying it.
    pub fn parse(s: &str) -> (r: Result<IdType, AppError>)
        ensures
            match id_type_named(s@) {
                Some(t) => r == Ok::<IdType, AppError>(t),
                None => r matches Err(e) && e@ == ErrorView::InvalidIdType(s@),
            },
    {
        if str_eq(s, "imdb") {
            Ok(IdType::Imdb)
        } else if str_eq(s, "tmdb") {
            Ok(IdType::Tmdb)
        } else if str_eq(s, "tvdb") {
            Ok(IdType::Tvdb)
        } else {
            Err(AppError::InvalidIdType(s.to_owned()))
        }
    }

    /// The name of this id type.
    pub fn as_str(&self) -> (s: &'static str)
        ensures
            s@ == id_type_name(*self),
    {
        match self {
            IdType::Imdb => "imdb",
            IdType::Tmdb => "tmdb",
            IdType::Tvdb => "tvdb",
        }
    }
}

/// Parsing the name of an id type gives the id type back.
pub proof fn lemma_id_type_name_roundtrip(t: IdType)
    ensures
        id_type_named(id_type_name(t)) == Some(t),
{
    reveal_strlit("imdb");
    reveal_strlit("tmdb");
    reveal_strlit("tvdb");
    assert("tmdb"@[0] != "imdb"@[0]);
    assert("tvdb"@[0] != "imdb"@[0]);
    assert("tvdb"@[1] != "tmdb"@[1]);
}

/// The key under which resolved identifiers are cached: `{id type}/{id value}`.
pub open spec fn id_cache_key_spec(id_type: IdType, id_value: Seq<char>) -> Seq<char> {
    id_type_name(id_type) + "/"@ + id_value
}

/// Builds the resolution cache key of an identifier.
pub fn id_cache_key(id_type: IdType, id_value: &str) -> (s: String)
    ensures
        s@ == id_cache_key_spec(id_type, id_value@),
{
    let mut s = String::from_str(id_type.as_str());
    s.append("/");
    s.append(id_value);
    s
}

/// The error for an episode id that does not have the `{id}-S{season}E{episode}` shape.
pub open spec fn episode_shape_error(id_value: Seq<char>) -> ErrorView {
    ErrorView::InvalidIdType("episode id must be episode-{id}-S{season}E{episode}: "@ + id_value)
}

/// The error for season or episode numbers above the accepted limits.
pub open spec fn episode_range_error() -> ErrorView {
    ErrorView::BadRequest("season must be ≤ 10 000 and episode must be ≤ 100 000"@)
}

/// Parsing `{external id}-S{season}E{episode}` (case-insensitive markers) into the
/// external id, season and episode; `id_value` is the whole identifier, used in
/// error messages.
pub open spec fn episode_external(rest: Seq<char>, id_value: Seq<char>) -> Result<(Seq<char>, u32, u32), ErrorView> {
    let upper = ascii_upper(rest);
    match find(upper, "-S"@) {
        None => Err(episode_shape_error(id_value)),
        Some(pos) => if pos == 0 {
            Err(episode_shape_error(id_value))
        } else {
            let se = upper.skip(pos + 2);
            match find(se, "E"@) {
                None => Err(episode_shape_error(id_value)),
                Some(e) => match parse_unsigned(se.take(e), u32::MAX as nat) {
                    None => Err(ErrorView::InvalidIdType(id_value)),
                    Some(season) => match parse_unsigned(se.skip(e + 1), u32::MAX as nat) {
                        None => Err(ErrorView::InvalidIdType(id_value)),
                        Some(episode) => if season > 10_000 || episode > 100_000 {
                            Err(episode_range_error())
                        } else {
                            Ok((rest.take(pos), season as u32, episode as u32))
                        },
                    },
                },
            }
        },
    }
}

fn episode_shape_err(id_value: &str) -> (e: AppError)
    ensures
        e@ == episode_shape_error(id_value@),
{
    let mut m = String::from_str("episode id must be episode-{id}-S{season}E{episode}: ");
    m.append(id_value);
    AppError::InvalidIdType(m)
}

/// Parses `{external id}-S{season}E{episode}` for IMDb/TVDB episode lookups. The
/// id part is returned as text because IMDb ids such as `tt1234567` are not
/// numeric. Season must be at most 10 000 and episode at most 100 000.
pub fn parse_episode_external<'a>(rest: &'a str, id_value: &str) -> (r: Result<(&'a str, u32, u32), AppError>)
    ensures
        match episode_external(rest@, id_value@) {
            Ok((id, season, episode)) => r matches Ok((rid, rs, re)) && rid@ == id && rs == season
                && re == episode,
            Err(ev) => r matches Err(e) && e@ == ev,
        },
{
    let upper = to_ascii_uppercase(rest);
    let n = upper.as_str().unicode_len();
    proof {
        reveal_strlit("-S");
        reveal_strlit("E");
    }
    let pos = match find_str(upper.as_str(), "-S") {
        Some(p) => p,
        None => return Err(episode_shape_err(id_value)),
    };
    proof {
        lemma_find(upper@, "-S"@);
    }
    if pos == 0 {
        return Err(episode_shape_err(id_value));
    }
    let external_id = rest.substring_char(0, pos);
    let se = upper.as_str().substring_char(pos + 2, n);
    assert(se@ =~= upper@.skip(pos + 2));
    let e = match find_str(se, "E") {
        Some(e) => e,
        None => return Err(episode_shape_err(id_value)),
    };
    proof {
        lemma_find(se@, "E"@);
    }
    let season_str = se.substring_char(0, e);
    let episode_str = se.substring_char(e + 1, se.unicode_len());
    assert(season_str@ =~= se@.take(e as int));
    assert(episode_str@ =~= se@.skip(e + 1));
    let season = match parse_unsigned_max(season_str, 4294967295u64) {
        Some(v) => v as u32,
        None => return Err(AppError::InvalidIdType(id_value.to_owned())),
    };
    let episode = match parse_unsigned_max(episode_str, 4294967295u64) {
        Some(v) => v as u32,
        None => return Err(AppError::InvalidIdType(id_value.to_owned())),
    };
    if season > 10_000 || episode > 100_000 {
        return Err(AppError::BadRequest(String::from_str("season must be ≤ 10 000 and episode must be ≤ 100 000")));
    }
    Ok((external_id, season, episode))
}

/// Parsing `{show id}-S{season}E{episode}` where the show id is a TMDB number.
pub open spec fn episode_id(rest: Seq<char>, id_value: Seq<char>) -> Result<(u64, u32, u32), ErrorView> {
    match episode_external(rest, id_value) {
        Err(e) => Err(e),
        Ok((id, season, episode)) => match parse_unsigned(id, u64::MAX as nat) {
            None => Err(ErrorView::InvalidIdType(id_value)),
            Some(show) => Ok((show as u64, season, episode)),
        },
    }
}

/// Parses the `{show_id}-S{season}E{episode}` portion of a TMDB episode id.
pub fn parse_episode_id(rest: &str, id_value: &str) -> (r: Result<(u64, u32, u32), AppError>)
    ensures
        match episode_id(rest@, id_value@) {
            Ok(v) => r matches Ok(rv) && rv == v,
            Err(ev) => r matches Err(e) && e@ == ev,
        },
{
    let (id_str, season, episode) = match parse_episode_external(rest, id_value) {
        Ok(v) => v,
        Err(e) => return Err(e),
    };
    match parse_unsigned_max(id_str, 18446744073709551615u64) {
        Some(show) => Ok((show, season, episode)),
        None => Err(AppError::InvalidIdType(id_value.to_owned())),
    }
}


/// What a TMDB id value designates.
#[derive(Debug, Clone, Copy, PartialEq, Eq, Structural)]
pub enum TmdbTarget {
    Movie(u64),
    Tv(u64),
    Episode { show_tmdb_id: u64, season: u32, episode: u32 },
}

/// The error for a TMDB id value with none of the accepted prefixes.
pub open spec fn tmdb_prefix_error(id_value: Seq<char>) -> ErrorView {
    ErrorView::InvalidIdType("tmdb id must be prefixed with movie-, series-, or episode-: "@ + id_value)
}

/// Reading a TMDB id value: `episode-{show}-S{season}E{episode}`, `movie-{id}` or
/// `series-{id}`.
pub open spec fn tmdb_target(id_value: Seq<char>) -> Result<TmdbTarget, ErrorView> {
    if has_prefix(id_value, "episode-"@) {
        match episode_id(id_value.skip(8), id_value) {
            Ok((show, season, episode)) => Ok(
                TmdbTarget::Episode { show_tmdb_id: show, season: season, episode: episode },
            ),
            Err(e) => Err(e),
        }
    } else if has_prefix(id_value, "movie-"@) {
        match parse_unsigned(id_value.skip(6), u64::MAX as nat) {
            Some(v) => Ok(TmdbTarget::Movie(v as u64)),
            None => Err(ErrorView::InvalidIdType(id_value)),
        }
    } else if has_prefix(id_value, "series-"@) {
        match parse_unsigned(id_value.skip(7), u64::MAX as nat) {
            Some(v) => Ok(TmdbTarget::Tv(v as u64)),
            None => Err(ErrorView::InvalidIdType(id_value)),
        }
    } else {
        Err(tmdb_prefix_error(id_value))
    }
}

/// Reads a TMDB id value into the title it designates.
pub fn parse_tmdb_id_value(id_value: &str) -> (r: Result<TmdbTarget, AppError>)
    ensures
        match tmdb_target(id_value@) {
            Ok(t) => r == Ok::<TmdbTarget, AppError>(t),
            Err(ev) => r matches Err(e) && e@ == ev,
        },
{
    proof {
        reveal_strlit("episode-");
        reveal_strlit("movie-");
        reveal_strlit("series-");
    }
    if let Some(rest) = strip_prefix(id_value, "episode-") {
        match parse_episode_id(rest, id_value) {
            Ok((show, season, episode)) => Ok(
                TmdbTarget::Episode { show_tmdb_id: show, season: season, episode: episode },
            ),
            Err(e) => Err(e),
        }
    } else if let Some(rest) = strip_prefix(id_value, "movie-") {
        match parse_unsigned_max(rest, 18446744073709551615u64) {
            Some(v) => Ok(TmdbTarget::Movie(v)),
            None => Err(AppError::InvalidIdType(id_value.to_owned())),
        }
    } else if let Some(rest) = strip_prefix(id_value, "series-") {
        match parse_unsigned_max(rest, 18446744073709551615u64) {
            Some(v) => Ok(TmdbTarget::Tv(v)),
            None => Err(AppError::InvalidIdType(id_value.to_owned())),
        }
    } else {
        let mut m = String::from_str("tmdb id must be prefixed with movie-, series-, or episode-: ");
        m.append(id_value);
        Err(AppError::InvalidIdType(m))
    }
}


proof fn lemma_marker_after_digits(s: Seq<char>, dl: int, marker: Seq<char>)
    requires
        0 < dl,
        dl + marker.len() <= s.len(),
        forall|i: int| 0 <= i < dl ==> is_digit(#[trigger] s[i]),
        forall|i: int| 0 <= i < marker.len() ==> #[trigger] s[dl + i] == marker[i],
        marker.len() > 0,
        !is_digit(marker[0]),
    ensures
        find(s, marker) == Some(dl),
{
    let ml = marker.len() as int;
    assert(s.subrange(dl, dl + ml) =~= marker) by {
        assert forall|i: int| 0 <= i < ml implies #[trigger] s.subrange(dl, dl + ml)[i] == marker[i] by {
            assert(s[dl + i] == marker[i]);
        }
    }
    lemma_find_some(s, marker, dl);
    let k = find(s, marker)->0;
    assert(occurs_at(s, marker, k)) by {
        lemma_find(s, marker);
    }
    if k < dl {
        assert(s.subrange(k, k + ml)[0] == s[k]);
        assert(is_digit(s[k]));
    }
}

proof fn lemma_no_dash_before(d: Seq<char>, rest: Seq<char>, marker: Seq<char>)
    requires
        d.len() > 0,
        forall|i: int| 0 <= i < d.len() ==> is_digit(#[trigger] d[i]),
        marker.len() > 0,
        !is_digit(marker[0]),
    ensures
        find(d + marker + rest, marker) == Some(d.len() as int),
{
    let s = d + marker + rest;
    let dl = d.len() as int;
    assert forall|i: int| 0 <= i < dl implies is_digit(#[trigger] s[i]) by {
        assert(s[i] == d[i]);
    }
    assert forall|i: int| 0 <= i < marker.len() implies #[trigger] s[dl + i] == marker[i] by {}
    lemma_marker_after_digits(s, dl, marker);
}

proof fn lemma_upper_unchanged(s: Seq<char>)
    requires
        forall|i: int| 0 <= i < s.len() ==> !('a' <= #[trigger] s[i] && s[i] <= 'z'),
    ensures
        ascii_upper(s) == s,
{
    assert(ascii_upper(s) =~= s);
}

proof fn lemma_episode_rest_parses(show: u64, season: u32, episode: u32, id_value: Seq<char>)
    requires
        season <= 10_000,
        episode <= 100_000,
    ensures
        episode_id(
            decimal(show as nat) + "-S"@ + decimal(season as nat) + "E"@ + decimal(episode as nat),
            id_value,
        ) == Ok::<(u64, u32, u32), ErrorView>((show, season, episode)),
{
    reveal_strlit("-S");
    reveal_strlit("E");
    let ds = decimal(show as nat);
    let dse = decimal(season as nat);
    let dep = decimal(episode as nat);
    lemma_decimal_digits(show as nat);
    lemma_decimal_digits(season as nat);
    lemma_decimal_digits(episode as nat);
    let tail = dse + "E"@ + dep;
    let rest = ds + "-S"@ + tail;
    assert(rest =~= ds + "-S"@ + dse + "E"@ + dep);
    assert forall|i: int| 0 <= i < rest.len() implies !('a' <= #[trigger] rest[i] && rest[i] <= 'z') by {
        if i < ds.len() {
            assert(rest[i] == ds[i]);
        } else if i < ds.len() + 2 {
        } else if i < ds.len() + 2 + dse.len() {
            assert(rest[i] == dse[i - ds.len() - 2]);
        } else if i == ds.len() + 2 + dse.len() {
        } else {
            assert(rest[i] == dep[i - ds.len() - 3 - dse.len()]);
        }
    }
    lemma_upper_unchanged(rest);
    lemma_no_dash_before(ds, tail, "-S"@);
    let se = rest.skip(ds.len() as int + 2);
    assert(se =~= tail);
    lemma_no_dash_before(dse, dep, "E"@);
    assert(se.take(dse.len() as int) =~= dse);
    assert(se.skip(dse.len() as int + 1) =~= dep);
    lemma_parse_decimal(season as nat, u32::MAX as nat);
    lemma_parse_decimal(episode as nat, u32::MAX as nat);
    assert(rest.take(ds.len() as int) =~= ds);
    lemma_parse_decimal(show as nat, u64::MAX as nat);
}

/// Every TMDB id value produced by [`format_tmdb_id_value`] reads back as the
/// title it was made from (for episodes, within the accepted season and episode
/// ranges).
pub proof fn lemma_tmdb_id_value_roundtrip(tmdb_id: u64, media_type: MediaType, episode: Option<EpisodeInfo>)
    requires
        episode matches Some(ep) ==> ep.season_number <= 10_000 && ep.episode_number <= 100_000,
    ensures
        tmdb_target(tmdb_id_value(tmdb_id, media_type, episode)) == Ok::<TmdbTarget, ErrorView>(
            match media_type {
                MediaType::Movie => TmdbTarget::Movie(tmdb_id),
                MediaType::Tv => TmdbTarget::Tv(tmdb_id),
                MediaType::Episode => match episode {
                    Some(ep) => TmdbTarget::Episode {
                        show_tmdb_id: ep.show_tmdb_id,
                        season: ep.season_number,
                        episode: ep.episode_number,
                    },
                    None => TmdbTarget::Tv(tmdb_id),
                },
            },
        ),
{
    reveal_strlit("episode-");
    reveal_strlit("movie-");
    reveal_strlit("series-");
    let v = tmdb_id_value(tmdb_id, media_type, episode);
    let is_episode = media_type == MediaType::Episode && episode is Some;
    if !is_episode {
        let (prefix, n): (Seq<char>, int) = if media_type == MediaType::Movie {
            ("movie-"@, 6)
        } else {
            ("series-"@, 7)
        };
        assert(v == prefix + decimal(tmdb_id as nat));
        assert(v.take(prefix.len() as int) =~= prefix);
        assert(v.skip(n) =~= decimal(tmdb_id as nat));
        lemma_parse_decimal(tmdb_id as nat, u64::MAX as nat);
        assert(!has_prefix(v, "episode-"@)) by {
            assert(v[0] != "episode-"@[0]);
        }
        if media_type != MediaType::Movie {
            assert(!has_prefix(v, "movie-"@)) by {
                assert(v[0] != "movie-"@[0]);
            }
        }
    } else {
        let ep = episode.unwrap();
        let rest = decimal(ep.show_tmdb_id as nat) + "-S"@ + decimal(ep.season_number as nat) + "E"@
            + decimal(ep.episode_number as nat);
        assert(v =~= "episode-"@ + rest);
        assert(v.take(8) =~= "episode-"@);
        assert(v.skip(8) =~= rest);
        lemma_episode_rest_parses(ep.show_tmdb_id, ep.season_number, ep.episode_number, v);
    }
}

} // verus!
