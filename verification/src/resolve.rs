//! Resolving an identifier against TMDB. Each TMDB request is made by the
//! caller; the functions here decide what to ask for first, which answer to
//! pick, and the resolved title built from the answers.

use crate::error::{AppError, ErrorView};
use crate::id::{episode_external, tmdb_target, EpisodeInfo, IdType, MediaType, ResolvedId, TmdbTarget, parse_episode_external, parse_tmdb_id_value};
use crate::text::{decimal, has_prefix, push_decimal, strip_prefix};
use vstd::prelude::*;
use vstd::string::*;

verus! {

/// The external id kinds TMDB's `/find` endpoint accepts.
#[derive(Debug, Clone, Copy, PartialEq, Eq, Structural)]
pub enum ExternalSource {
    Imdb,
    Tvdb,
}

/// The `external_source` query value of a source.
pub open spec fn external_source_name(s: ExternalSource) -> Seq<char> {
    match s {
        ExternalSource::Imdb => "imdb_id"@,
        ExternalSource::Tvdb => "tvdb_id"@,
    }
}

impl ExternalSource {
    /// The `external_source` query value.
    pub fn as_str(&self) -> (r: &'static str)
        ensures
            r@ == external_source_name(*self),
    {
        match self {
            ExternalSource::Imdb => "imdb_id",
            ExternalSource::Tvdb => "tvdb_id",
        }
    }
}

/// The first request needed to resolve an identifier.
#[derive(Debug)]
pub enum ResolvePlan {
    /// Look the id up with `/find/{external_id}`.
    Find { source: ExternalSource, external_id: String },
    /// Look the series up with `/find/{series_id}`, then fetch the episode.
    FindSeries { source: ExternalSource, series_id: String, season: u32, episode: u32 },
    /// Fetch the details of a TMDB movie or series.
    Details { media_type: MediaType, tmdb_id: u64 },
    /// Fetch the details of a TMDB episode.
    Episode { show_tmdb_id: u64, season: u32, episode: u32 },
}

/// What the first request is for an external (IMDb or TVDB) identifier:
/// `episode-{series}-S{s}E{e}` finds the series, anything else is looked up
/// as is.
pub open spec fn external_plan_ok(source: ExternalSource, id_value: Seq<char>, plan: ResolvePlan) -> bool {
    if has_prefix(id_value, "episode-"@) {
        match episode_external(id_value.skip(8), id_value) {
            Ok((series, season, episode)) => plan matches ResolvePlan::FindSeries {
                source: s,
                series_id,
                season: ps,
                episode: pe,
            } && s == source && series_id@ == series && ps == season && pe == episode,
            Err(_) => false,
        }
    } else {
        plan matches ResolvePlan::Find { source: s, external_id } && s == source && external_id@ == id_value
    }
}

/// The error an external identifier's plan fails with, if any.
pub open spec fn external_plan_error(id_value: Seq<char>) -> Option<ErrorView> {
    if has_prefix(id_value, "episode-"@) {
        match episode_external(id_value.skip(8), id_value) {
            Ok(_) => None,
            Err(e) => Some(e),
        }
    } else {
        None
    }
}

fn external_plan(source: ExternalSource, id_value: &str) -> (r: Result<ResolvePlan, AppError>)
    ensures
        match external_plan_error(id_value@) {
            Some(ev) => r matches Err(e) && e@ == ev,
            None => r matches Ok(p) && external_plan_ok(source, id_value@, p),
        },
{
    proof {
        reveal_strlit("episode-");
    }
    if let Some(rest) = strip_prefix(id_value, "episode-") {
        match parse_episode_external(rest, id_value) {
            Ok((series, season, episode)) => Ok(
                ResolvePlan::FindSeries { source, series_id: series.to_owned(), season, episode },
            ),
            Err(e) => Err(e),
        }
    } else {
        Ok(ResolvePlan::Find { source, external_id: id_value.to_owned() })
    }
}

/// Decides the first TMDB request for an identifier of the given type. IMDb
/// and TVDB ids (or their `episode-{series}-S{s}E{e}` form) are looked up
/// with `/find`; TMDB ids name the title directly (`movie-{id}`,
/// `series-{id}`, `episode-{show}-S{s}E{e}`).
pub fn resolve_plan(id_type: IdType, id_value: &str) -> (r: Result<ResolvePlan, AppError>)
    ensures
        id_type == IdType::Imdb ==> match external_plan_error(id_value@) {
            Some(ev) => r matches Err(e) && e@ == ev,
            None => r matches Ok(p) && external_plan_ok(ExternalSource::Imdb, id_value@, p),
        },
        id_type == IdType::Tvdb ==> match external_plan_error(id_value@) {
            Some(ev) => r matches Err(e) && e@ == ev,
            None => r matches Ok(p) && external_plan_ok(ExternalSource::Tvdb, id_value@, p),
        },
        id_type == IdType::Tmdb ==> match tmdb_target(id_value@) {
            Ok(TmdbTarget::Movie(id)) => r matches Ok(ResolvePlan::Details { media_type: MediaType::Movie, tmdb_id })
                && tmdb_id == id,
            Ok(TmdbTarget::Tv(id)) => r matches Ok(ResolvePlan::Details { media_type: MediaType::Tv, tmdb_id })
                && tmdb_id == id,
            Ok(TmdbTarget::Episode { show_tmdb_id, season, episode }) => r matches Ok(
                ResolvePlan::Episode { show_tmdb_id: s, season: ps, episode: pe },
            ) && s == show_tmdb_id && ps == season && pe == episode,
            Err(ev) => r matches Err(e) && e@ == ev,
        },
{
    match id_type {
        IdType::Imdb => external_plan(ExternalSource::Imdb, id_value),
        IdType::Tvdb => external_plan(ExternalSource::Tvdb, id_value),
        IdType::Tmdb => match parse_tmdb_id_value(id_value) {
            Ok(TmdbTarget::Movie(id)) => Ok(ResolvePlan::Details { media_type: MediaType::Movie, tmdb_id: id }),
            Ok(TmdbTarget::Tv(id)) => Ok(ResolvePlan::Details { media_type: MediaType::Tv, tmdb_id: id }),
            Ok(TmdbTarget::Episode { show_tmdb_id, season, episode }) => Ok(
                ResolvePlan::Episode { show_tmdb_id, season, episode },
            ),
            Err(e) => Err(e),
        },
    }
}

/// The path of a `/find` request for an external id.
pub fn find_path(external_id: &str) -> (p: String)
    ensures
        p@ == "/find/"@ + external_id@,
{
    let mut p = String::from_str("/find/");
    p.append(external_id);
    p
}

/// The details path of a TMDB title: movies as `/movie/{id}`, series as
/// `/tv/{id}?append_to_response=external_ids` (so the IMDb and TVDB ids come
/// along). An episode has no such path.
pub open spec fn title_details_path_spec(media_type: MediaType, tmdb_id: u64) -> Option<Seq<char>> {
    match media_type {
        MediaType::Movie => Some("/movie/"@ + decimal(tmdb_id as nat)),
        MediaType::Tv => Some("/tv/"@ + decimal(tmdb_id as nat) + "?append_to_response=external_ids"@),
        MediaType::Episode => None,
    }
}

/// The error for a title request made with the episode media type.
pub open spec fn unexpected_episode_error() -> ErrorView {
    ErrorView::Other("unexpected Episode media type in resolve_tmdb"@)
}

/// Builds the details path of a TMDB movie or series.
pub fn title_details_path(media_type: MediaType, tmdb_id: u64) -> (r: Result<String, AppError>)
    ensures
        match title_details_path_spec(media_type, tmdb_id) {
            Some(p) => r matches Ok(rp) && rp@ == p,
            None => r matches Err(e) && e@ == unexpected_episode_error(),
        },
{
    match media_type {
        MediaType::Movie => {
            let mut p = String::from_str("/movie/");
            push_decimal(&mut p, tmdb_id);
            Ok(p)
        },
        MediaType::Tv => {
            let mut p = String::from_str("/tv/");
            push_decimal(&mut p, tmdb_id);
            p.append("?append_to_response=external_ids");
            Ok(p)
        },
        MediaType::Episode => Err(AppError::Other(String::from_str("unexpected Episode media type in resolve_tmdb"))),
    }
}

/// The path of a TMDB series' plain details.
pub fn show_path(show_tmdb_id: u64) -> (p: String)
    ensures
        p@ == "/tv/"@ + decimal(show_tmdb_id as nat),
{
    let mut p = String::from_str("/tv/");
    push_decimal(&mut p, show_tmdb_id);
    p
}

/// The path of a TMDB episode's details.
pub fn episode_path(show_tmdb_id: u64, season: u32, episode: u32) -> (p: String)
    ensures
        p@ == "/tv/"@ + decimal(show_tmdb_id as nat) + "/season/"@ + decimal(season as nat) + "/episode/"@
            + decimal(episode as nat),
{
    let mut p = String::from_str("/tv/");
    push_decimal(&mut p, show_tmdb_id);
    p.append("/season/");
    push_decimal(&mut p, season as u64);
    p.append("/episode/");
    push_decimal(&mut p, episode as u64);
    p
}

/// A movie or series entry of a `/find` answer. Entries are compared by
/// `popularity_key`, which orders as TMDB's popularity numbers do.
#[derive(Debug)]
pub struct FindEntry {
    pub id: u64,
    pub poster_path: Option<String>,
    pub release_date: Option<String>,
    pub first_air_date: Option<String>,
    pub popularity_key: u64,
}

/// An episode entry of a `/find` answer.
#[derive(Debug)]
pub struct EpisodeFindEntry {
    pub show_id: u64,
    pub season_number: u32,
    pub episode_number: u32,
    pub still_path: Option<String>,
}

/// A `/find` answer.
#[derive(Debug)]
pub struct FindResult {
    pub movie_results: Vec<FindEntry>,
    pub tv_results: Vec<FindEntry>,
    pub tv_episode_results: Vec<EpisodeFindEntry>,
}

/// Which entry of a `/find` answer designates the title.
#[derive(Debug, Clone, Copy, PartialEq, Eq, Structural)]
pub enum FindPick {
    Episode(usize),
    Movie(usize),
    Tv(usize),
    NotFound,
}

/// The index of the most popular entry; the last of equally popular ones.
pub open spec fn most_popular(entries: Seq<FindEntry>) -> Option<int>
    decreases entries.len(),
{
    if entries.len() == 0 {
        None
    } else {
        let last = entries.len() - 1;
        match most_popular(entries.drop_last()) {
            None => Some(last),
            Some(b) => if entries[last].popularity_key >= entries[b].popularity_key {
                Some(last)
            } else {
                Some(b)
            },
        }
    }
}

fn most_popular_index(entries: &Vec<FindEntry>) -> (r: Option<usize>)
    ensures
        r matches Some(b) ==> b < entries.len(),
        match most_popular(entries@) {
            Some(b) => r == Some(b as usize) && 0 <= b < entries.len(),
            None => r is None,
        },
{
    let mut best: Option<usize> = None;
    let mut i: usize = 0;
    while i < entries.len()
        invariant
            i <= entries.len(),
            match most_popular(entries@.take(i as int)) {
                Some(b) => best == Some(b as usize) && 0 <= b < i,
                None => best is None && i == 0,
            },
        decreases entries.len() - i,
    {
        assert(entries@.take(i + 1).drop_last() =~= entries@.take(i as int));
        match best {
            None => {
                best = Some(i);
            },
            Some(b) => {
                if entries[i].popularity_key >= entries[b].popularity_key {
                    best = Some(i);
                }
            },
        }
        i = i + 1;
    }
    assert(entries@.take(entries.len() as int) =~= entries@);
    best
}

/// The title an IMDb `/find` answer designates: an episode entry first (an
/// episode id is unambiguous), otherwise the more popular of the most
/// popular movie and the most popular series, a movie winning ties.
pub open spec fn imdb_pick_spec(find: FindResult) -> FindPick {
    if find.tv_episode_results.len() > 0 {
        FindPick::Episode(0)
    } else {
        match (most_popular(find.movie_results@), most_popular(find.tv_results@)) {
            (Some(m), Some(t)) => if find.movie_results@[m].popularity_key >= find.tv_results@[t].popularity_key {
                FindPick::Movie(m as usize)
            } else {
                FindPick::Tv(t as usize)
            },
            (Some(m), None) => FindPick::Movie(m as usize),
            (None, Some(t)) => FindPick::Tv(t as usize),
            (None, None) => FindPick::NotFound,
        }
    }
}

/// Picks the entry of an IMDb `/find` answer that designates the title.
pub fn pick_imdb_find(find: &FindResult) -> (p: FindPick)
    ensures
        p == imdb_pick_spec(*find),
{
    if find.tv_episode_results.len() > 0 {
        return FindPick::Episode(0);
    }
    let best_movie = most_popular_index(&find.movie_results);
    let best_tv = most_popular_index(&find.tv_results);
    match (best_movie, best_tv) {
        (Some(m), Some(t)) => if find.movie_results[m].popularity_key >= find.tv_results[t].popularity_key {
            FindPick::Movie(m)
        } else {
            FindPick::Tv(t)
        },
        (Some(m), None) => FindPick::Movie(m),
        (None, Some(t)) => FindPick::Tv(t),
        (None, None) => FindPick::NotFound,
    }
}

/// The title a TVDB `/find` answer designates: the first episode, else the
/// first series, else the first movie.
pub open spec fn tvdb_pick_spec(find: FindResult) -> FindPick {
    if find.tv_episode_results.len() > 0 {
        FindPick::Episode(0)
    } else if find.tv_results.len() > 0 {
        FindPick::Tv(0)
    } else if find.movie_results.len() > 0 {
        FindPick::Movie(0)
    } else {
        FindPick::NotFound
    }
}

/// Picks the entry of a TVDB `/find` answer that designates the title.
pub fn pick_tvdb_find(find: &FindResult) -> (p: FindPick)
    ensures
        p == tvdb_pick_spec(*find),
{
    if find.tv_episode_results.len() > 0 {
        FindPick::Episode(0)
    } else if find.tv_results.len() > 0 {
        FindPick::Tv(0)
    } else if find.movie_results.len() > 0 {
        FindPick::Movie(0)
    } else {
        FindPick::NotFound
    }
}

/// The error for an external id that `/find` knows nothing about.
pub open spec fn not_found_error(source: ExternalSource, id_value: Seq<char>) -> ErrorView {
    match source {
        ExternalSource::Imdb => ErrorView::IdNotFound(id_value + " (not found on TMDB)"@),
        ExternalSource::Tvdb => ErrorView::IdNotFound(id_value + " (not found on TMDB via TVDB lookup)"@),
    }
}

/// Builds the not-found error of an external id.
pub fn not_found(source: ExternalSource, id_value: &str) -> (e: AppError)
    ensures
        e@ == not_found_error(source, id_value@),
{
    let mut m = id_value.to_owned();
    match source {
        ExternalSource::Imdb => m.append(" (not found on TMDB)"),
        ExternalSource::Tvdb => m.append(" (not found on TMDB via TVDB lookup)"),
    }
    AppError::IdNotFound(m)
}

/// The error for an episode whose series `/find` does not know as a series.
pub open spec fn series_not_found_error(source: ExternalSource, series_id: Seq<char>) -> ErrorView {
    match source {
        ExternalSource::Imdb => ErrorView::IdNotFound(series_id + " (not found as a TV series on TMDB)"@),
        ExternalSource::Tvdb => ErrorView::IdNotFound(
            series_id + " (not found as a TV series on TMDB via TVDB lookup)"@,
        ),
    }
}

/// The TMDB id of the series a `/find` answer names (its first series
/// entry), for resolving one of its episodes.
pub fn series_from_find(find: &FindResult, source: ExternalSource, series_id: &str) -> (r: Result<u64, AppError>)
    ensures
        find.tv_results.len() > 0 ==> r == Ok::<u64, AppError>(find.tv_results[0].id),
        find.tv_results.len() == 0 ==> (r matches Err(e) && e@ == series_not_found_error(source, series_id@)),
{
    if find.tv_results.len() > 0 {
        Ok(find.tv_results[0].id)
    } else {
        let mut m = series_id.to_owned();
        match source {
            ExternalSource::Imdb => m.append(" (not found as a TV series on TMDB)"),
            ExternalSource::Tvdb => m.append(" (not found as a TV series on TMDB via TVDB lookup)"),
        }
        Err(AppError::IdNotFound(m))
    }
}

fn copy_opt(s: &Option<String>) -> (r: Option<String>)
    ensures
        r == *s,
{
    match s {
        Some(v) => Some(v.clone()),
        None => None,
    }
}

/// The title an IMDb id designates when `/find` lists it as a movie or a
/// series: its TMDB id, poster and first release or air date.
pub fn resolved_from_find(imdb_id: &str, entry: &FindEntry, is_movie: bool) -> (r: ResolvedId)
    ensures
        r.imdb_id matches Some(s) && s@ == imdb_id@,
        r.tmdb_id == entry.id,
        r.tvdb_id is None,
        r.media_type == (if is_movie {
            MediaType::Movie
        } else {
            MediaType::Tv
        }),
        r.poster_path == entry.poster_path,
        r.release_date == (if is_movie {
            entry.release_date
        } else {
            entry.first_air_date
        }),
        r.episode is None,
{
    ResolvedId {
        imdb_id: Some(imdb_id.to_owned()),
        tmdb_id: entry.id,
        tvdb_id: None,
        media_type: if is_movie {
            MediaType::Movie
        } else {
            MediaType::Tv
        },
        poster_path: copy_opt(&entry.poster_path),
        release_date: if is_movie {
            copy_opt(&entry.release_date)
        } else {
            copy_opt(&entry.first_air_date)
        },
        episode: None,
    }
}

/// The external ids TMDB appends to details answers.
#[derive(Debug)]
pub struct ExternalIds {
    pub imdb_id: Option<String>,
    pub tvdb_id: Option<u64>,
}

/// A TMDB movie or series details answer.
#[derive(Debug)]
pub struct TitleDetails {
    pub imdb_id: Option<String>,
    pub poster_path: Option<String>,
    pub release_date: Option<String>,
    pub first_air_date: Option<String>,
    pub external_ids: Option<ExternalIds>,
}

/// The IMDb id of a details answer: its own, else the appended one.
pub open spec fn details_imdb(d: TitleDetails) -> Option<String> {
    match d.imdb_id {
        Some(s) => Some(s),
        None => match d.external_ids {
            Some(e) => e.imdb_id,
            None => None,
        },
    }
}

/// The TVDB id appended to a details answer.
pub open spec fn details_tvdb(d: TitleDetails) -> Option<u64> {
    match d.external_ids {
        Some(e) => e.tvdb_id,
        None => None,
    }
}

/// The title a TMDB `movie-`/`series-` id designates, from its details.
pub fn resolved_from_details(media_type: MediaType, tmdb_id: u64, details: TitleDetails) -> (r: Result<ResolvedId, AppError>)
    ensures
        media_type == MediaType::Episode ==> (r matches Err(e) && e@ == unexpected_episode_error()),
        media_type != MediaType::Episode ==> (r matches Ok(v) && v.imdb_id == details_imdb(details)
            && v.tmdb_id == tmdb_id && v.tvdb_id == details_tvdb(details) && v.media_type == media_type
            && v.poster_path == details.poster_path && v.release_date == (if media_type == MediaType::Movie {
            details.release_date
        } else {
            details.first_air_date
        }) && v.episode is None),
{
    let tvdb_id = match &details.external_ids {
        Some(e) => e.tvdb_id,
        None => None,
    };
    let ext_imdb = match details.external_ids {
        Some(e) => e.imdb_id,
        None => None,
    };
    let imdb_id = match details.imdb_id {
        Some(s) => Some(s),
        None => ext_imdb,
    };
    let release_date = match media_type {
        MediaType::Movie => details.release_date,
        MediaType::Tv => details.first_air_date,
        MediaType::Episode => {
            return Err(AppError::Other(String::from_str("unexpected Episode media type in resolve_tmdb")));
        },
    };
    Ok(ResolvedId {
        imdb_id,
        tmdb_id,
        tvdb_id,
        media_type,
        poster_path: details.poster_path,
        release_date,
        episode: None,
    })
}

/// The title a TVDB id designates when `/find` lists it as a series
/// (`is_movie` false) or a movie: the TVDB id as a number when it is one,
/// the IMDb id, poster (falling back to the `/find` entry's) and date from
/// the details.
pub fn resolved_from_tvdb(tvdb_id: &str, entry: &FindEntry, is_movie: bool, details: TitleDetails) -> (r: ResolvedId)
    ensures
        r.imdb_id == (if is_movie {
            details.imdb_id
        } else {
            match details.external_ids {
                Some(e) => e.imdb_id,
                None => None,
            }
        }),
        r.tmdb_id == entry.id,
        r.tvdb_id == (match crate::text::parse_unsigned(tvdb_id@, u64::MAX as nat) {
            Some(v) => Some(v as u64),
            None => None::<u64>,
        }),
        r.media_type == (if is_movie {
            MediaType::Movie
        } else {
            MediaType::Tv
        }),
        r.poster_path == (if details.poster_path is Some {
            details.poster_path
        } else {
            entry.poster_path
        }),
        r.release_date == (if is_movie {
            details.release_date
        } else {
            details.first_air_date
        }),
        r.episode is None,
{
    let tvdb_num = crate::text::parse_unsigned_max(tvdb_id, 18446744073709551615u64);
    let poster_path = match details.poster_path {
        Some(p) => Some(p),
        None => copy_opt(&entry.poster_path),
    };
    let imdb_id = if is_movie {
        details.imdb_id
    } else {
        match details.external_ids {
            Some(e) => e.imdb_id,
            None => None,
        }
    };
    ResolvedId {
        imdb_id,
        tmdb_id: entry.id,
        tvdb_id: tvdb_num,
        media_type: if is_movie {
            MediaType::Movie
        } else {
            MediaType::Tv
        },
        poster_path,
        release_date: if is_movie {
            details.release_date
        } else {
            details.first_air_date
        },
        episode: None,
    }
}

/// A TMDB episode details answer.
#[derive(Debug)]
pub struct EpisodeDetails {
    pub still_path: Option<String>,
    pub air_date: Option<String>,
    pub external_ids: Option<ExternalIds>,
}

/// The still of an episode: the one already known from `/find`, else the
/// one in its details.
pub open spec fn episode_still(hint_still: Option<String>, details: EpisodeDetails) -> Option<String> {
    match hint_still {
        Some(s) => Some(s),
        None => details.still_path,
    }
}

/// Whether an episode has no still, so that its series poster is needed.
pub fn needs_series_poster(hint_still: &Option<String>, details: &EpisodeDetails) -> (r: bool)
    ensures
        r == (episode_still(*hint_still, *details) is None),
{
    hint_still.is_none() && details.still_path.is_none()
}

/// The resolved episode: its series' TMDB id, the IMDb id (known from
/// `/find`, else appended to the details), the TVDB id, the still as poster
/// (the series poster when there is no still) and the air date.
pub fn resolved_episode(
    show_tmdb_id: u64,
    season: u32,
    episode: u32,
    hint_still: Option<String>,
    hint_imdb: Option<String>,
    details: EpisodeDetails,
    series_poster: Option<String>,
) -> (r: ResolvedId)
    ensures
        r.imdb_id == (match hint_imdb {
            Some(s) => Some(s),
            None => match details.external_ids {
                Some(e) => e.imdb_id,
                None => None,
            },
        }),
        r.tmdb_id == show_tmdb_id,
        r.tvdb_id == (match details.external_ids {
            Some(e) => e.tvdb_id,
            None => None,
        }),
        r.media_type == MediaType::Episode,
        r.poster_path == (if episode_still(hint_still, details) is Some {
            episode_still(hint_still, details)
        } else {
            series_poster
        }),
        r.release_date == details.air_date,
        r.episode matches Some(ep) && ep.show_tmdb_id == show_tmdb_id && ep.season_number == season
            && ep.episode_number == episode && ep.still_path == episode_still(hint_still, details),
{
    let tvdb_id = match &details.external_ids {
        Some(e) => e.tvdb_id,
        None => None,
    };
    let imdb_id = match hint_imdb {
        Some(s) => Some(s),
        None => match details.external_ids {
            Some(e) => e.imdb_id,
            None => None,
        },
    };
    let still = match hint_still {
        Some(s) => Some(s),
        None => details.still_path,
    };
    let poster_path = if still.is_some() {
        copy_opt(&still)
    } else {
        series_poster
    };
    ResolvedId {
        imdb_id,
        tmdb_id: show_tmdb_id,
        tvdb_id,
        media_type: MediaType::Episode,
        poster_path,
        release_date: details.air_date,
        episode: Some(EpisodeInfo { show_tmdb_id, season_number: season, episode_number: episode, still_path: still }),
    }
}

/// The most popular entry is at least as popular as every entry, and more
/// popular than every entry after it (ties go to the last one).
pub proof fn lemma_most_popular_is_max(entries: Seq<FindEntry>)
    ensures
        entries.len() == 0 <==> most_popular(entries) is None,
        most_popular(entries) matches Some(b) ==> 0 <= b < entries.len() && (forall|j: int|
            0 <= j < entries.len() ==> #[trigger] entries[j].popularity_key <= entries[b].popularity_key) && (forall|j: int|
            b < j < entries.len() ==> #[trigger] entries[j].popularity_key < entries[b].popularity_key),
    decreases entries.len(),
{
    if entries.len() > 0 {
        let prefix = entries.drop_last();
        let last = entries.len() - 1;
        lemma_most_popular_is_max(prefix);
        match most_popular(prefix) {
            None => {
                assert(last == 0);
            },
            Some(p) => {
                assert(prefix[p] == entries[p]);
                if entries[last].popularity_key >= entries[p].popularity_key {
                    assert forall|j: int| 0 <= j < entries.len() implies #[trigger] entries[j].popularity_key
                        <= entries[last].popularity_key by {
                        if j < last {
                            assert(prefix[j] == entries[j]);
                        }
                    }
                } else {
                    assert forall|j: int| 0 <= j < entries.len() implies #[trigger] entries[j].popularity_key
                        <= entries[p].popularity_key by {
                        if j < last {
                            assert(prefix[j] == entries[j]);
                        }
                    }
                    assert forall|j: int| p < j < entries.len() implies #[trigger] entries[j].popularity_key
                        < entries[p].popularity_key by {
                        if j < last {
                            assert(prefix[j] == entries[j]);
                        }
                    }
                }
            },
        }
    }
}

} // verus!
