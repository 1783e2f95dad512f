//! What the service reads from the ratings providers (TMDB, OMDb, MDBList):
//! request paths, the mapping of provider rating names to rating sources, and
//! the badges built from an OMDb answer.

use crate::error::{AppError, ErrorView};
use crate::id::{MediaType, ResolvedId};
use crate::ratings::{badge_view, badge_views, RatingBadge, RatingSource};
use crate::text::{decimal, has_prefix, lemma_parse_decimal, parse_unsigned, push_decimal, str_eq};
use vstd::prelude::*;
use vstd::string::*;

verus! {

/// The ids MDBList reports for a title.
#[derive(Debug, Default, Clone)]
pub struct MdblistIds {
    pub imdb: Option<String>,
    pub tmdb: Option<u64>,
    pub tvdb: Option<u64>,
}

/// The path segment MDBList uses for a media type; MDBList has no episode ratings.
pub open spec fn mdblist_kind_spec(media_type: MediaType) -> Result<Seq<char>, ErrorView> {
    match media_type {
        MediaType::Movie => Ok("movie"@),
        MediaType::Tv => Ok("show"@),
        MediaType::Episode => Err(ErrorView::Other("mdblist does not support episode ratings"@)),
    }
}

/// The MDBList path segment for a media type.
pub fn mdblist_kind(media_type: &MediaType) -> (r: Result<&'static str, AppError>)
    ensures
        match mdblist_kind_spec(*media_type) {
            Ok(k) => r matches Ok(rk) && rk@ == k,
            Err(ev) => r matches Err(e) && e@ == ev,
        },
{
    match media_type {
        MediaType::Movie => Ok("movie"),
        MediaType::Tv => Ok("show"),
        MediaType::Episode => Err(AppError::Other(String::from_str("mdblist does not support episode ratings"))),
    }
}

/// Which number of an MDBList rating entry a badge shows.
#[derive(Debug, Clone, Copy, PartialEq, Eq, Structural)]
pub enum MdblistField {
    /// The provider's own value (e.g. `8.1` on IMDb).
    Value,
    /// MDBList's 0–100 score.
    Score,
}

/// The rating source an MDBList rating entry stands for, and the number it is
/// drawn from.
pub open spec fn mdblist_entry_spec(source: Seq<char>) -> Option<(RatingSource, MdblistField)> {
    if source == "imdb"@ {
        Some((RatingSource::Imdb, MdblistField::Value))
    } else if source == "trakt"@ {
        Some((RatingSource::Trakt, MdblistField::Score))
    } else if source == "letterboxd"@ {
        Some((RatingSource::Letterboxd, MdblistField::Value))
    } else if source == "popcorn"@ {
        Some((RatingSource::RtAudience, MdblistField::Score))
    } else if source == "tomatoes"@ {
        Some((RatingSource::Rt, MdblistField::Score))
    } else if source == "metacritic"@ {
        Some((RatingSource::Metacritic, MdblistField::Score))
    } else if source == "myanimelist"@ {
        Some((RatingSource::Mal, MdblistField::Score))
    } else {
        None
    }
}

/// Maps an MDBList rating entry name to the rating source it stands for.
pub fn mdblist_entry(source: &str) -> (r: Option<(RatingSource, MdblistField)>)
    ensures
        r == mdblist_entry_spec(source@),
{
    if str_eq(source, "imdb") {
        Some((RatingSource::Imdb, MdblistField::Value))
    } else if str_eq(source, "trakt") {
        Some((RatingSource::Trakt, MdblistField::Score))
    } else if str_eq(source, "letterboxd") {
        Some((RatingSource::Letterboxd, MdblistField::Value))
    } else if str_eq(source, "popcorn") {
        Some((RatingSource::RtAudience, MdblistField::Score))
    } else if str_eq(source, "tomatoes") {
        Some((RatingSource::Rt, MdblistField::Score))
    } else if str_eq(source, "metacritic") {
        Some((RatingSource::Metacritic, MdblistField::Score))
    } else if str_eq(source, "myanimelist") {
        Some((RatingSource::Mal, MdblistField::Score))
    } else {
        None
    }
}

/// The TMDB details path holding a title's vote average: `/movie/{id}`,
/// `/tv/{id}` or `/tv/{show}/season/{s}/episode/{e}`; none for an episode
/// without episode details.
pub open spec fn tmdb_details_path_spec(resolved: ResolvedId) -> Option<Seq<char>> {
    match resolved.media_type {
        MediaType::Movie => Some("/movie/"@ + decimal(resolved.tmdb_id as nat)),
        MediaType::Tv => Some("/tv/"@ + decimal(resolved.tmdb_id as nat)),
        MediaType::Episode => match resolved.episode {
            Some(ep) => Some(
                "/tv/"@ + decimal(ep.show_tmdb_id as nat) + "/season/"@ + decimal(
                    ep.season_number as nat,
                ) + "/episode/"@ + decimal(ep.episode_number as nat),
            ),
            None => None,
        },
    }
}

/// Builds the TMDB details path of a resolved title.
pub fn tmdb_details_path(resolved: &ResolvedId) -> (r: Option<String>)
    ensures
        match tmdb_details_path_spec(*resolved) {
            Some(p) => r matches Some(rp) && rp@ == p,
            None => r is None,
        },
{
    match resolved.media_type {
        MediaType::Movie => {
            let mut s = String::from_str("/movie/");
            push_decimal(&mut s, resolved.tmdb_id);
            Some(s)
        },
        MediaType::Tv => {
            let mut s = String::from_str("/tv/");
            push_decimal(&mut s, resolved.tmdb_id);
            Some(s)
        },
        MediaType::Episode => match &resolved.episode {
            Some(ep) => {
                let mut s = String::from_str("/tv/");
                push_decimal(&mut s, ep.show_tmdb_id);
                s.append("/season/");
                push_decimal(&mut s, ep.season_number as u64);
                s.append("/episode/");
                push_decimal(&mut s, ep.episode_number as u64);
                Some(s)
            },
            None => None,
        },
    }
}

/// One entry of OMDb's `Ratings` array.
#[derive(Debug, Clone)]
pub struct OmdbRating {
    pub source: String,
    pub value: String,
}

/// The parts of an OMDb answer that ratings are read from.
#[derive(Debug, Clone)]
pub struct OmdbRatings {
    pub imdb_rating: Option<String>,
    pub ratings: Vec<OmdbRating>,
    pub metascore: Option<String>,
}

/// A rating text that is present and not OMDb's `N/A` placeholder.
pub open spec fn omdb_value(v: Option<String>) -> Option<Seq<char>> {
    match v {
        Some(s) => if s@ != "N/A"@ {
            Some(s@)
        } else {
            None
        },
        None => None,
    }
}

/// The Rotten Tomatoes badges of OMDb's `Ratings` array, in order.
pub open spec fn omdb_rt_badges(rs: Seq<OmdbRating>) -> Seq<(RatingSource, Seq<char>)>
    decreases rs.len(),
{
    if rs.len() == 0 {
        Seq::empty()
    } else {
        let rest = omdb_rt_badges(rs.drop_last());
        let r = rs.last();
        if r.source@ == "Rotten Tomatoes"@ && r.value@ != "N/A"@ {
            rest.push((RatingSource::Rt, r.value@))
        } else {
            rest
        }
    }
}

/// The badges built from an OMDb answer: IMDb, then every Rotten Tomatoes
/// entry, then Metacritic, skipping `N/A` values.
pub open spec fn omdb_badges_spec(resp: OmdbRatings) -> Seq<(RatingSource, Seq<char>)> {
    let imdb: Seq<(RatingSource, Seq<char>)> = match omdb_value(resp.imdb_rating) {
        Some(v) => seq![(RatingSource::Imdb, v)],
        None => Seq::empty(),
    };
    let mc: Seq<(RatingSource, Seq<char>)> = match omdb_value(resp.metascore) {
        Some(v) => seq![(RatingSource::Metacritic, v)],
        None => Seq::empty(),
    };
    imdb + omdb_rt_badges(resp.ratings@) + mc
}

/// Builds the rating badges of an OMDb answer.
pub fn omdb_badges(resp: &OmdbRatings) -> (r: Vec<RatingBadge>)
    ensures
        badge_views(r@) == omdb_badges_spec(*resp),
{
    let mut badges: Vec<RatingBadge> = Vec::new();
    match &resp.imdb_rating {
        Some(rating) => {
            if !str_eq(rating.as_str(), "N/A") {
                badges.push(RatingBadge { source: RatingSource::Imdb, value: rating.clone() });
            }
        },
        None => {},
    }
    let ghost first = badge_views(badges@);
    let n = resp.ratings.len();
    let mut i: usize = 0;
    while i < n
        invariant
            n == resp.ratings@.len(),
            i <= n,
            badge_views(badges@) == first + omdb_rt_badges(resp.ratings@.take(i as int)),
        decreases n - i,
    {
        let r = &resp.ratings[i];
        assert(resp.ratings@.take(i + 1).drop_last() =~= resp.ratings@.take(i as int));
        assert(resp.ratings@.take(i + 1).last() == resp.ratings@[i as int]);
        if str_eq(r.source.as_str(), "Rotten Tomatoes") && !str_eq(r.value.as_str(), "N/A") {
            let ghost before = badge_views(badges@);
            badges.push(RatingBadge { source: RatingSource::Rt, value: r.value.clone() });
            assert(badge_views(badges@) =~= before.push((RatingSource::Rt, r.value@)));
            assert(badge_views(badges@) =~= first + omdb_rt_badges(resp.ratings@.take(i + 1)));
        }
        i = i + 1;
    }
    assert(resp.ratings@.take(n as int) =~= resp.ratings@);
    let ghost middle = badge_views(badges@);
    match &resp.metascore {
        Some(mc) => {
            if !str_eq(mc.as_str(), "N/A") {
                badges.push(RatingBadge { source: RatingSource::Metacritic, value: mc.clone() });
                assert(badge_views(badges@) =~= middle.push((RatingSource::Metacritic, mc@)));
            }
        },
        None => {},
    }
    assert(badge_views(badges@) =~= omdb_badges_spec(*resp));
    badges
}

/// The Trakt ratings request for a title.
#[derive(Debug, Clone)]
pub enum TraktLookup {
    /// `movies/{imdb}/ratings`.
    Movie(String),
    /// `shows/{imdb}/ratings`.
    Show(String),
    /// `shows/{show imdb}/seasons/{s}/episodes/{e}/ratings`; the show's IMDb
    /// id is looked up first from its TMDB id.
    Episode { show_tmdb_id: u64, season: u32, episode: u32 },
}

/// Which Trakt request rates a title: movies and series by their IMDb id
/// (none without one), episodes through their series; none for an episode
/// without episode details.
pub open spec fn trakt_lookup_ok(resolved: ResolvedId, r: Option<TraktLookup>) -> bool {
    match resolved.media_type {
        MediaType::Movie => match resolved.imdb_id {
            Some(id) => r matches Some(TraktLookup::Movie(s)) && s@ == id@,
            None => r is None,
        },
        MediaType::Tv => match resolved.imdb_id {
            Some(id) => r matches Some(TraktLookup::Show(s)) && s@ == id@,
            None => r is None,
        },
        MediaType::Episode => match resolved.episode {
            Some(ep) => r matches Some(TraktLookup::Episode { show_tmdb_id, season, episode })
                && show_tmdb_id == ep.show_tmdb_id && season == ep.season_number && episode
                == ep.episode_number,
            None => r is None,
        },
    }
}

/// Decides the Trakt request for a resolved title.
pub fn trakt_lookup(resolved: &ResolvedId) -> (r: Option<TraktLookup>)
    ensures
        trakt_lookup_ok(*resolved, r),
{
    match resolved.media_type {
        MediaType::Movie => match &resolved.imdb_id {
            Some(id) => Some(TraktLookup::Movie(id.clone())),
            None => None,
        },
        MediaType::Tv => match &resolved.imdb_id {
            Some(id) => Some(TraktLookup::Show(id.clone())),
            None => None,
        },
        MediaType::Episode => match &resolved.episode {
            Some(ep) => Some(
                TraktLookup::Episode {
                    show_tmdb_id: ep.show_tmdb_id,
                    season: ep.season_number,
                    episode: ep.episode_number,
                },
            ),
            None => None,
        },
    }
}

/// The Trakt ratings URL of a movie or a show, by IMDb id.
pub fn trakt_ratings_url(is_movie: bool, imdb_id: &str) -> (u: String)
    ensures
        u@ == "https://api.trakt.tv/"@ + (if is_movie {
            "movies/"@
        } else {
            "shows/"@
        }) + imdb_id@ + "/ratings"@,
{
    let mut u = String::from_str("https://api.trakt.tv/");
    if is_movie {
        u.append("movies/");
    } else {
        u.append("shows/");
    }
    u.append(imdb_id);
    u.append("/ratings");
    u
}

/// The Trakt ratings URL of an episode, by its show's IMDb id.
pub fn trakt_episode_url(show_id: &str, season: u32, episode: u32) -> (u: String)
    ensures
        u@ == "https://api.trakt.tv/shows/"@ + show_id@ + "/seasons/"@ + decimal(season as nat) + "/episodes/"@
            + decimal(episode as nat) + "/ratings"@,
{
    let mut u = String::from_str("https://api.trakt.tv/shows/");
    u.append(show_id);
    u.append("/seasons/");
    push_decimal(&mut u, season as u64);
    u.append("/episodes/");
    push_decimal(&mut u, episode as u64);
    u.append("/ratings");
    u
}

/// The TMDB path of a series' external ids.
pub fn show_external_ids_path(show_tmdb_id: u64) -> (p: String)
    ensures
        p@ == "/tv/"@ + decimal(show_tmdb_id as nat) + "/external_ids"@,
{
    let mut p = String::from_str("/tv/");
    push_decimal(&mut p, show_tmdb_id);
    p.append("/external_ids");
    p
}

/// The MDBList ratings URL of a title, by IMDb id and MDBList kind.
pub fn mdblist_url(kind: &str, imdb_id: &str) -> (u: String)
    ensures
        u@ == "https://api.mdblist.com/imdb/"@ + kind@ + "/"@ + imdb_id@,
{
    let mut u = String::from_str("https://api.mdblist.com/imdb/");
    u.append(kind);
    u.append("/");
    u.append(imdb_id);
    u
}

/// A movie's or series' details path names the title: a series' path is
/// `/tv/` followed by its TMDB id, a movie's `/movie/` followed by its id, so
/// two titles share a path only when they have the same media type and id.
pub proof fn lemma_details_path_names_title(a: ResolvedId, b: ResolvedId)
    ensures
        a.media_type == MediaType::Tv ==> (tmdb_details_path_spec(a) matches Some(p) && has_prefix(p, "/tv/"@)
            && parse_unsigned(p.skip(4), u64::MAX as nat) == Some(a.tmdb_id as nat)),
        a.media_type == MediaType::Movie ==> (tmdb_details_path_spec(a) matches Some(p) && has_prefix(p, "/movie/"@)
            && parse_unsigned(p.skip(7), u64::MAX as nat) == Some(a.tmdb_id as nat)),
        (a.media_type == MediaType::Movie || a.media_type == MediaType::Tv) && (b.media_type == MediaType::Movie
            || b.media_type == MediaType::Tv) && tmdb_details_path_spec(a) == tmdb_details_path_spec(b) ==> a.media_type
            == b.media_type && a.tmdb_id == b.tmdb_id,
{
    reveal_strlit("/tv/");
    reveal_strlit("/movie/");
    lemma_parse_decimal(a.tmdb_id as nat, u64::MAX as nat);
    lemma_parse_decimal(b.tmdb_id as nat, u64::MAX as nat);
    let da = decimal(a.tmdb_id as nat);
    let db = decimal(b.tmdb_id as nat);
    assert(("/tv/"@ + da).skip(4) =~= da);
    assert(("/movie/"@ + da).skip(7) =~= da);
    assert(("/tv/"@ + da).take(4) =~= "/tv/"@);
    assert(("/movie/"@ + da).take(7) =~= "/movie/"@);
    assert(("/tv/"@ + db).skip(4) =~= db);
    assert(("/movie/"@ + db).skip(7) =~= db);
    assert(("/tv/"@ + da)[1] == 't' && ("/movie/"@ + da)[1] == 'm');
    assert(("/tv/"@ + db)[1] == 't' && ("/movie/"@ + db)[1] == 'm');
}

} // verus!
