//! Album search: the known album titles are ranked against the query by
//! a fuzzy matcher, and the first album carrying the best-ranked title
//! is the result. The database reads around it are the calling layer's
//! work.
use vstd::prelude::*;
use crate::metrics::GetUploadResult;
use crate::model::AlbumSearchResponse;
use crate::plex_db::AlbumResult;

verus! {

/// The typed headers of an album-search request.
#[derive(Debug)]
pub struct AlbumSearchHeaders {
    pub album: String,
}

/// The character sequences of a list of strings.
pub open spec fn spec_string_views(v: Seq<String>) -> Seq<Seq<char>> {
    v.map_values(|s: String| s@)
}

/// The best fuzzy match for a query among the candidate strings. The
/// ranking is a function of the query and the candidates alone.
pub uninterp spec fn fuzzy_best_match(query: Seq<char>, candidates: Seq<Seq<char>>) -> Option<
    Seq<char>,
>;

/// Relies on rust_fuzzy_search::fuzzy_search_best_n: scores every
/// candidate against the query by trigram similarity and returns the
/// best-scoring one; it returns one candidate whenever any exist, and
/// which one depends on the query and the candidates alone.
#[verifier::external_body]
fn fuzzy_search_best(query: &str, candidates: &Vec<String>) -> (r: Option<String>)
    ensures
        r is Some <==> candidates@.len() > 0,
        r matches Some(t) ==> Option::Some(t@) == fuzzy_best_match(
            query@,
            spec_string_views(candidates@),
        ) && spec_string_views(candidates@).contains(t@),
        r is None ==> fuzzy_best_match(query@, spec_string_views(candidates@)) is None,
{
    let refs: Vec<&str> = candidates.iter().map(|s| s.as_str()).collect();
    let best = rust_fuzzy_search::fuzzy_search_best_n(query, &refs, 1);
    best.into_iter().next().map(|(title, _score)| title.to_string())
}

/// The candidate titles of a list of albums.
pub open spec fn spec_album_titles(s: Seq<AlbumResult>) -> Seq<Seq<char>> {
    s.map_values(|a: AlbumResult| a.spec_title())
}

/// Picks the album whose title best matches the search string: the first
/// album carrying the fuzzy matcher's best-ranked title. Fails exactly
/// when there are no albums at all.
pub fn find_searched_album_result(albums: Vec<AlbumResult>, album: &str) -> (r: Result<
    AlbumResult,
    (),
>)
    ensures
        r is Ok <==> albums@.len() > 0,
        r matches Ok(a) ==> ({
            let best = fuzzy_best_match(album@, spec_album_titles(albums@));
            best matches Some(t) && exists|i: int|
                0 <= i < albums@.len() && (#[trigger] albums@[i]) == a && albums@[i].spec_title()
                    == t && (forall|j: int| 0 <= j < i ==> albums@[j].spec_title() != t)
        }),
{
    let mut titles: Vec<String> = Vec::new();
    let mut i: usize = 0;
    proof {
        assert(spec_string_views(titles@) =~= spec_album_titles(albums@.take(0)));
    }
    while i < albums.len()
        invariant
            0 <= i <= albums@.len(),
            spec_string_views(titles@) == spec_album_titles(albums@.take(i as int)),
        decreases albums.len() - i,
    {
        let ghost prev = titles@;
        titles.push(albums[i].get_title().clone());
        proof {
            let t = i as int;
            assert(spec_string_views(prev).len() == prev.len());
            assert(spec_album_titles(albums@.take(t)).len() == t);
            assert(prev.len() == t);
            assert forall|j: int| 0 <= j < titles@.len() implies spec_string_views(titles@)[j]
                == spec_album_titles(albums@.take(t + 1))[j] by {
                if j < t {
                    assert(titles@[j] == prev[j]);
                    assert(spec_string_views(prev)[j] == spec_album_titles(albums@.take(t))[j]);
                } else {
                    assert(titles@[j]@ == albums@[t].spec_title());
                }
            }
            assert(spec_string_views(titles@) =~= spec_album_titles(albums@.take(t + 1)));
        }
        i = i + 1;
    }
    proof {
        assert(albums@.take(albums@.len() as int) =~= albums@);
    }
    let best = match fuzzy_search_best(album, &titles) {
        Some(b) => b,
        None => {
            return Err(());
        },
    };
    let mut k: usize = 0;
    while k < albums.len()
        invariant
            0 <= k <= albums@.len(),
            Option::Some(best@) == fuzzy_best_match(album@, spec_album_titles(albums@)),
            spec_album_titles(albums@).contains(best@),
            forall|j: int| 0 <= j < k ==> (#[trigger] albums@[j]).spec_title() != best@,
        decreases albums.len() - k,
    {
        if *albums[k].get_title() == best {
            let found = albums[k].clone();
            proof {
                let t = k as int;
                assert(albums@[t].spec_title() == best@);
                assert(found == albums@[t]);
            }
            return Ok(found);
        }
        k = k + 1;
    }
    proof {
        let dv = spec_album_titles(albums@);
        let w = choose|w: int| 0 <= w < dv.len() && dv[w] == best@;
        assert(albums@[w].spec_title() == best@);
        assert(false);
    }
    Err(())
}

/// Builds the search response: the found album's title, and who uploaded
/// it — or a placeholder when the metric store knows nothing about it.
pub fn build_album_search_response(
    found_album: &AlbumResult,
    upload_result: Option<GetUploadResult>,
) -> (r: AlbumSearchResponse)
    ensures
        r.album@ == found_album.spec_title(),
        upload_result matches Some(u) ==> r.uploader@ == u.user@,
        upload_result is None ==> r.uploader@ == "Unknown"@,
{
    let uploader = match upload_result {
        Some(u) => u.user,
        None => "Unknown".to_owned(),
    };
    AlbumSearchResponse { album: found_album.get_title().clone(), uploader }
}

} // verus!
