//! Data and decisions of the periodic playlist-reconciliation job. The
//! job's network and database traffic runs in the calling layer; the
//! set arithmetic that decides which songs to add and remove is here.
use vstd::prelude::*;
use crate::plex_db::PlaylistResult;
use crate::text::spec_contains_string;
use crate::text::vec_contains_string;

verus! {

/// A user's public playlist together with the songs it currently holds.
#[derive(Debug)]
pub struct PopulatedUserPlaylist {
    pub playlist: PlaylistResult,
    pub songs: Vec<String>,
}

impl PopulatedUserPlaylist {
    /// The playlist's identifier.
    pub fn id(&self) -> (r: String)
        ensures
            r@ == self.playlist.id@,
    {
        self.playlist.id.clone()
    }

    /// The identifier of the playlist's owner.
    pub fn owner_id(&self) -> (r: String)
        ensures
            r@ == self.playlist.owner_id@,
    {
        self.playlist.owner_id.clone()
    }
}

/// The songs of `a` that `b` does not hold.
pub open spec fn spec_songs_not_in(a: Seq<String>, b: Seq<String>) -> Seq<String> {
    a.filter(|s: String| !spec_contains_string(b, s@))
}

/// How one song list differs from another.
#[derive(Debug)]
pub struct SongDelta {
    /// Songs of the last known state that the new state no longer holds.
    pub missing_songs: Vec<String>,
    /// Songs of the new state that the last known state did not hold.
    pub additional_songs: Vec<String>,
}

/// Compares a playlist's last known song list with its new one.
pub fn get_song_delta(last_state_songs: &Vec<String>, new_state_songs: &Vec<String>) -> (r:
    SongDelta)
    ensures
        r.missing_songs@ == spec_songs_not_in(last_state_songs@, new_state_songs@),
        r.additional_songs@ == spec_songs_not_in(new_state_songs@, last_state_songs@),
{
    let missing_songs = songs_not_in(last_state_songs, new_state_songs);
    let additional_songs = songs_not_in(new_state_songs, last_state_songs);
    SongDelta { missing_songs, additional_songs }
}

/// Collects the songs of `a` that `b` does not hold.
fn songs_not_in(a: &Vec<String>, b: &Vec<String>) -> (r: Vec<String>)
    ensures
        r@ == spec_songs_not_in(a@, b@),
{
    let mut out: Vec<String> = Vec::new();
    let mut i: usize = 0;
    proof {
        reveal(Seq::filter);
        assert(a@.take(0) =~= Seq::<String>::empty());
    }
    while i < a.len()
        invariant
            0 <= i <= a@.len(),
            out@ == spec_songs_not_in(a@.take(i as int), b@),
        decreases a.len() - i,
    {
        proof {
            reveal(Seq::filter);
            let t = i as int;
            assert(a@.take(t + 1).drop_last() =~= a@.take(t));
            assert(a@.take(t + 1).last() == a@[t]);
        }
        if !vec_contains_string(b, &a[i]) {
            out.push(a[i].clone());
        }
        i = i + 1;
    }
    proof {
        assert(a@.take(a@.len() as int) =~= a@);
    }
    out
}

} // verus!
