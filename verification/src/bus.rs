//! The service layer above the data-access layer: which operations need a
//! logged-in session, and how fetched lists are combined.

use vstd::prelude::*;

use crate::dao::YTDao;
use crate::error::{YError, YResult};
use crate::paths::{no_dups, string_views};
use crate::text::{push_str, str_chars, string_from_chars};

verus! {

/// A song as the library shows it.
#[derive(Clone, Debug)]
pub struct Song {
    pub video_id: String,
    /// The song's entry id inside the playlist it was listed from.
    pub set_video_id: String,
    pub title: String,
}

/// An album or playlist.
#[derive(Clone, Debug)]
pub struct Playlist {
    pub playlist_id: String,
    pub title: String,
    /// A playlist the user may edit.
    pub is_custom: bool,
    /// Saved to the user's library.
    pub is_saved: bool,
}

/// A copy of a song.
pub fn copy_song(s: &Song) -> (res: Song)
    ensures
        res == *s,
{
    Song { video_id: s.video_id.clone(), set_video_id: s.set_video_id.clone(), title: s.title.clone() }
}

/// A copy of a playlist.
pub fn copy_playlist(p: &Playlist) -> (res: Playlist)
    ensures
        res == *p,
{
    Playlist {
        playlist_id: p.playlist_id.clone(),
        title: p.title.clone(),
        is_custom: p.is_custom,
        is_saved: p.is_saved,
    }
}

/// A copy of a list of songs.
pub fn copy_songs(v: &Vec<Song>) -> (res: Vec<Song>)
    ensures
        res@ == v@,
{
    let mut out: Vec<Song> = Vec::new();
    let mut i: usize = 0;
    while i < v.len()
        invariant
            i <= v@.len(),
            out@ == v@.take(i as int),
        decreases v@.len() - i,
    {
        out.push(copy_song(&v[i]));
        assert(v@.take(i + 1) =~= v@.take(i as int).push(v@[i as int]));
        i += 1;
    }
    assert(v@.take(i as int) =~= v@);
    out
}

/// The services of YouTube Music, over one connection.
pub struct YTBus {
    dao: YTDao,
}

impl YTBus {
    pub fn new(dao: YTDao) -> (res: Self)
        ensures
            res.dao() == dao,
    {
        YTBus { dao }
    }

    pub closed spec fn dao(&self) -> YTDao {
        self.dao
    }

    /// The connection the services use.
    pub fn connection(&self) -> (res: &YTDao)
        ensures
            *res == self.dao(),
    {
        &self.dao
    }

    /// Library operations need a logged-in connection.
    pub fn check_auth(&self) -> (res: YResult<()>)
        ensures
            self.dao().sapisid is None ==> (res matches Err(e) && e is UnavailableFeature),
            self.dao().sapisid is Some ==> res is Ok,
    {
        if self.dao.sapisid.is_none() {
            return Err(YError::UnavailableFeature);
        }
        Ok(())
    }
}

/// The playlist with id `LM` (liked songs) is editable like the user's own
/// playlists.
pub open spec fn marked_custom(p: Playlist) -> bool {
    p.is_custom || p.playlist_id@ == "LM"@
}

/// The positions of the editable playlists among `ps`, in order.
pub open spec fn custom_positions(ps: Seq<Playlist>) -> Seq<usize>
    decreases ps.len(),
{
    if ps.len() == 0 {
        Seq::empty()
    } else if marked_custom(ps.last()) {
        custom_positions(ps.drop_last()).push((ps.len() - 1) as usize)
    } else {
        custom_positions(ps.drop_last())
    }
}

/// The library's lists gathered so far, page by page: the albums and the
/// playlists of every page read, in page order.
pub struct LibraryPages {
    pub albums: Vec<Playlist>,
    pub playlists: Vec<Playlist>,
}

impl LibraryPages {
    /// Nothing gathered yet.
    pub fn new() -> (res: LibraryPages)
        ensures
            res.albums@ == Seq::<Playlist>::empty(),
            res.playlists@ == Seq::<Playlist>::empty(),
    {
        LibraryPages { albums: Vec::new(), playlists: Vec::new() }
    }

    /// Adds one page of the library (its albums, its playlists and the
    /// continuation token it ends with) after the pages read so far, and
    /// returns the token of the page to fetch next: none when the library
    /// is complete.
    pub fn add_page(
        &mut self,
        albums: Vec<Playlist>,
        playlists: Vec<Playlist>,
        next: Option<String>,
    ) -> (res: Option<String>)
        ensures
            final(self).albums@ == old(self).albums@ + albums@,
            final(self).playlists@ == old(self).playlists@ + playlists@,
            res == next,
    {
        let mut a = albums;
        let mut p = playlists;
        self.albums.append(&mut a);
        self.playlists.append(&mut p);
        next
    }
}

/// Finishes the library's playlists: the liked-songs playlist is marked
/// editable, and the positions of all editable playlists are listed.
pub fn mark_custom_playlists(playlists: Vec<Playlist>) -> (res: (Vec<Playlist>, Vec<usize>))
    ensures
        res.0@.len() == playlists@.len(),
        forall|i: int|
            0 <= i < playlists@.len() ==> {
                &&& (#[trigger] res.0@[i]).playlist_id == playlists@[i].playlist_id
                &&& res.0@[i].title == playlists@[i].title
                &&& res.0@[i].is_saved == playlists@[i].is_saved
                &&& res.0@[i].is_custom == marked_custom(playlists@[i])
            },
        res.1@ == custom_positions(playlists@),
{
    let ghost orig = playlists@;
    let mut rest = playlists;
    let mut out: Vec<Playlist> = Vec::new();
    let mut positions: Vec<usize> = Vec::new();
    let lm = str_chars("LM");
    while rest.len() > 0
        invariant
            out@.len() + rest@.len() == orig.len(),
            rest@ == orig.subrange(out@.len() as int, orig.len() as int),
            lm@ == "LM"@,
            forall|i: int|
                0 <= i < out@.len() ==> {
                    &&& (#[trigger] out@[i]).playlist_id == orig[i].playlist_id
                    &&& out@[i].title == orig[i].title
                    &&& out@[i].is_saved == orig[i].is_saved
                    &&& out@[i].is_custom == marked_custom(orig[i])
                },
            positions@ == custom_positions(orig.take(out@.len() as int)),
        decreases rest@.len(),
    {
        let mut p = rest.remove(0);
        let idx = out.len();
        let ghost pv = p;
        assert(pv == orig[idx as int]);
        if crate::text::chars_eq(str_chars(p.playlist_id.as_str()).as_slice(), lm.as_slice()) {
            p.is_custom = true;
        }
        let custom = p.is_custom;
        if custom {
            positions.push(idx);
        }
        out.push(p);
        proof {
            let t = orig.take(idx + 1);
            assert(t.drop_last() =~= orig.take(idx as int));
            assert(t.last() == pv);
            assert(rest@ =~= orig.subrange(out@.len() as int, orig.len() as int));
        }
    }
    assert(orig.take(out@.len() as int) =~= orig);
    (out, positions)
}

/// The video ids of a list of songs.
pub open spec fn song_ids(songs: Seq<Song>) -> Seq<Seq<char>> {
    songs.map_values(|s: Song| s.video_id@)
}

/// The search results after the top results are merged in: the top
/// results are taken from the last to the first, and each whose video is
/// not yet listed is put at the front.
pub open spec fn merge_top(current: Seq<Song>, top: Seq<Song>) -> Seq<Song>
    decreases top.len(),
{
    if top.len() == 0 {
        current
    } else {
        let x = top.last();
        let next = if song_ids(current).contains(x.video_id@) {
            current
        } else {
            seq![x] + current
        };
        merge_top(next, top.drop_last())
    }
}

/// Puts the top search results in front of the song results, skipping
/// videos already listed (see [`merge_top`]).
pub fn merge_top_songs(songs: Vec<Song>, top: Vec<Song>) -> (res: Vec<Song>)
    ensures
        res@ == merge_top(songs@, top@),
{
    let mut seen: Vec<String> = Vec::new();
    let mut i: usize = 0;
    while i < songs.len()
        invariant
            i <= songs@.len(),
            string_views(seen@) == song_ids(songs@).take(i as int),
        decreases songs@.len() - i,
    {
        let id = songs[i].video_id.clone();
        let ghost before = seen@;
        seen.push(id);
        assert(string_views(seen@) =~= string_views(before).push(id@));
        assert(song_ids(songs@).take(i + 1) =~= song_ids(songs@).take(i as int).push(id@));
        i += 1;
    }
    assert(song_ids(songs@).take(i as int) =~= song_ids(songs@));
    let mut out = songs;
    let mut rest = top;
    while rest.len() > 0
        invariant
            forall|x: Seq<char>| string_views(seen@).contains(x) <==> song_ids(out@).contains(x),
            merge_top(out@, rest@) == merge_top(songs@, top@),
        decreases rest@.len(),
    {
        let song = match rest.pop() {
            Some(s) => s,
            None => {
                return out;
            },
        };
        let mut known = false;
        let mut k: usize = 0;
        while k < seen.len()
            invariant
                k <= seen@.len(),
                known ==> string_views(seen@).contains(song.video_id@),
                !known ==> forall|j: int| 0 <= j < k ==> seen@[j]@ != song.video_id@,
            decreases seen@.len() - k,
        {
            if seen[k] == song.video_id {
                assert(string_views(seen@)[k as int] == song.video_id@);
                known = true;
            }
            k += 1;
        }
        if !known {
            assert(!string_views(seen@).contains(song.video_id@)) by {
                if string_views(seen@).contains(song.video_id@) {
                    let j = choose|j: int|
                        0 <= j < string_views(seen@).len() && string_views(seen@)[j]
                            == song.video_id@;
                    assert(seen@[j]@ == song.video_id@);
                }
            }
            let ghost before_seen = seen@;
            let ghost before_out = out@;
            let id = song.video_id.clone();
            seen.push(id);
            out.insert(0, song);
            assert(string_views(seen@) =~= string_views(before_seen).push(id@));
            assert(out@ =~= seq![song] + before_out);
            assert(song_ids(out@) =~= seq![id@] + song_ids(before_out));
            assert forall|x: Seq<char>| string_views(seen@).contains(x) <==> song_ids(out@).contains(
                x,
            ) by {
                if string_views(seen@).contains(x) {
                    let j = choose|j: int|
                        0 <= j < string_views(seen@).len() && string_views(seen@)[j] == x;
                    if j < before_seen.len() {
                        assert(string_views(before_seen)[j] == x);
                        assert(string_views(before_seen).contains(x));
                        let m = choose|m: int|
                            0 <= m < song_ids(before_out).len() && song_ids(before_out)[m] == x;
                        assert(song_ids(out@)[m + 1] == x);
                    } else {
                        assert(song_ids(out@)[0] == x);
                    }
                }
                if song_ids(out@).contains(x) {
                    let j = choose|j: int| 0 <= j < song_ids(out@).len() && song_ids(out@)[j] == x;
                    if j == 0 {
                        assert(string_views(seen@)[before_seen.len() as int] == x);
                    } else {
                        assert(song_ids(before_out)[j - 1] == x);
                        assert(song_ids(before_out).contains(x));
                        let m = choose|m: int|
                            0 <= m < string_views(before_seen).len() && string_views(before_seen)[m]
                                == x;
                        assert(string_views(seen@)[m] == x);
                    }
                }
            }
        }
    }
    out
}

/// The radio playlist of a song: `RDAMVM` followed by its video id.
pub fn related_playlist_id(video_id: &str) -> (res: String)
    ensures
        res@ == "RDAMVM"@ + video_id@,
{
    let mut out: Vec<char> = Vec::new();
    push_str(&mut out, "RDAMVM");
    push_str(&mut out, video_id);
    string_from_chars(out.as_slice())
}

/// The related songs of a song, with the song itself in front.
pub fn with_seed_song(seed: Song, related: Vec<Song>) -> (res: Vec<Song>)
    ensures
        res@ == seq![seed] + related@,
{
    let mut out = related;
    out.insert(0, seed);
    assert(out@ =~= seq![seed] + related@);
    out
}

// ---------------------------------------------------------------------------
// Laws of merging search results
// ---------------------------------------------------------------------------

/// `s` ends with `t`.
pub open spec fn ends_with_songs(s: Seq<Song>, t: Seq<Song>) -> bool {
    t.len() <= s.len() && s.subrange(s.len() - t.len(), s.len() as int) == t
}

/// Merging the top results keeps every song result, in order, at the end,
/// and lists no video twice when the song results did not.
pub proof fn lemma_merge_top(current: Seq<Song>, top: Seq<Song>)
    ensures
        ends_with_songs(merge_top(current, top), current),
        no_dups(song_ids(current)) ==> no_dups(song_ids(merge_top(current, top))),
    decreases top.len(),
{
    if top.len() == 0 {
        assert(current.subrange(0, current.len() as int) =~= current);
    } else {
        let x = top.last();
        let next = if song_ids(current).contains(x.video_id@) {
            current
        } else {
            seq![x] + current
        };
        lemma_merge_top(next, top.drop_last());
        let r = merge_top(next, top.drop_last());
        assert(r == merge_top(current, top));
        if !song_ids(current).contains(x.video_id@) {
            assert(next.subrange(1, next.len() as int) =~= current);
            assert(r.subrange(r.len() - current.len(), r.len() as int) =~= r.subrange(
                r.len() - next.len(),
                r.len() as int,
            ).subrange(1, next.len() as int));
            if no_dups(song_ids(current)) {
                let ids = song_ids(next);
                assert(ids =~= seq![x.video_id@] + song_ids(current));
                assert forall|i: int, j: int| 0 <= i < j < ids.len() implies ids[i] != ids[j] by {
                    if i == 0 {
                        assert(ids[j] == song_ids(current)[j - 1]);
                    } else {
                        assert(ids[i] == song_ids(current)[i - 1]);
                        assert(ids[j] == song_ids(current)[j - 1]);
                    }
                }
            }
        }
    }
}

} // verus!
