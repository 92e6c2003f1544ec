//! Songs to practise: beats of notes that sound together.

use crate::note::Note;
use vstd::prelude::*;

verus! {

/// A song as a sequence of beats.
#[derive(Clone, Debug)]
pub struct Song {
    /// The title of the song.
    pub name: String,
    /// The beats of the song in order, each with the notes that sound together.
    pub notes: Vec<Vec<Note>>,
}

impl Song {
    /// The beats of the song, each as the sequence of its notes.
    pub open spec fn beats(self) -> Seq<Seq<Note>> {
        self.notes@.map_values(|beat: Vec<Note>| beat@)
    }
}

/// The beats of each song of a table.
pub open spec fn song_beats(songs: Seq<Song>) -> Seq<Seq<Seq<Note>>> {
    songs.map_values(|song: Song| song.beats())
}

/// Whether a table of songs can be played from: it holds a song, and every
/// song in it has a beat.
pub open spec fn playable_songs(songs: Seq<Seq<Seq<Note>>>) -> bool {
    &&& songs.len() > 0
    &&& forall|i: int| 0 <= i < songs.len() ==> (#[trigger] songs[i]).len() > 0
}

/// Tells whether a table of songs can be played from.
pub fn are_playable(songs: &Vec<Song>) -> (playable: bool)
    ensures
        playable == playable_songs(song_beats(songs@)),
{
    if songs.len() == 0 {
        return false;
    }
    let mut i: usize = 0;
    while i < songs.len()
        invariant
            i <= songs.len(),
            forall|j: int| 0 <= j < i ==> (#[trigger] song_beats(songs@)[j]).len() > 0,
        decreases songs.len() - i,
    {
        assert(song_beats(songs@)[i as int] == songs@[i as int].beats());
        if songs[i].notes.len() == 0 {
            return false;
        }
        i += 1;
    }
    true
}

} // verus!
