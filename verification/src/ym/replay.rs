//! Playing a song again.
//!
//! What a frame records depends on the song alone: on its frames and samples and on the
//! state of its effect units. Rewinding a song puts the cursor and every unit back to
//! where a new song has them, so that nothing of what was played before is left.
use vstd::prelude::*;

use crate::ym::laws::{after_frames, events_of_frames, lemma_next};
use crate::ym::playback::SongState;

verus! {

/// After any number of frames a song is what it was but for its cursor and its effect
/// units, and it can still be played.
pub proof fn lemma_after_frames(song: SongState, count: nat)
    requires
        song.wf(),
    ensures
        after_frames(song, count).wf(),
        after_frames(song, count) == (SongState {
            cursor: after_frames(song, count).cursor,
            voices: after_frames(song, count).voices,
            buzzer: after_frames(song, count).buzzer,
            ..song
        }),
    decreases count,
{
    if count > 0 {
        lemma_after_frames(song, (count - 1) as nat);
        lemma_next(after_frames(song, (count - 1) as nat));
    }
}

/// A song that can be played can be played once it is rewound.
pub proof fn lemma_rewound(song: SongState)
    requires
        song.wf(),
    ensures
        song.rewound().wf(),
        song.rewound().cursor == 0,
{
    let rewound = song.rewound();
    assert forall|v: int| 0 <= v < 3 implies (#[trigger] rewound.voices[v]).wf(
        rewound.dd_samples.len(),
    ) by {}
}

/// A song records the same every time it is rewound and played, however long it was played
/// before: the same register changes frame by frame, and it is left in the same state, with
/// the cursor at the same frame. `played` is the number of frames that were played before
/// the song was rewound again, and `count` the number of frames that are compared.
pub proof fn lemma_replay(song: SongState, played: nat, count: nat)
    requires
        song.wf(),
    ensures
        after_frames(song.rewound(), played).rewound() == song.rewound(),
        events_of_frames(after_frames(song.rewound(), played).rewound(), count)
            == events_of_frames(song.rewound(), count),
        after_frames(after_frames(song.rewound(), played).rewound(), count) == after_frames(
            song.rewound(),
            count,
        ),
{
    lemma_rewound(song);
    let first = song.rewound();
    lemma_after_frames(first, played);
    let again = after_frames(first, played).rewound();
    assert(again.voices =~= first.voices);
    assert(again == first);
}

} // verus!
