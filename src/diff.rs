use vstd::prelude::*;
use crate::media::TrackControls;

verus! {

/// The part of a track snapshot that decides whether it is news: title,
/// artist and whether it is playing.
#[derive(Debug, Clone)]
pub struct TrackKey {
    pub title: String,
    pub artist: String,
    pub playing: bool,
}

/// Two keys name the same track in the same playing state.
pub open spec fn same_key(a: TrackKey, b: TrackKey) -> bool {
    a.title@ == b.title@ && a.artist@ == b.artist@ && a.playing == b.playing
}

/// Remembers the last track key and controls sent to a connection, so that
/// unchanged snapshots are not sent again. Timelines are never diffed: they
/// move all the time and viewers want smooth progress.
#[derive(Debug)]
pub struct DiffEmitter {
    pub last_track: Option<TrackKey>,
    pub last_controls: Option<TrackControls>,
}

impl DiffEmitter {
    /// Nothing has been sent yet.
    pub open spec fn is_fresh(&self) -> bool {
        self.last_track is None && self.last_controls is None
    }

    /// Whether a track snapshot with key `k` goes out.
    pub open spec fn track_is_news(&self, k: TrackKey) -> bool {
        match self.last_track {
            Some(last) => !same_key(last, k),
            None => true,
        }
    }

    /// Whether a controls snapshot `c` goes out.
    pub open spec fn controls_is_news(&self, c: TrackControls) -> bool {
        match self.last_controls {
            Some(last) => last != c,
            None => true,
        }
    }

    /// The emitter after offering a track key: it then remembers that key.
    pub open spec fn after_track(self, k: TrackKey) -> DiffEmitter {
        if self.track_is_news(k) {
            DiffEmitter { last_track: Some(k), ..self }
        } else {
            self
        }
    }

    /// How many of `keys`, offered in turn, go out.
    pub open spec fn track_emissions(self, keys: Seq<TrackKey>) -> nat
        decreases keys.len(),
    {
        if keys.len() == 0 {
            0
        } else {
            (if self.track_is_news(keys[0]) {
                1nat
            } else {
                0nat
            }) + self.after_track(keys[0]).track_emissions(keys.drop_first())
        }
    }

    /// An emitter that has sent nothing.
    pub fn new() -> (r: DiffEmitter)
        ensures
            r.is_fresh(),
    {
        DiffEmitter { last_track: None, last_controls: None }
    }

    /// Forgets what was sent, so that the next snapshot of each category goes out.
    pub fn reset(&mut self)
        ensures
            final(self).is_fresh(),
    {
        self.last_track = None;
        self.last_controls = None;
    }

    /// Decides whether a track snapshot with key `k` goes out, and remembers
    /// it when it does.
    pub fn offer_track(&mut self, k: &TrackKey) -> (r: bool)
        ensures
            r == old(self).track_is_news(*k),
            r ==> final(self).last_track == Some(*k),
            !r ==> final(self).last_track == old(self).last_track,
            final(self).last_controls == old(self).last_controls,
    {
        let news = match &self.last_track {
            Some(last) => !(last.title == k.title && last.artist == k.artist && last.playing
                == k.playing),
            None => true,
        };
        if news {
            self.last_track = Some(
                TrackKey { title: k.title.clone(), artist: k.artist.clone(), playing: k.playing },
            );
        }
        news
    }

    /// Decides whether a controls snapshot `c` goes out, and remembers it when it does.
    pub fn offer_controls(&mut self, c: &TrackControls) -> (r: bool)
        ensures
            r == old(self).controls_is_news(*c),
            r ==> final(self).last_controls == Some(*c),
            !r ==> final(self).last_controls == old(self).last_controls,
            final(self).last_track == old(self).last_track,
    {
        let news = match &self.last_controls {
            Some(last) => *last != *c,
            None => true,
        };
        if news {
            self.last_controls = Some(*c);
        }
        news
    }
}

/// Once `k` has been sent, offering any run of snapshots with the same key
/// sends nothing more.
pub proof fn lemma_repeats_are_silent(d: DiffEmitter, k: TrackKey, keys: Seq<TrackKey>)
    requires
        d.last_track == Some(k),
        forall|i: int| 0 <= i < keys.len() ==> same_key(#[trigger] keys[i], k),
    ensures
        d.track_emissions(keys) == 0,
    decreases keys.len(),
{
    if keys.len() > 0 {
        assert(same_key(keys[0], k));
        assert(!d.track_is_news(keys[0]));
        let rest = keys.drop_first();
        assert forall|i: int| 0 <= i < rest.len() implies same_key(#[trigger] rest[i], k) by {
            assert(rest[i] == keys[i + 1]);
        }
        lemma_repeats_are_silent(d, k, rest);
    }
}

/// A run of identical consecutive track snapshots is sent exactly once: the
/// first one goes out (it is news to the emitter), the rest are suppressed.
pub proof fn lemma_identical_snapshots_emit_once(d: DiffEmitter, keys: Seq<TrackKey>)
    requires
        keys.len() > 0,
        d.track_is_news(keys[0]),
        forall|i: int| 0 <= i < keys.len() ==> same_key(#[trigger] keys[i], keys[0]),
    ensures
        d.track_emissions(keys) == 1,
{
    let d1 = d.after_track(keys[0]);
    let rest = keys.drop_first();
    assert forall|i: int| 0 <= i < rest.len() implies same_key(#[trigger] rest[i], keys[0]) by {
        assert(rest[i] == keys[i + 1]);
    }
    lemma_repeats_are_silent(d1, keys[0], rest);
}

/// When only the playing state changes, every snapshot is sent: starting
/// from a last-sent key `k`, a run in which title and artist stay those of
/// `k` and each snapshot flips the playing state of the one before it gives
/// one emission per flip.
pub proof fn lemma_play_toggles_each_emit(d: DiffEmitter, k: TrackKey, keys: Seq<TrackKey>)
    requires
        d.last_track == Some(k),
        forall|i: int|
            0 <= i < keys.len() ==> (#[trigger] keys[i]).title@ == k.title@ && keys[i].artist@
                == k.artist@,
        forall|i: int|
            0 <= i < keys.len() ==> (#[trigger] keys[i]).playing != (if i == 0 {
                k.playing
            } else {
                keys[i - 1].playing
            }),
    ensures
        d.track_emissions(keys) == keys.len(),
    decreases keys.len(),
{
    if keys.len() > 0 {
        assert(d.track_is_news(keys[0]));
        let d1 = d.after_track(keys[0]);
        let rest = keys.drop_first();
        assert forall|i: int| 0 <= i < rest.len() implies (#[trigger] rest[i]).title@
            == keys[0].title@ && rest[i].artist@ == keys[0].artist@ by {
            assert(rest[i] == keys[i + 1]);
        }
        assert forall|i: int| 0 <= i < rest.len() implies (#[trigger] rest[i]).playing != (if i
            == 0 {
            keys[0].playing
        } else {
            rest[i - 1].playing
        }) by {
            assert(rest[i] == keys[i + 1]);
            if i > 0 {
                assert(rest[i - 1] == keys[i]);
            }
        }
        lemma_play_toggles_each_emit(d1, keys[0], rest);
    }
}

/// How many times the playing state flips along `keys`, starting from `prev`.
pub open spec fn play_flips(prev: bool, keys: Seq<TrackKey>) -> nat
    decreases keys.len(),
{
    if keys.len() == 0 {
        0
    } else {
        (if keys[0].playing != prev {
            1nat
        } else {
            0nat
        }) + play_flips(keys[0].playing, keys.drop_first())
    }
}

/// With title and artist fixed, the number of track snapshots sent equals the
/// number of times the playing state flips, counted from the last key sent.
pub proof fn lemma_emissions_count_play_flips(d: DiffEmitter, k: TrackKey, keys: Seq<TrackKey>)
    requires
        d.last_track == Some(k),
        forall|i: int|
            0 <= i < keys.len() ==> (#[trigger] keys[i]).title@ == k.title@ && keys[i].artist@
                == k.artist@,
    ensures
        d.track_emissions(keys) == play_flips(k.playing, keys),
    decreases keys.len(),
{
    if keys.len() > 0 {
        let rest = keys.drop_first();
        if keys[0].playing != k.playing {
            let d1 = d.after_track(keys[0]);
            assert forall|i: int| 0 <= i < rest.len() implies (#[trigger] rest[i]).title@
                == keys[0].title@ && rest[i].artist@ == keys[0].artist@ by {
                assert(rest[i] == keys[i + 1]);
            }
            lemma_emissions_count_play_flips(d1, keys[0], rest);
        } else {
            assert(!d.track_is_news(keys[0]));
            assert forall|i: int| 0 <= i < rest.len() implies (#[trigger] rest[i]).title@
                == k.title@ && rest[i].artist@ == k.artist@ by {
                assert(rest[i] == keys[i + 1]);
            }
            lemma_emissions_count_play_flips(d, k, rest);
        }
    }
}

} // verus!
