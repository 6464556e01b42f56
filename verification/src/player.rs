//! The player state machine.
//!
//! A [`Player`] owns a [`PlayQueue`] of [`Track`]s, a looping flag and a
//! model of the state of an external audio streaming backend. It translates
//! high-level commands (play, pause, next, previous, queue, kill) into queue
//! navigation plus a list of [`BackendAction`]s for the caller to forward to
//! the real backend. Commands are meant to arrive serialized, on a single
//! worker that exclusively owns the player, so the modelled backend state
//! tracks the real one at command boundaries.

use crate::play_queue::PlayQueue;
use vstd::prelude::*;

verus! {

use vstd::std_specs::cmp::PartialEqSpecImpl;

/// One playable audio item: immutable metadata plus the locator (URI or
/// path) of the playable resource. Never mutated after creation.
#[derive(Debug)]
pub struct Track {
    pub id: u64,
    pub track: u8,
    pub title: String,
    pub artist: String,
    pub album: String,
    pub file: String,
}

impl Clone for Track {
    /// Cloning a track yields an equal track.
    fn clone(&self) -> (r: Track)
        ensures
            r == *self,
    {
        Track {
            id: self.id,
            track: self.track,
            title: self.title.clone(),
            artist: self.artist.clone(),
            album: self.album.clone(),
            file: self.file.clone(),
        }
    }
}

impl PartialEq for Track {
    fn eq(&self, other: &Track) -> (r: bool) {
        self.id == other.id && self.track == other.track && self.title == other.title
            && self.artist == other.artist && self.album == other.album
            && self.file == other.file
    }
}

impl PartialEqSpecImpl for Track {
    open spec fn obeys_eq_spec() -> bool {
        true
    }

    open spec fn eq_spec(&self, other: &Track) -> bool {
        &&& self.id == other.id
        &&& self.track == other.track
        &&& self.title@ == other.title@
        &&& self.artist@ == other.artist@
        &&& self.album@ == other.album@
        &&& self.file@ == other.file@
    }
}

/// The state a stream can be in, as reported by the audio backend.
#[derive(Clone, Copy, Debug, PartialEq, Eq, Structural)]
pub enum StreamState {
    Playing,
    Paused,
    Stopped,
}

/// One instruction for the audio backend: queue a resource by its URI,
/// start, stop (which also resets the playback position), or pause.
#[derive(Debug, PartialEq)]
pub enum BackendAction {
    Queue(String),
    Start,
    Stop,
    Pause,
}

/// A high-level command for the player, as sent by a UI layer over a
/// serialized command channel.
#[derive(Debug)]
pub enum PlayerCommand {
    Play,
    Pause,
    Next,
    Previous,
    Queue(Track),
    Kill,
}

/// The reason a player command was refused: a programmer-contract
/// violation, treated as non-recoverable by the command loop.
#[derive(Debug, PartialEq, Eq, Structural)]
pub enum PlayerError {
    /// An explicit start was requested while the backend already plays.
    AlreadyPlaying,
}

/// What one handled command asks of the caller: the backend instructions to
/// perform, in order, and whether the command loop should shut down.
pub struct CommandOutcome {
    pub actions: Vec<BackendAction>,
    pub halt: bool,
}

/// The backend instructions that stopping emits: `Stop` if the stream was
/// playing, nothing otherwise.
pub open spec fn stop_actions(s: StreamState) -> Seq<BackendAction> {
    if s is Playing {
        seq![BackendAction::Stop]
    } else {
        Seq::<BackendAction>::empty()
    }
}

/// The stream state after stopping: `Playing` becomes `Stopped`, any other
/// state is left as it is.
pub open spec fn stopped_state(s: StreamState) -> StreamState {
    if s is Playing {
        StreamState::Stopped
    } else {
        s
    }
}

/// `acts` instructs the backend to load `t`'s resource and start playing.
pub open spec fn is_play_actions(acts: Seq<BackendAction>, t: Track) -> bool {
    &&& acts.len() == 2
    &&& acts[0] matches BackendAction::Queue(u) && u@ == t.file@
    &&& acts[1] is Start
}

/// An audio player: a play queue of tracks, a looping flag, and the
/// modelled state of the external streaming backend.
pub struct Player {
    pub is_looping: bool,
    play_queue: PlayQueue<Track>,
    stream: StreamState,
}

/// State change of appending `t`: the track lands at the end of the queue
/// and nothing else moves.
pub open spec fn queue_post(pre: Player, post: Player, t: Track) -> bool {
    &&& post.tracks() == pre.tracks().push(t)
    &&& post.cursor() == pre.cursor()
    &&& post.stream_state() == pre.stream_state()
    &&& post.looping() == pre.looping()
}

/// State change of a successful explicit start: with a current track the
/// stream plays it, on an empty queue nothing happens at all.
pub open spec fn play_ok_post(pre: Player, post: Player, acts: Seq<BackendAction>) -> bool {
    &&& post.tracks() == pre.tracks()
    &&& post.cursor() == pre.cursor()
    &&& post.looping() == pre.looping()
    &&& (pre.current_track_spec() matches Some(t) ==> ({
        &&& post.stream_state() is Playing
        &&& is_play_actions(acts, t)
    }))
    &&& (pre.current_track_spec() is None ==> ({
        &&& post.stream_state() == pre.stream_state()
        &&& acts.len() == 0
    }))
}

/// State change of stopping: the queue is untouched, a playing stream is
/// stopped (and only then is the backend instructed at all).
pub open spec fn stop_post(pre: Player, post: Player, acts: Seq<BackendAction>) -> bool {
    &&& post.tracks() == pre.tracks()
    &&& post.cursor() == pre.cursor()
    &&& post.looping() == pre.looping()
    &&& post.stream_state() == stopped_state(pre.stream_state())
    &&& acts == stop_actions(pre.stream_state())
}

/// State change of pausing: unconditional, the backend being idempotent.
pub open spec fn pause_post(pre: Player, post: Player, acts: Seq<BackendAction>) -> bool {
    &&& post.tracks() == pre.tracks()
    &&& post.cursor() == pre.cursor()
    &&& post.looping() == pre.looping()
    &&& post.stream_state() is Paused
    &&& acts == seq![BackendAction::Pause]
}

/// State change of skipping to the next track: stop, advance the cursor
/// (wrapping to the front only when looping), and play the new current
/// track; at the end of a non-looping queue playback stays stopped and the
/// cursor keeps its last valid position.
pub open spec fn next_track_post(pre: Player, post: Player, acts: Seq<BackendAction>) -> bool {
    let n = pre.tracks().len() as int;
    let c = pre.cursor();
    let stops = stop_actions(pre.stream_state());
    let advances = c + 1 < n;
    let plays = advances || (pre.looping() && n > 0);
    &&& post.tracks() == pre.tracks()
    &&& post.looping() == pre.looping()
    &&& post.cursor() == (if advances {
        c + 1
    } else if pre.looping() {
        0
    } else {
        c
    })
    &&& (plays ==> post.stream_state() is Playing)
    &&& (!plays ==> post.stream_state() == stopped_state(pre.stream_state()))
    &&& acts.len() == stops.len() + (if plays {
        2int
    } else {
        0int
    })
    &&& acts.subrange(0, stops.len() as int) == stops
    &&& (plays ==> is_play_actions(acts.skip(stops.len() as int), pre.tracks()[post.cursor()]))
}

/// State change of going back one track: stop, step the cursor back
/// (staying at the front when already there), and play the now-current
/// track again from the beginning.
pub open spec fn previous_track_post(pre: Player, post: Player, acts: Seq<BackendAction>) -> bool {
    let n = pre.tracks().len() as int;
    let c = pre.cursor();
    let stops = stop_actions(pre.stream_state());
    &&& post.tracks() == pre.tracks()
    &&& post.looping() == pre.looping()
    &&& post.cursor() == (if c > 0 {
        c - 1
    } else {
        0
    })
    &&& (n > 0 ==> ({
        &&& post.stream_state() is Playing
        &&& acts.len() == stops.len() + 2
        &&& acts.subrange(0, stops.len() as int) == stops
        &&& is_play_actions(acts.skip(stops.len() as int), pre.tracks()[post.cursor()])
    }))
    &&& (n == 0 ==> ({
        &&& post.stream_state() == stopped_state(pre.stream_state())
        &&& acts == stops
    }))
}

impl Player {
    /// The tracks in the play queue, in order.
    pub closed spec fn tracks(&self) -> Seq<Track> {
        self.play_queue@
    }

    /// The play queue's cursor.
    pub closed spec fn cursor(&self) -> int {
        self.play_queue.cursor()
    }

    /// Whether queue exhaustion restarts playback from the first track.
    pub closed spec fn looping(&self) -> bool {
        self.is_looping
    }

    /// The modelled state of the streaming backend.
    pub closed spec fn stream_state(&self) -> StreamState {
        self.stream
    }

    /// Well-formedness: the underlying play queue is well-formed.
    pub closed spec fn wf(&self) -> bool {
        self.play_queue.wf()
    }

    /// The track under the queue's cursor, if any.
    pub open spec fn current_track_spec(&self) -> Option<Track> {
        if 0 <= self.cursor() < self.tracks().len() {
            Some(self.tracks()[self.cursor()])
        } else {
            None
        }
    }

    /// Create a player with an empty queue and a stopped stream.
    pub fn new(is_looping: bool) -> (p: Player)
        ensures
            p.wf(),
            p.looping() == is_looping,
            p.tracks() == Seq::<Track>::empty(),
            p.cursor() == 0,
            p.stream_state() is Stopped,
    {
        Player {
            is_looping,
            play_queue: PlayQueue::new(),
            stream: StreamState::Stopped,
        }
    }

    /// Returns `true` if the player is currently streaming audio.
    pub fn is_playing(&self) -> (r: bool)
        ensures
            r == (self.stream_state() is Playing),
    {
        self.stream == StreamState::Playing
    }

    /// Returns the current track in the queue. It may or may not be
    /// currently playing.
    pub fn current_track(&self) -> (r: Option<&Track>)
        requires
            self.wf(),
        ensures
            r matches Some(v) ==> self.current_track_spec() == Some(*v),
            r is None <==> self.tracks().len() == 0,
    {
        self.play_queue.current()
    }

    /// Add a track to the end of the play queue. No playback side effect.
    pub fn queue(&mut self, track: &Track)
        requires
            old(self).wf(),
        ensures
            final(self).wf(),
            queue_post(*old(self), *final(self), *track),
    {
        self.play_queue.append(track);
        proof {
            assert(self.play_queue@ =~= old(self).play_queue@.push(*track));
        }
    }

    /// Begin playback of the current track: instruct the backend to load
    /// its resource locator and start. An explicit start while the stream
    /// already plays is a programmer-contract violation and is refused; on
    /// an empty queue there is nothing to play and this is a silent no-op.
    pub fn play(&mut self) -> (r: Result<Vec<BackendAction>, PlayerError>)
        requires
            old(self).wf(),
        ensures
            final(self).wf(),
            old(self).stream_state() is Playing ==> ({
                &&& r == Err::<Vec<BackendAction>, PlayerError>(PlayerError::AlreadyPlaying)
                &&& *final(self) == *old(self)
            }),
            !(old(self).stream_state() is Playing) ==> ({
                &&& r matches Ok(acts) && play_ok_post(*old(self), *final(self), acts@)
            }),
    {
        if self.is_playing() {
            return Err(PlayerError::AlreadyPlaying);
        }
        let mut acts: Vec<BackendAction> = Vec::new();
        if let Some(track) = self.play_queue.current() {
            let uri = track.file.clone();
            acts.push(BackendAction::Queue(uri));
            acts.push(BackendAction::Start);
            self.stream = StreamState::Playing;
        }
        Ok(acts)
    }

    /// Stop playback of the current track. Does nothing if the player is
    /// not playing.
    pub fn stop(&mut self) -> (r: Vec<BackendAction>)
        requires
            old(self).wf(),
        ensures
            final(self).wf(),
            stop_post(*old(self), *final(self), r@),
    {
        let mut acts: Vec<BackendAction> = Vec::new();
        if self.is_playing() {
            self.stream = StreamState::Stopped;
            acts.push(BackendAction::Stop);
        }
        proof {
            assert(acts@ =~= stop_actions(old(self).stream_state()));
        }
        acts
    }

    /// Pause playback, keeping the current position. Unconditional: the
    /// backend is idempotent for this.
    pub fn pause(&mut self) -> (r: Vec<BackendAction>)
        requires
            old(self).wf(),
        ensures
            final(self).wf(),
            pause_post(*old(self), *final(self), r@),
    {
        self.stream = StreamState::Paused;
        let mut acts: Vec<BackendAction> = Vec::new();
        acts.push(BackendAction::Pause);
        proof {
            assert(acts@ =~= seq![BackendAction::Pause]);
        }
        acts
    }

    /// Stop the current track and play the next one in the queue.
    ///
    /// If there are no more items the player stays stopped, unless
    /// `is_looping` is set, in which case the queue starts again from the
    /// beginning.
    pub fn next_track(&mut self) -> (r: Vec<BackendAction>)
        requires
            old(self).wf(),
        ensures
            final(self).wf(),
            next_track_post(*old(self), *final(self), r@),
    {
        let ghost stops0 = stop_actions(old(self).stream_state());
        let mut acts = self.stop();
        let advanced = self.play_queue.next().is_some();
        if !advanced {
            if self.is_looping {
                self.play_queue.reset();
            } else {
                proof {
                    assert(acts@.subrange(0, stops0.len() as int) =~= stops0);
                }
                return acts;
            }
        }
        match self.play() {
            Ok(mut more) => {
                let ghost more0 = more@;
                acts.append(&mut more);
                proof {
                    assert(acts@ == stops0 + more0);
                    assert(acts@.subrange(0, stops0.len() as int) =~= stops0);
                    assert(acts@.skip(stops0.len() as int) =~= more0);
                }
                acts
            },
            Err(_) => unreached(),
        }
    }

    /// Stop the current track and play the previous one in the queue.
    ///
    /// If there is no previous item the current track is restarted from
    /// the beginning.
    pub fn previous_track(&mut self) -> (r: Vec<BackendAction>)
        requires
            old(self).wf(),
        ensures
            final(self).wf(),
            previous_track_post(*old(self), *final(self), r@),
    {
        let ghost stops0 = stop_actions(old(self).stream_state());
        let mut acts = self.stop();
        self.play_queue.previous();
        match self.play() {
            Ok(mut more) => {
                let ghost more0 = more@;
                acts.append(&mut more);
                proof {
                    assert(acts@ == stops0 + more0);
                    assert(acts@.subrange(0, stops0.len() as int) =~= stops0);
                    assert(acts@.skip(stops0.len() as int) =~= more0);
                }
                acts
            },
            Err(_) => unreached(),
        }
    }

    /// Handle one command from the serialized command channel: perform the
    /// queue navigation and state transition it asks for, and hand back the
    /// backend instructions together with whether the loop should shut
    /// down. `Kill` stops the backend so that shutdown is clean.
    pub fn handle_command(&mut self, cmd: PlayerCommand) -> (r: Result<CommandOutcome, PlayerError>)
        requires
            old(self).wf(),
        ensures
            final(self).wf(),
            ({
                let pre = *old(self);
                let post = *final(self);
                match cmd {
                    PlayerCommand::Play => {
                        &&& (pre.stream_state() is Playing ==> ({
                            &&& r == Err::<CommandOutcome, PlayerError>(PlayerError::AlreadyPlaying)
                            &&& post == pre
                        }))
                        &&& (!(pre.stream_state() is Playing) ==> ({
                            r matches Ok(o) && !o.halt && play_ok_post(pre, post, o.actions@)
                        }))
                    },
                    PlayerCommand::Pause => (
                        r matches Ok(o) && !o.halt && pause_post(pre, post, o.actions@)
                    ),
                    PlayerCommand::Next => (
                        r matches Ok(o) && !o.halt && next_track_post(pre, post, o.actions@)
                    ),
                    PlayerCommand::Previous => (
                        r matches Ok(o) && !o.halt && previous_track_post(pre, post, o.actions@)
                    ),
                    PlayerCommand::Queue(t) => (
                        r matches Ok(o) && !o.halt && o.actions@.len() == 0 && queue_post(pre, post, t)
                    ),
                    PlayerCommand::Kill => (
                        r matches Ok(o) && o.halt && stop_post(pre, post, o.actions@)
                    ),
                }
            }),
    {
        match cmd {
            PlayerCommand::Play => {
                match self.play() {
                    Ok(actions) => Ok(CommandOutcome { actions, halt: false }),
                    Err(e) => Err(e),
                }
            },
            PlayerCommand::Pause => {
                let actions = self.pause();
                Ok(CommandOutcome { actions, halt: false })
            },
            PlayerCommand::Next => {
                let actions = self.next_track();
                Ok(CommandOutcome { actions, halt: false })
            },
            PlayerCommand::Previous => {
                let actions = self.previous_track();
                Ok(CommandOutcome { actions, halt: false })
            },
            PlayerCommand::Queue(track) => {
                self.queue(&track);
                Ok(CommandOutcome { actions: Vec::new(), halt: false })
            },
            PlayerCommand::Kill => {
                let actions = self.stop();
                Ok(CommandOutcome { actions, halt: true })
            },
        }
    }
}

} // verus!
