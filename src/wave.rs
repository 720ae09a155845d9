//! The audio to display and the playback clock.
use vstd::prelude::*;

verus! {

/// The rendered audio: the master track and one stereo track per channel,
/// with the channels' names in the same order.
pub struct WaveResource {
    pub master: Vec<(i32, i32)>,
    pub channels: Vec<Vec<(i32, i32)>>,
    pub channel_names: Vec<String>,
}

/// Why rendered audio cannot be displayed.
#[derive(Clone, Copy, Debug, PartialEq, Eq, Structural)]
pub enum WaveError {
    /// There are no channels besides the master.
    NoChannels,
    /// The master track is shorter than two windows.
    MasterTooShort,
    /// Fewer names than channels.
    MissingNames,
}

impl WaveResource {
    /// Checks that the audio can be displayed with windows of `buffer_size`
    /// samples: at least one channel, a master of at least `2 * buffer_size`
    /// samples, and a name for every channel.
    pub fn check(&self, buffer_size: usize) -> (r: Result<(), WaveError>)
        ensures
            r == if self.channels@.len() == 0 {
                Err(WaveError::NoChannels)
            } else if self.master@.len() < 2 * buffer_size {
                Err(WaveError::MasterTooShort)
            } else if self.channel_names@.len() < self.channels@.len() {
                Err(WaveError::MissingNames)
            } else {
                Ok(())
            },
    {
        if self.channels.len() == 0 {
            Err(WaveError::NoChannels)
        } else if (self.master.len() as u128) < 2 * (buffer_size as u128) {
            Err(WaveError::MasterTooShort)
        } else if self.channel_names.len() < self.channels.len() {
            Err(WaveError::MissingNames)
        } else {
            Ok(())
        }
    }

    pub fn new(
        master: Vec<(i32, i32)>,
        channels: Vec<Vec<(i32, i32)>>,
        channel_names: Vec<String>,
    ) -> (r: Self)
        ensures
            r.master == master,
            r.channels == channels,
            r.channel_names == channel_names,
    {
        WaveResource { master, channels, channel_names }
    }
}

/// Playback direction requested from the audio service.
#[derive(Clone, Copy, Debug, PartialEq, Eq, Structural)]
pub enum Transport {
    Playing,
    Paused,
}

/// Direction of a volume change.
#[derive(Clone, Copy, Debug, PartialEq, Eq, Structural)]
pub enum VolumeStep {
    Up,
    Down,
}

/// What the audio service's controller must be told after a clock operation.
#[derive(Clone, Copy, Debug, PartialEq, Eq, Structural)]
pub enum ControlWrite {
    /// Nothing to write.
    Nothing,
    /// Set the playback rate.
    Rate(Transport),
    /// Seek to this many nanoseconds.
    Seek(u64),
    /// Scale the volume one step up or down.
    Volume(VolumeStep),
}

/// The keys that act on playback.
#[derive(Clone, Copy, Debug, PartialEq, Eq, Structural)]
pub enum Key {
    Space,
    R,
    ArrowUp,
    ArrowDown,
    Other,
}

/// The clock's state, in nanoseconds. `start` is the clock reading at which
/// position zero was (or would have been) passed; `paused` is the position
/// held while paused; `bound` says whether the audio service has answered.
pub struct ClockState {
    pub sample_rate: nat,
    pub start: Option<int>,
    pub paused: Option<int>,
    pub bound: bool,
}

/// The playback position at clock reading `now`: the held position if
/// paused, else the time since `start` (saturated to `0..=u64::MAX`), else 0.
pub open spec fn elapsed_at(c: ClockState, now: int) -> int {
    match c.paused {
        Some(p) => p,
        None => match c.start {
            Some(s) => if now - s < 0 {
                0
            } else if now - s > u64::MAX {
                u64::MAX as int
            } else {
                now - s
            },
            None => 0,
        },
    }
}

/// The state after the audio service has started at reading `start`.
pub open spec fn bound_state(c: ClockState, start: int) -> ClockState {
    ClockState { start: Some(start), bound: true, ..c }
}

/// The state after pausing at reading `now`.
pub open spec fn paused_state(c: ClockState, now: int) -> ClockState {
    if c.bound {
        ClockState { paused: Some(elapsed_at(c, now)), ..c }
    } else {
        c
    }
}

/// The state after unpausing at reading `now`: playing on from the held position.
pub open spec fn unpaused_state(c: ClockState, now: int) -> ClockState {
    if c.bound && c.paused.is_some() {
        ClockState { start: Some(now - c.paused.unwrap()), paused: None, ..c }
    } else {
        c
    }
}

/// The state after seeking to position `t` at reading `now`.
pub open spec fn seeked_state(c: ClockState, t: int, now: int) -> ClockState {
    if c.bound {
        ClockState {
            start: Some(now - t),
            paused: if c.paused.is_some() {
                Some(t)
            } else {
                None
            },
            ..c
        }
    } else {
        c
    }
}

/// The wall-clock timeline of playback, with pause and seek. Times are
/// nanoseconds; clock readings come from a monotonic clock chosen by the caller.
pub struct PlaybackResource {
    sample_rate: u32,
    start_instant: Option<i128>,
    paused_time: Option<u64>,
    bound: bool,
}

impl View for PlaybackResource {
    type V = ClockState;

    closed spec fn view(&self) -> ClockState {
        ClockState {
            sample_rate: self.sample_rate as nat,
            start: match self.start_instant {
                Some(s) => Some(s as int),
                None => None,
            },
            paused: match self.paused_time {
                Some(p) => Some(p as int),
                None => None,
            },
            bound: self.bound,
        }
    }
}

impl PlaybackResource {
    /// The start reading lies within one `u64` range of zero.
    pub closed spec fn wf(&self) -> bool {
        match self.start_instant {
            Some(s) => -(u64::MAX as int) <= s <= u64::MAX,
            None => true,
        }
    }

    /// A clock at position zero, not yet bound to the audio service.
    pub fn new(sample_rate: u32) -> (r: Self)
        ensures
            r.wf(),
            r@ == (ClockState { sample_rate: sample_rate as nat, start: None, paused: None, bound: false }),
    {
        PlaybackResource { sample_rate, start_instant: None, paused_time: None, bound: false }
    }

    /// The sample rate of the audio.
    pub fn sample_rate(&self) -> (r: u32)
        ensures
            r as nat == self@.sample_rate,
    {
        self.sample_rate
    }

    /// The audio service has answered: controller writes take effect.
    pub fn is_bound(&self) -> (r: bool)
        ensures
            r == self@.bound,
    {
        self.bound
    }

    /// Binds the clock to the audio service, which started at reading `start`.
    pub fn bind(&mut self, start: u64)
        requires
            old(self).wf(),
        ensures
            final(self).wf(),
            final(self)@ == bound_state(old(self)@, start as int),
    {
        self.start_instant = Some(start as i128);
        self.bound = true;
    }

    /// The playback position at reading `now`.
    pub fn elapsed(&self, now: u64) -> (r: u64)
        requires
            self.wf(),
        ensures
            r as int == elapsed_at(self@, now as int),
    {
        match self.paused_time {
            Some(p) => p,
            None => match self.start_instant {
                Some(s) => {
                    let d: i128 = now as i128 - s;
                    if d < 0 {
                        0
                    } else if d > u64::MAX as i128 {
                        u64::MAX
                    } else {
                        d as u64
                    }
                },
                None => 0,
            },
        }
    }

    /// Pauses at reading `now`, holding the current position.
    pub fn pause(&mut self, now: u64) -> (w: ControlWrite)
        requires
            old(self).wf(),
        ensures
            final(self).wf(),
            final(self)@ == paused_state(old(self)@, now as int),
            w == if old(self)@.bound {
                ControlWrite::Rate(Transport::Paused)
            } else {
                ControlWrite::Nothing
            },
    {
        if self.bound {
            let t = self.elapsed(now);
            self.paused_time = Some(t);
            ControlWrite::Rate(Transport::Paused)
        } else {
            ControlWrite::Nothing
        }
    }

    /// Plays on from the held position at reading `now`.
    pub fn unpause(&mut self, now: u64) -> (w: ControlWrite)
        requires
            old(self).wf(),
        ensures
            final(self).wf(),
            final(self)@ == unpaused_state(old(self)@, now as int),
            w == if old(self)@.bound && old(self)@.paused.is_some() {
                ControlWrite::Rate(Transport::Playing)
            } else {
                ControlWrite::Nothing
            },
    {
        if self.bound {
            match self.paused_time {
                Some(p) => {
                    self.start_instant = Some(now as i128 - p as i128);
                    self.paused_time = None;
                    ControlWrite::Rate(Transport::Playing)
                },
                None => ControlWrite::Nothing,
            }
        } else {
            ControlWrite::Nothing
        }
    }

    /// Unpauses if paused, else pauses.
    pub fn toggle_pause(&mut self, now: u64) -> (w: ControlWrite)
        requires
            old(self).wf(),
        ensures
            final(self).wf(),
            final(self)@ == if old(self)@.paused.is_some() {
                unpaused_state(old(self)@, now as int)
            } else {
                paused_state(old(self)@, now as int)
            },
            w == if !old(self)@.bound {
                ControlWrite::Nothing
            } else if old(self)@.paused.is_some() {
                ControlWrite::Rate(Transport::Playing)
            } else {
                ControlWrite::Rate(Transport::Paused)
            },
    {
        if self.paused_time.is_some() {
            self.unpause(now)
        } else {
            self.pause(now)
        }
    }

    /// Seeks to position `time` at reading `now`; a paused clock stays
    /// paused, at the new position.
    pub fn set_time(&mut self, time: u64, now: u64) -> (w: ControlWrite)
        requires
            old(self).wf(),
        ensures
            final(self).wf(),
            final(self)@ == seeked_state(old(self)@, time as int, now as int),
            w == if old(self)@.bound {
                ControlWrite::Seek(time)
            } else {
                ControlWrite::Nothing
            },
    {
        if self.bound {
            self.start_instant = Some(now as i128 - time as i128);
            if self.paused_time.is_some() {
                self.paused_time = Some(time);
            }
            ControlWrite::Seek(time)
        } else {
            ControlWrite::Nothing
        }
    }

    /// Acts on a key pressed at reading `now`: Space toggles pause, R seeks
    /// to the start, the arrows step the volume.
    pub fn handle_key(&mut self, key: Key, now: u64) -> (w: ControlWrite)
        requires
            old(self).wf(),
        ensures
            final(self).wf(),
            final(self)@ == match key {
                Key::Space => if old(self)@.paused.is_some() {
                    unpaused_state(old(self)@, now as int)
                } else {
                    paused_state(old(self)@, now as int)
                },
                Key::R => seeked_state(old(self)@, 0, now as int),
                _ => old(self)@,
            },
            w == if !old(self)@.bound {
                ControlWrite::Nothing
            } else {
                match key {
                    Key::Space => if old(self)@.paused.is_some() {
                        ControlWrite::Rate(Transport::Playing)
                    } else {
                        ControlWrite::Rate(Transport::Paused)
                    },
                    Key::R => ControlWrite::Seek(0),
                    Key::ArrowUp => ControlWrite::Volume(VolumeStep::Up),
                    Key::ArrowDown => ControlWrite::Volume(VolumeStep::Down),
                    Key::Other => ControlWrite::Nothing,
                }
            },
    {
        match key {
            Key::Space => self.toggle_pause(now),
            Key::R => self.set_time(0, now),
            Key::ArrowUp => if self.bound {
                ControlWrite::Volume(VolumeStep::Up)
            } else {
                ControlWrite::Nothing
            },
            Key::ArrowDown => if self.bound {
                ControlWrite::Volume(VolumeStep::Down)
            } else {
                ControlWrite::Nothing
            },
            Key::Other => ControlWrite::Nothing,
        }
    }
}

/// Pausing at reading `t1`, then unpausing at any later or earlier reading
/// `t2`, resumes at the position held at `t1`, and the position advances
/// with the clock from there.
pub proof fn lemma_pause_round_trip(clock: PlaybackResource, t1: int, t2: int, t3: int)
    requires
        clock@.bound,
        t2 <= t3,
        elapsed_at(clock@, t1) + (t3 - t2) <= u64::MAX,
    ensures
        elapsed_at(unpaused_state(paused_state(clock@, t1), t2), t2) == elapsed_at(clock@, t1),
        elapsed_at(unpaused_state(paused_state(clock@, t1), t2), t3) == elapsed_at(clock@, t1) + (
        t3 - t2),
{
}

/// Seeking to `t` at reading `now` puts the position at `t` at that
/// reading, paused or not; a playing clock advances from `t`, a paused one
/// stays there.
pub proof fn lemma_seek_sets_position(clock: PlaybackResource, t: int, now: int, later: int)
    requires
        clock@.bound,
        0 <= t <= u64::MAX,
        now <= later,
        t + (later - now) <= u64::MAX,
    ensures
        elapsed_at(seeked_state(clock@, t, now), now) == t,
        elapsed_at(seeked_state(clock@, t, now), later) == if clock@.paused.is_some() {
            t
        } else {
            t + (later - now)
        },
{
}

} // verus!
