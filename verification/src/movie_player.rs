use vstd::prelude::*;

use crate::blankable_image_data_provider::BlankMode;
use crate::pixel::PixelFormat;

verus! {

/// The transport state of a player. Exactly one of the three holds at any
/// time; a fresh player starts out `Stopped`.
#[derive(Debug, Copy, Clone, PartialEq, Eq, Structural)]
pub enum PlayingState {
    Playing,
    Paused,
    Stopped,
}

/// What happens when playback reaches the end of the media: stop, wrap
/// around to the start, or pause just before the end.
#[derive(Debug, Copy, Clone, PartialEq, Eq, Structural)]
pub enum LoopMode {
    Stop,
    Loop,
    PauseAtEnd,
}

impl Default for LoopMode {
    fn default() -> (r: Self)
        ensures
            r == LoopMode::Stop,
    {
        LoopMode::Stop
    }
}

/// Spec-level image descriptor: the view of an [`ImageData`].
pub ghost struct ImageView {
    pub data: Seq<u8>,
    pub format: PixelFormat,
    pub resolution: (u32, u32),
}

/// A frame handed to the host: raw or compressed pixel bytes, the pixel
/// format tag they are in, and the width and height they describe.
pub struct ImageData {
    pub data: Vec<u8>,
    pub format: PixelFormat,
    pub resolution: (u32, u32),
}

impl View for ImageData {
    type V = ImageView;

    open spec fn view(&self) -> ImageView {
        ImageView { data: self.data@, format: self.format, resolution: self.resolution }
    }
}

impl ImageData {
    pub fn new(data: Vec<u8>, format: PixelFormat, resolution: (u32, u32)) -> (r: Self)
        ensures
            r@ == (ImageView { data: data@, format: format, resolution: resolution }),
    {
        Self { data, format, resolution }
    }

    pub fn get_width(&self) -> (r: u32)
        ensures
            r == self@.resolution.0,
    {
        self.resolution.0
    }

    pub fn get_height(&self) -> (r: u32)
        ensures
            r == self@.resolution.1,
    {
        self.resolution.1
    }
}

/// Reported when a seek target lay outside `[0, duration]`. The seek is not
/// dropped: it is clamped, and the position actually applied is carried here.
#[derive(Debug, Clone, PartialEq, Eq, Structural)]
pub struct SeekOutOfBoundsError {
    pub actual_seeked_position: u64,
}

/// When end-of-media is handled with [`LoopMode::PauseAtEnd`], the player
/// seeks to this many microseconds before the end rather than to the end
/// itself, so that the paused position still maps to a decodable frame.
pub const PAUSE_AT_END_EPSILON: u64 = 100;

/// The transport state machine shared by every backend.
///
/// All times are in microseconds, as reported by the host's monotonic clock.
/// The position is represented as an anchor clock value plus an accumulated
/// offset (`seek_position`), which keeps pause/resume exact no matter how
/// many ticks pass while paused.
pub struct MoviePlayerStateController {
    pub state: PlayingState,
    /// The clock value most recently handed in by the host.
    pub elapsed_time: u64,
    /// Clock value marking the origin of the current playing interval.
    pub play_started_time: Option<u64>,
    /// Clock value at which the current pause began.
    pub pause_started_time: Option<u64>,
    /// Accumulated position offset, in microseconds.
    pub seek_position: u64,
    pub loop_mode: LoopMode,
}

impl MoviePlayerStateController {
    /// The state a fresh controller starts in.
    pub open spec fn initial() -> Self {
        MoviePlayerStateController {
            state: PlayingState::Stopped,
            elapsed_time: 0,
            play_started_time: None,
            pause_started_time: None,
            seek_position: 0,
            loop_mode: LoopMode::Stop,
        }
    }

    /// Structural invariant. While stopped the transport is fully reset;
    /// while playing there is a play anchor no later than the recorded
    /// clock; while paused both anchors exist, agree, and are no later than
    /// the recorded clock.
    pub open spec fn wf(self) -> bool {
        &&& (self.state is Stopped ==> (self.seek_position == 0
            && self.play_started_time is None && self.pause_started_time is None))
        &&& (self.state is Playing ==> (self.play_started_time is Some
            && self.pause_started_time is None
            && self.play_started_time->0 <= self.elapsed_time))
        &&& (self.state is Paused ==> (self.play_started_time is Some
            && self.pause_started_time is Some
            && self.play_started_time == self.pause_started_time
            && self.pause_started_time->0 <= self.elapsed_time))
    }

    /// The playback position at clock value `t`: zero while stopped, the
    /// frozen offset while paused, and anchor-relative elapsed time plus the
    /// offset while playing.
    pub open spec fn spec_position(self, t: u64) -> int {
        match self.state {
            PlayingState::Stopped => 0,
            PlayingState::Paused => self.seek_position as int,
            PlayingState::Playing => (t - self.play_started_time->0) + self.seek_position,
        }
    }

    /// The position observed at the recorded clock stays within
    /// `[0, duration]`, and the accumulated offset never exceeds the
    /// duration.
    pub open spec fn position_ok(self, duration: u64) -> bool {
        &&& self.seek_position <= duration
        &&& self.spec_position(self.elapsed_time) <= duration
    }

    /// What `play` does: a no-op while playing; resuming from a pause moves
    /// the play anchor forward by the time spent paused; starting from
    /// stopped anchors at the current clock.
    pub open spec fn play_spec(self, t: u64) -> Self {
        if self.state is Playing {
            self
        } else if self.state is Paused {
            MoviePlayerStateController {
                state: PlayingState::Playing,
                elapsed_time: t,
                play_started_time: Some(
                    (self.play_started_time->0 + (t - self.pause_started_time->0)) as u64,
                ),
                pause_started_time: None,
                ..self
            }
        } else {
            MoviePlayerStateController {
                state: PlayingState::Playing,
                elapsed_time: t,
                play_started_time: Some(t),
                ..self
            }
        }
    }

    /// What `pause` does: a no-op unless playing; otherwise the elapsed play
    /// time is frozen into the offset and both anchors move to the current
    /// clock.
    pub open spec fn pause_spec(self, t: u64) -> Self {
        if self.state is Playing {
            MoviePlayerStateController {
                state: PlayingState::Paused,
                elapsed_time: t,
                seek_position: ((t - self.play_started_time->0) + self.seek_position) as u64,
                play_started_time: Some(t),
                pause_started_time: Some(t),
                ..self
            }
        } else {
            self
        }
    }

    /// What `stop` does: reset the offset and both anchors, from any state.
    pub open spec fn stop_spec(self) -> Self {
        MoviePlayerStateController {
            state: PlayingState::Stopped,
            seek_position: 0,
            play_started_time: None,
            pause_started_time: None,
            ..self
        }
    }

    /// What `seek` does: while stopped the transport stays reset; otherwise
    /// the target is clamped into `[0, duration]`, becomes the new offset,
    /// and the play anchor (and, while paused, the pause anchor) moves to
    /// the current clock.
    pub open spec fn seek_spec(self, to_time: u64, t: u64, duration: u64) -> Self {
        if self.state is Stopped {
            self
        } else {
            MoviePlayerStateController {
                elapsed_time: t,
                seek_position: if to_time > duration {
                    duration
                } else {
                    to_time
                },
                play_started_time: Some(t),
                pause_started_time: if self.state is Paused {
                    Some(t)
                } else {
                    self.pause_started_time
                },
                ..self
            }
        }
    }

    /// What `update` does: record the clock; if the position has reached the
    /// end of the media while playing, apply the loop mode. `PauseAtEnd`
    /// seeks to the end minus [`PAUSE_AT_END_EPSILON`] (saturating at zero
    /// for media shorter than the epsilon) and pauses there.
    pub open spec fn update_spec(self, t: u64, duration: u64) -> Self {
        let s = MoviePlayerStateController { elapsed_time: t, ..self };
        if s.state is Playing && s.spec_position(t) >= duration {
            match s.loop_mode {
                LoopMode::Stop => s.stop_spec(),
                LoopMode::Loop => s.seek_spec(0, t, duration),
                LoopMode::PauseAtEnd => {
                    let target = if duration >= PAUSE_AT_END_EPSILON {
                        (duration - PAUSE_AT_END_EPSILON) as u64
                    } else {
                        0u64
                    };
                    let s2 = s.seek_spec(target, t, duration);
                    MoviePlayerStateController {
                        state: PlayingState::Paused,
                        pause_started_time: Some(t),
                        ..s2
                    }
                },
            }
        } else {
            s
        }
    }

    /// Start or resume playback at clock value `elapsed_time`. Already
    /// playing this is a no-op.
    pub fn play(&mut self, elapsed_time: u64)
        requires
            old(self).wf(),
            elapsed_time >= old(self).elapsed_time,
        ensures
            final(self).wf(),
            *final(self) == old(self).play_spec(elapsed_time),
    {
        if self.state == PlayingState::Playing {
            return;
        } else if self.state == PlayingState::Paused {
            let paused_duration = elapsed_time - self.pause_started_time.unwrap();
            self.play_started_time = Some(self.play_started_time.unwrap() + paused_duration);
            self.pause_started_time = None;
            self.elapsed_time = elapsed_time;
        } else {
            self.play_started_time = Some(elapsed_time);
            self.elapsed_time = elapsed_time;
        }
        self.state = PlayingState::Playing;
    }

    /// Pause playback at clock value `elapsed_time`. Already paused or
    /// stopped this is a no-op.
    pub fn pause(&mut self, elapsed_time: u64)
        requires
            old(self).wf(),
            elapsed_time >= old(self).elapsed_time,
            old(self).state is Playing ==> old(self).spec_position(elapsed_time) <= u64::MAX,
        ensures
            final(self).wf(),
            *final(self) == old(self).pause_spec(elapsed_time),
    {
        if self.state == PlayingState::Paused {
            return;
        } else if self.state == PlayingState::Stopped {
            return;
        } else {
            self.state = PlayingState::Paused;
            self.pause_started_time = Some(elapsed_time);
            self.seek_position = (elapsed_time - self.play_started_time.unwrap())
                + self.seek_position;
            self.play_started_time = self.pause_started_time;
            self.elapsed_time = elapsed_time;
        }
    }

    /// Stop playback: the offset and both anchors are reset, from any state.
    pub fn stop(&mut self)
        ensures
            final(self).wf(),
            *final(self) == old(self).stop_spec(),
    {
        self.state = PlayingState::Stopped;
        self.seek_position = 0;
        self.play_started_time = None;
        self.pause_started_time = None;
    }

    /// Seek to `to_time`, clamped into `[0, movie_total_duration]`. A target
    /// beyond the duration is reported as an error carrying the position
    /// actually applied; an in-range target is echoed back as `Ok`.
    pub fn seek(&mut self, to_time: u64, elapsed_time: u64, movie_total_duration: u64) -> (r:
        Result<u64, SeekOutOfBoundsError>)
        requires
            old(self).wf(),
            elapsed_time >= old(self).elapsed_time,
        ensures
            final(self).wf(),
            *final(self) == old(self).seek_spec(to_time, elapsed_time, movie_total_duration),
            to_time > movie_total_duration ==> (r matches Err(e)
                && e.actual_seeked_position == movie_total_duration),
            to_time <= movie_total_duration ==> r == Ok::<u64, SeekOutOfBoundsError>(to_time),
    {
        if self.state == PlayingState::Stopped {
            if to_time > movie_total_duration {
                return Err(SeekOutOfBoundsError { actual_seeked_position: movie_total_duration });
            }
            return Ok(to_time);
        }
        if self.state == PlayingState::Paused {
            self.pause_started_time = Some(elapsed_time);
        }
        self.elapsed_time = elapsed_time;
        self.play_started_time = Some(elapsed_time);
        if to_time > movie_total_duration {
            self.seek_position = movie_total_duration;
            return Err(SeekOutOfBoundsError { actual_seeked_position: movie_total_duration });
        }
        self.seek_position = to_time;
        Ok(to_time)
    }

    pub fn get_state(&self) -> (r: PlayingState)
        ensures
            r == self.state,
    {
        self.state
    }

    /// The playback position at clock value `elapsed_time`.
    pub fn get_position(&self, elapsed_time: u64) -> (r: u64)
        requires
            self.wf(),
            elapsed_time >= self.elapsed_time,
            self.state is Playing ==> self.spec_position(elapsed_time) <= u64::MAX,
        ensures
            r == self.spec_position(elapsed_time),
    {
        match self.state {
            PlayingState::Stopped => 0,
            PlayingState::Paused => self.seek_position,
            PlayingState::Playing => (elapsed_time - self.play_started_time.unwrap())
                + self.seek_position,
        }
    }

    /// Record the clock and apply the loop mode if the end of the media has
    /// been reached while playing.
    pub fn update(&mut self, elapsed_time: u64, duration: u64)
        requires
            old(self).wf(),
            elapsed_time >= old(self).elapsed_time,
            old(self).state is Playing ==> old(self).spec_position(elapsed_time) <= u64::MAX,
        ensures
            final(self).wf(),
            *final(self) == old(self).update_spec(elapsed_time, duration),
    {
        self.elapsed_time = elapsed_time;
        if self.state == PlayingState::Playing {
            let position = self.get_position(elapsed_time);
            if position >= duration {
                match self.loop_mode {
                    LoopMode::Stop => {
                        self.stop();
                    },
                    LoopMode::Loop => {
                        let _r: Result<u64, SeekOutOfBoundsError> = self.seek(
                            0,
                            elapsed_time,
                            duration,
                        );
                    },
                    LoopMode::PauseAtEnd => {
                        let target = if duration >= PAUSE_AT_END_EPSILON {
                            duration - PAUSE_AT_END_EPSILON
                        } else {
                            0
                        };
                        let _r: Result<u64, SeekOutOfBoundsError> = self.seek(
                            target,
                            elapsed_time,
                            duration,
                        );
                        self.state = PlayingState::Paused;
                        self.pause_started_time = Some(elapsed_time);
                    },
                }
            }
        }
    }

    pub fn get_loop_mode(&self) -> (r: LoopMode)
        ensures
            r == self.loop_mode,
    {
        self.loop_mode
    }

    pub fn set_loop_mode(&mut self, loop_mode: LoopMode)
        ensures
            *final(self) == (MoviePlayerStateController { loop_mode: loop_mode, ..*old(self) }),
    {
        self.loop_mode = loop_mode;
    }

    pub fn is_playing(&self) -> (r: bool)
        ensures
            r == (self.state is Playing),
    {
        self.state == PlayingState::Playing
    }

    pub fn is_paused(&self) -> (r: bool)
        ensures
            r == (self.state is Paused),
    {
        self.state == PlayingState::Paused
    }

    pub fn is_stopped(&self) -> (r: bool)
        ensures
            r == (self.state is Stopped),
    {
        self.state == PlayingState::Stopped
    }
}

/// The position is never negative: whatever clock value (at or after the
/// recorded one) it is read at, `spec_position` is at least zero.
pub proof fn lemma_position_nonnegative(c: MoviePlayerStateController, t: u64)
    requires
        c.wf(),
        t >= c.elapsed_time,
    ensures
        c.spec_position(t) >= 0,
{
}

/// `play` keeps the observed position within `[0, duration]`: under the
/// controller invariant, if the position and offset were in bounds before,
/// they are in bounds after a `play` at any clock at or after the recorded
/// one. Resuming from a pause re-anchors so that the position picks up
/// exactly at the frozen offset.
pub proof fn lemma_play_keeps_position_bounded(
    c: MoviePlayerStateController,
    t: u64,
    duration: u64,
)
    requires
        c.wf(),
        c.position_ok(duration),
        t >= c.elapsed_time,
    ensures
        c.play_spec(t).wf(),
        c.play_spec(t).position_ok(duration),
{
}

/// `pause` at the recorded clock keeps the observed position within
/// `[0, duration]`: the offset it freezes is exactly the position at the
/// moment of pausing, which was in bounds.
pub proof fn lemma_pause_keeps_position_bounded(c: MoviePlayerStateController, duration: u64)
    requires
        c.wf(),
        c.position_ok(duration),
    ensures
        c.pause_spec(c.elapsed_time).wf(),
        c.pause_spec(c.elapsed_time).position_ok(duration),
{
}

/// `stop` keeps the observed position within `[0, duration]`: it resets the
/// position to zero from any state.
pub proof fn lemma_stop_keeps_position_bounded(c: MoviePlayerStateController, duration: u64)
    ensures
        c.stop_spec().wf(),
        c.stop_spec().position_ok(duration),
{
}

/// `seek` keeps the observed position within `[0, duration]`: the applied
/// offset is clamped into the range, and the play anchor moves to the
/// current clock, so the position equals the clamped offset.
pub proof fn lemma_seek_keeps_position_bounded(
    c: MoviePlayerStateController,
    to_time: u64,
    t: u64,
    duration: u64,
)
    requires
        c.wf(),
        t >= c.elapsed_time,
    ensures
        c.seek_spec(to_time, t, duration).wf(),
        c.seek_spec(to_time, t, duration).position_ok(duration),
{
}

/// `update` keeps the observed position within `[0, duration]`: if the end
/// of the media was reached, every loop mode brings the position back into
/// the range; otherwise the position at the new clock was below the
/// duration to begin with.
pub proof fn lemma_update_keeps_position_bounded(
    c: MoviePlayerStateController,
    t: u64,
    duration: u64,
)
    requires
        c.wf(),
        c.position_ok(duration),
        t >= c.elapsed_time,
    ensures
        c.update_spec(t, duration).wf(),
        c.update_spec(t, duration).position_ok(duration),
{
}

/// While playing, the position is non-decreasing in the clock.
pub proof fn lemma_position_nondecreasing_while_playing(
    c: MoviePlayerStateController,
    t1: u64,
    t2: u64,
)
    requires
        c.wf(),
        c.state is Playing,
        c.elapsed_time <= t1 <= t2,
    ensures
        c.spec_position(t1) <= c.spec_position(t2),
{
}

/// An `update` that does not hit the end of the media leaves the transport
/// fields untouched, so the position observed after the tick is no smaller
/// than the one observed before it.
pub proof fn lemma_update_position_nondecreasing(
    c: MoviePlayerStateController,
    t1: u64,
    t2: u64,
    duration: u64,
)
    requires
        c.wf(),
        c.state is Playing,
        t1 == c.elapsed_time,
        t1 <= t2,
        c.spec_position(t2) < duration,
    ensures
        c.update_spec(t2, duration) == (MoviePlayerStateController { elapsed_time: t2, ..c }),
        c.update_spec(t2, duration).spec_position(t2) >= c.spec_position(t1),
{
}

/// A transport command as a host issues it: `Play`, `Pause`, `Stop` and
/// `Seek` act at the last updated clock; `Update` carries the new clock
/// value of a tick.
pub enum TransportOp {
    Play,
    Pause,
    Stop,
    Seek(u64),
    Update(u64),
}

/// One transport command applied to a controller. An `Update` whose clock
/// would run backwards breaks the host's monotone-clock contract and is
/// modelled as having no effect.
pub open spec fn apply_op(
    c: MoviePlayerStateController,
    op: TransportOp,
    duration: u64,
) -> MoviePlayerStateController {
    match op {
        TransportOp::Play => c.play_spec(c.elapsed_time),
        TransportOp::Pause => c.pause_spec(c.elapsed_time),
        TransportOp::Stop => c.stop_spec(),
        TransportOp::Seek(to_time) => c.seek_spec(to_time, c.elapsed_time, duration),
        TransportOp::Update(t) => if t >= c.elapsed_time {
            c.update_spec(t, duration)
        } else {
            c
        },
    }
}

/// A whole sequence of transport commands applied in order.
pub open spec fn apply_ops(
    c: MoviePlayerStateController,
    ops: Seq<TransportOp>,
    duration: u64,
) -> MoviePlayerStateController
    decreases ops.len(),
{
    if ops.len() == 0 {
        c
    } else {
        apply_ops(apply_op(c, ops.first(), duration), ops.drop_first(), duration)
    }
}

/// For every sequence of play/pause/stop/seek commands interleaved with
/// monotone clock ticks, the controller invariant is preserved and the
/// observed position stays within `[0, duration]`.
pub proof fn lemma_position_bounded_for_all_sequences(
    c: MoviePlayerStateController,
    ops: Seq<TransportOp>,
    duration: u64,
)
    requires
        c.wf(),
        c.position_ok(duration),
    ensures
        apply_ops(c, ops, duration).wf(),
        apply_ops(c, ops, duration).position_ok(duration),
        0 <= apply_ops(c, ops, duration).spec_position(apply_ops(c, ops, duration).elapsed_time)
            <= duration,
    decreases ops.len(),
{
    if ops.len() == 0 {
        lemma_position_nonnegative(c, c.elapsed_time);
    } else {
        let c1 = apply_op(c, ops.first(), duration);
        match ops.first() {
            TransportOp::Play => lemma_play_keeps_position_bounded(c, c.elapsed_time, duration),
            TransportOp::Pause => lemma_pause_keeps_position_bounded(c, duration),
            TransportOp::Stop => lemma_stop_keeps_position_bounded(c, duration),
            TransportOp::Seek(to_time) => lemma_seek_keeps_position_bounded(
                c,
                to_time,
                c.elapsed_time,
                duration,
            ),
            TransportOp::Update(t) => if t >= c.elapsed_time {
                lemma_update_keeps_position_bounded(c, t, duration);
            },
        }
        lemma_position_bounded_for_all_sequences(c1, ops.drop_first(), duration);
    }
}

/// Stopping is idempotent: a second `stop` changes nothing, and after a
/// `stop` the state is `Stopped` with a zero offset and cleared anchors.
pub proof fn lemma_stop_idempotent(c: MoviePlayerStateController)
    ensures
        c.stop_spec().stop_spec() == c.stop_spec(),
        c.stop_spec().state is Stopped,
        c.stop_spec().seek_position == 0,
        c.stop_spec().play_started_time is None,
        c.stop_spec().pause_started_time is None,
{
}

/// Pause/resume exactness: play until `t1`, pause there, tick to `t2` while
/// paused, resume at `t3`. The position immediately after the resume equals
/// the position at the moment of pausing, independent of how long the pause
/// lasted. In particular, for a controller freshly played at `t0`, that
/// position is `t1 - t0`.
pub proof fn lemma_pause_resume_exact(
    c: MoviePlayerStateController,
    duration: u64,
    t1: u64,
    t2: u64,
    t3: u64,
)
    requires
        c.wf(),
        c.state is Playing,
        c.elapsed_time <= t1 <= t2 <= t3,
        c.spec_position(t1) < duration,
    ensures
        ({
            let s1 = c.update_spec(t1, duration);
            let s2 = s1.pause_spec(t1);
            let s3 = s2.update_spec(t2, duration);
            let s4 = s3.play_spec(t3);
            s4.state is Playing && s4.spec_position(t3) == c.spec_position(t1)
        }),
{
}

/// Seek clamp: a seek to any target beyond the duration applies exactly the
/// duration, and the position observed afterwards (pausing or playing) is
/// the duration. The accompanying error report is part of `seek`'s own
/// contract.
pub proof fn lemma_seek_clamp(c: MoviePlayerStateController, to_time: u64, t: u64, duration: u64)
    requires
        c.wf(),
        t >= c.elapsed_time,
        to_time > duration,
        !(c.state is Stopped),
    ensures
        ({
            let s = c.seek_spec(to_time, t, duration);
            &&& s.seek_position == duration
            &&& s.spec_position(s.elapsed_time) == duration
        }),
{
}

/// Loop wraparound: with `LoopMode::Loop`, an `update` that reaches the end
/// of the media wraps the position back to zero and keeps playing.
pub proof fn lemma_loop_wraparound(c: MoviePlayerStateController, t: u64, duration: u64)
    requires
        c.wf(),
        c.state is Playing,
        c.loop_mode is Loop,
        t >= c.elapsed_time,
        c.spec_position(t) >= duration,
    ensures
        c.update_spec(t, duration).wf(),
        c.update_spec(t, duration).state is Playing,
        c.update_spec(t, duration).spec_position(t) == 0,
{
}

/// PauseAtEnd: with `LoopMode::PauseAtEnd`, an `update` that reaches the end
/// of the media pauses one epsilon before the duration. A following `play`
/// resumes playing at that same position, and the immediately following
/// `update` at the resume clock is a no-op: end-of-media is not re-triggered
/// before the clock has advanced further.
pub proof fn lemma_pause_at_end(c: MoviePlayerStateController, t: u64, t2: u64, duration: u64)
    requires
        c.wf(),
        c.state is Playing,
        c.loop_mode is PauseAtEnd,
        c.elapsed_time <= t <= t2,
        c.spec_position(t) >= duration,
        duration >= PAUSE_AT_END_EPSILON,
    ensures
        ({
            let s = c.update_spec(t, duration);
            let r = s.play_spec(t2);
            &&& s.state is Paused
            &&& duration - s.spec_position(s.elapsed_time) == PAUSE_AT_END_EPSILON
            &&& r.state is Playing
            &&& r.spec_position(t2) == duration - PAUSE_AT_END_EPSILON
            &&& r.update_spec(t2, duration) == r
        }),
{
}

impl Default for MoviePlayerStateController {
    fn default() -> (r: Self)
        ensures
            r == Self::initial(),
            r.wf(),
    {
        MoviePlayerStateController {
            state: PlayingState::Stopped,
            elapsed_time: 0,
            play_started_time: None,
            pause_started_time: None,
            seek_position: 0,
            loop_mode: LoopMode::Stop,
        }
    }
}

/// A player: the transport state machine, a blanking mode, the media's
/// duration and resolution as reported by the backend at load time, and the
/// backend's frame provider, over which the player is generic.
///
/// The transport methods mirror the controller but take their clock from the
/// last `update`, the way a host drives a player: one `update(clock)` per
/// tick, transport commands in between.
pub struct MoviePlayer<T> {
    pub frame_provider: T,
    pub state_controller: MoviePlayerStateController,
    pub blank_mode: BlankMode,
    /// Total duration of the media, in microseconds.
    pub duration: u64,
    /// Width and height of the media's frames, in pixels.
    pub resolution: (u32, u32),
}

impl<T> MoviePlayer<T> {
    /// Player invariant: the controller invariant holds and the position it
    /// reports stays within `[0, duration]`.
    pub open spec fn wf(self) -> bool {
        &&& self.state_controller.wf()
        &&& self.state_controller.position_ok(self.duration)
    }

    /// Everything but the transport state is as it was: the provider, the
    /// blanking mode and the media metadata of `post` match `pre`.
    pub open spec fn same_media(pre: Self, post: Self) -> bool {
        &&& post.frame_provider == pre.frame_provider
        &&& post.blank_mode == pre.blank_mode
        &&& post.duration == pre.duration
        &&& post.resolution == pre.resolution
    }

    /// Wrap a backend's frame provider and reported metadata into a stopped
    /// player with the default blanking mode.
    pub fn new(frame_provider: T, duration: u64, resolution: (u32, u32)) -> (r: Self)
        ensures
            r.wf(),
            r.state_controller == MoviePlayerStateController::initial(),
            r.blank_mode == BlankMode::LastFrameOnPause_FirstFrameOnStop,
            r.duration == duration,
            r.resolution == resolution,
    {
        MoviePlayer {
            frame_provider,
            state_controller: Default::default(),
            blank_mode: Default::default(),
            duration,
            resolution,
        }
    }

    /// Start or resume playback at the last updated clock.
    pub fn play(&mut self)
        requires
            old(self).wf(),
        ensures
            final(self).wf(),
            Self::same_media(*old(self), *final(self)),
            final(self).state_controller == old(self).state_controller.play_spec(
                old(self).state_controller.elapsed_time,
            ),
    {
        let t = self.state_controller.elapsed_time;
        proof {
            lemma_play_keeps_position_bounded(self.state_controller, t, self.duration);
        }
        self.state_controller.play(t);
    }

    /// Pause playback at the last updated clock.
    pub fn pause(&mut self)
        requires
            old(self).wf(),
        ensures
            final(self).wf(),
            Self::same_media(*old(self), *final(self)),
            final(self).state_controller == old(self).state_controller.pause_spec(
                old(self).state_controller.elapsed_time,
            ),
    {
        let t = self.state_controller.elapsed_time;
        proof {
            lemma_pause_keeps_position_bounded(self.state_controller, self.duration);
        }
        self.state_controller.pause(t);
    }

    /// Stop playback.
    pub fn stop(&mut self)
        requires
            old(self).wf(),
        ensures
            final(self).wf(),
            Self::same_media(*old(self), *final(self)),
            final(self).state_controller == old(self).state_controller.stop_spec(),
    {
        proof {
            lemma_stop_keeps_position_bounded(self.state_controller, self.duration);
        }
        self.state_controller.stop();
    }

    /// Seek to `to_time` (microseconds), clamped into `[0, duration]`; an
    /// out-of-range target is reported with the position actually applied.
    pub fn seek(&mut self, to_time: u64) -> (r: Result<u64, SeekOutOfBoundsError>)
        requires
            old(self).wf(),
        ensures
            final(self).wf(),
            Self::same_media(*old(self), *final(self)),
            final(self).state_controller == old(self).state_controller.seek_spec(
                to_time,
                old(self).state_controller.elapsed_time,
                old(self).duration,
            ),
            to_time > old(self).duration ==> (r matches Err(e) && e.actual_seeked_position == old(
                self,
            ).duration),
            to_time <= old(self).duration ==> r == Ok::<u64, SeekOutOfBoundsError>(to_time),
    {
        let t = self.state_controller.elapsed_time;
        let duration = self.duration;
        proof {
            lemma_seek_keeps_position_bounded(self.state_controller, to_time, t, duration);
        }
        self.state_controller.seek(to_time, t, duration)
    }

    /// Record the host clock (microseconds, monotone) and handle
    /// end-of-media according to the loop mode.
    pub fn update(&mut self, elapsed_time: u64)
        requires
            old(self).wf(),
            elapsed_time >= old(self).state_controller.elapsed_time,
            old(self).state_controller.state is Playing ==> old(
                self,
            ).state_controller.spec_position(elapsed_time) <= u64::MAX,
        ensures
            final(self).wf(),
            Self::same_media(*old(self), *final(self)),
            final(self).state_controller == old(self).state_controller.update_spec(
                elapsed_time,
                old(self).duration,
            ),
    {
        let duration = self.duration;
        proof {
            lemma_update_keeps_position_bounded(self.state_controller, elapsed_time, duration);
        }
        self.state_controller.update(elapsed_time, duration);
    }

    /// The playback position at the last updated clock; always within
    /// `[0, duration]`.
    pub fn get_position(&self) -> (r: u64)
        requires
            self.wf(),
        ensures
            r == self.state_controller.spec_position(self.state_controller.elapsed_time),
            r <= self.duration,
    {
        self.state_controller.get_position(self.state_controller.elapsed_time)
    }

    pub fn get_state(&self) -> (r: PlayingState)
        ensures
            r == self.state_controller.state,
    {
        self.state_controller.get_state()
    }

    /// Total duration of the media, in microseconds.
    pub fn get_duration(&self) -> (r: u64)
        ensures
            r == self.duration,
    {
        self.duration
    }

    /// Width and height of the media's frames, in pixels.
    pub fn get_resolution(&self) -> (r: (u32, u32))
        ensures
            r == self.resolution,
    {
        self.resolution
    }

    pub fn get_loop_mode(&self) -> (r: LoopMode)
        ensures
            r == self.state_controller.loop_mode,
    {
        self.state_controller.get_loop_mode()
    }

    pub fn set_loop_mode(&mut self, loop_mode: LoopMode)
        requires
            old(self).wf(),
        ensures
            final(self).wf(),
            *final(self) == (MoviePlayer {
                state_controller: MoviePlayerStateController {
                    loop_mode: loop_mode,
                    ..old(self).state_controller
                },
                ..*old(self)
            }),
    {
        self.state_controller.set_loop_mode(loop_mode);
    }

    pub fn get_blank_mode(&self) -> (r: BlankMode)
        ensures
            r == self.blank_mode,
    {
        self.blank_mode
    }

    pub fn set_blank_mode(&mut self, blank_mode: BlankMode)
        requires
            old(self).wf(),
        ensures
            final(self).wf(),
            *final(self) == (MoviePlayer { blank_mode: blank_mode, ..*old(self) }),
    {
        self.blank_mode = blank_mode;
    }

    pub fn is_playing(&self) -> (r: bool)
        ensures
            r == (self.state_controller.state is Playing),
    {
        self.state_controller.is_playing()
    }

    pub fn is_paused(&self) -> (r: bool)
        ensures
            r == (self.state_controller.state is Paused),
    {
        self.state_controller.is_paused()
    }

    pub fn is_stopped(&self) -> (r: bool)
        ensures
            r == (self.state_controller.state is Stopped),
    {
        self.state_controller.is_stopped()
    }
}

} // verus!
