//! Input replay: a recorder captures the keys of every frame, and playback
//! hands them back, frame by frame, in the order they were captured.

use vstd::prelude::*;
use crate::keycode::KeyCode;

verus! {

/// Current replay format version.
pub const REPLAY_VERSION: u32 = 1;

/// Frames a recorder keeps by default: ten minutes at sixty frames a second.
pub const DEFAULT_MAX_FRAMES: usize = 36000;

/// Header at the start of every replay.
#[derive(Debug, Clone, Copy, PartialEq, Eq, Structural)]
pub struct ReplayHeader {
    pub version: u32,
    pub mission_seed: u64,
    pub total_frames: u32,
}

impl Default for ReplayHeader {
    fn default() -> (r: Self)
        ensures
            r == (ReplayHeader { version: REPLAY_VERSION, mission_seed: 0, total_frames: 0 }),
    {
        ReplayHeader { version: REPLAY_VERSION, mission_seed: 0, total_frames: 0 }
    }
}

/// Keys of one frame, as plain sequences.
pub struct ReplayFrameView {
    pub keys_pressed: Seq<KeyCode>,
    pub keys_released: Seq<KeyCode>,
}

/// Keys held and keys released during one frame.
#[derive(Debug)]
pub struct ReplayFrame {
    pub keys_pressed: Vec<KeyCode>,
    pub keys_released: Vec<KeyCode>,
}

impl View for ReplayFrame {
    type V = ReplayFrameView;

    open spec fn view(&self) -> ReplayFrameView {
        ReplayFrameView { keys_pressed: self.keys_pressed@, keys_released: self.keys_released@ }
    }
}

impl Clone for ReplayFrame {
    fn clone(&self) -> (r: Self)
        ensures
            r@ == self@,
    {
        ReplayFrame { keys_pressed: self.keys_pressed.clone(), keys_released: self.keys_released.clone() }
    }
}

impl Default for ReplayFrame {
    fn default() -> (r: Self)
        ensures
            r@.keys_pressed.len() == 0,
            r@.keys_released.len() == 0,
    {
        ReplayFrame { keys_pressed: Vec::new(), keys_released: Vec::new() }
    }
}

/// A whole replay as plain values.
pub struct ReplayDataView {
    pub header: ReplayHeader,
    pub frames: Seq<ReplayFrameView>,
}

/// Full replay: header and frames.
#[derive(Debug)]
pub struct ReplayData {
    pub header: ReplayHeader,
    pub frames: Vec<ReplayFrame>,
}

impl View for ReplayData {
    type V = ReplayDataView;

    open spec fn view(&self) -> ReplayDataView {
        ReplayDataView { header: self.header, frames: self.frames@.map_values(|f: ReplayFrame| f@) }
    }
}

fn clone_frames(frames: &Vec<ReplayFrame>) -> (r: Vec<ReplayFrame>)
    ensures
        r@.map_values(|f: ReplayFrame| f@) == frames@.map_values(|f: ReplayFrame| f@),
{
    let mut r: Vec<ReplayFrame> = Vec::new();
    let mut i: usize = 0;
    while i < frames.len()
        invariant
            i <= frames@.len(),
            r@.len() == i,
            forall|j: int| 0 <= j < i ==> #[trigger] r@[j]@ == frames@[j]@,
        decreases frames@.len() - i,
    {
        r.push(frames[i].clone());
        i = i + 1;
    }
    assert(r@.map_values(|f: ReplayFrame| f@) =~= frames@.map_values(|f: ReplayFrame| f@));
    r
}

impl Clone for ReplayData {
    fn clone(&self) -> (r: Self)
        ensures
            r@ == self@,
    {
        ReplayData { header: self.header, frames: clone_frames(&self.frames) }
    }
}

impl Default for ReplayData {
    fn default() -> (r: Self)
        ensures
            r@.header == (ReplayHeader { version: REPLAY_VERSION, mission_seed: 0, total_frames: 0 }),
            r@.frames.len() == 0,
    {
        ReplayData { header: ReplayHeader::default(), frames: Vec::new() }
    }
}

/// The plain value of an optional replay.
pub open spec fn data_view_opt(o: Option<ReplayData>) -> Option<ReplayDataView> {
    match o {
        Some(d) => Some(d@),
        None => None,
    }
}

/// The plain value of an optional frame.
pub open spec fn frame_view_opt(o: Option<ReplayFrame>) -> Option<ReplayFrameView> {
    match o {
        Some(f) => Some(f@),
        None => None,
    }
}

/// A recorder as plain values.
pub struct RecorderView {
    pub active: bool,
    pub full: bool,
    pub data: ReplayDataView,
    pub max_frames: nat,
}

/// Effect of `ReplayRecorder::start`.
pub open spec fn recorder_start_spec(r: RecorderView, seed: u64) -> RecorderView {
    RecorderView {
        active: true,
        full: false,
        data: ReplayDataView {
            header: ReplayHeader { version: REPLAY_VERSION, mission_seed: seed, total_frames: 0 },
            frames: Seq::empty(),
        },
        max_frames: r.max_frames,
    }
}

/// Effect of `ReplayRecorder::record_frame`: a frame that arrives once
/// `max_frames` frames are held is dropped and the recorder is marked full;
/// what it holds is kept for `stop`.
pub open spec fn recorder_record_spec(r: RecorderView, f: ReplayFrameView) -> RecorderView {
    if !r.active {
        r
    } else if r.data.frames.len() >= r.max_frames {
        RecorderView { full: true, ..r }
    } else {
        RecorderView { data: ReplayDataView { frames: r.data.frames.push(f), ..r.data }, ..r }
    }
}

/// Effect of `ReplayRecorder::stop`: the new recorder and the replay taken.
pub open spec fn recorder_stop_spec(r: RecorderView) -> (RecorderView, Option<ReplayDataView>) {
    if !r.active {
        (r, None)
    } else {
        let data = ReplayDataView {
            header: ReplayHeader { total_frames: r.data.frames.len() as u32, ..r.data.header },
            frames: r.data.frames,
        };
        (RecorderView { active: false, data, ..r }, Some(data))
    }
}

/// Records gameplay input for later playback. `full` tells that a frame
/// arrived once `max_frames` were held: capture has ended, and `stop` still
/// hands back everything captured.
#[derive(Debug)]
pub struct ReplayRecorder {
    pub active: bool,
    pub full: bool,
    pub data: ReplayData,
    pub max_frames: usize,
}

impl View for ReplayRecorder {
    type V = RecorderView;

    open spec fn view(&self) -> RecorderView {
        RecorderView {
            active: self.active,
            full: self.full,
            data: self.data@,
            max_frames: self.max_frames as nat,
        }
    }
}

impl Default for ReplayRecorder {
    fn default() -> (r: Self)
        ensures
            !r@.active,
            !r@.full,
            r@.max_frames == DEFAULT_MAX_FRAMES,
            r@.data.frames.len() == 0,
    {
        ReplayRecorder {
            active: false,
            full: false,
            data: ReplayData::default(),
            max_frames: DEFAULT_MAX_FRAMES,
        }
    }
}

impl ReplayRecorder {
    /// Start a new recording for the given mission seed.
    pub fn start(&mut self, mission_seed: u64)
        ensures
            final(self)@ == recorder_start_spec(old(self)@, mission_seed),
    {
        self.active = true;
        self.full = false;
        self.data = ReplayData {
            header: ReplayHeader { version: REPLAY_VERSION, mission_seed, total_frames: 0 },
            frames: Vec::with_capacity(3600),
        };
        assert(self.data@.frames =~= Seq::<ReplayFrameView>::empty());
    }

    /// Stop recording and return the captured replay, if recording.
    pub fn stop(&mut self) -> (r: Option<ReplayData>)
        ensures
            (final(self)@, data_view_opt(r)) == recorder_stop_spec(old(self)@),
    {
        if !self.active {
            return None;
        }
        self.active = false;
        self.data.header.total_frames = self.data.frames.len() as u32;
        Some(self.data.clone())
    }

    /// Record one frame: the keys held and the keys released this frame.
    /// Once `max_frames` frames are held, further frames are dropped and the
    /// recorder is marked full; the frames held stay for `stop`.
    pub fn record_frame(&mut self, keys_pressed: Vec<KeyCode>, keys_released: Vec<KeyCode>)
        ensures
            final(self)@ == recorder_record_spec(
                old(self)@,
                ReplayFrameView { keys_pressed: keys_pressed@, keys_released: keys_released@ },
            ),
    {
        if !self.active {
            return;
        }
        if self.data.frames.len() >= self.max_frames {
            self.full = true;
            return;
        }
        let ghost before = self.data@.frames;
        let frame = ReplayFrame { keys_pressed, keys_released };
        self.data.frames.push(frame);
        assert(self.data@.frames =~= before.push(
            ReplayFrameView { keys_pressed: keys_pressed@, keys_released: keys_released@ },
        ));
    }
}

/// A playback as plain values.
pub struct PlaybackView {
    pub active: bool,
    pub current_frame: nat,
    pub total_frames: nat,
    pub data: Option<ReplayDataView>,
}

/// Effect of `ReplayPlayback::start`.
pub open spec fn playback_start_spec(d: ReplayDataView) -> PlaybackView {
    PlaybackView { active: true, current_frame: 0, total_frames: d.frames.len(), data: Some(d) }
}

/// Effect of `ReplayPlayback::tick`: the new playback and the frame handed out.
pub open spec fn playback_tick_spec(p: PlaybackView) -> (PlaybackView, Option<ReplayFrameView>) {
    if !p.active {
        (p, None)
    } else {
        match p.data {
            None => (p, None),
            Some(d) => if p.current_frame >= p.total_frames {
                (PlaybackView { active: false, ..p }, None)
            } else {
                (PlaybackView { current_frame: p.current_frame + 1, ..p }, Some(d.frames[p.current_frame as int]))
            },
        }
    }
}

/// Drives replay playback.
#[derive(Debug, Default)]
pub struct ReplayPlayback {
    pub active: bool,
    pub current_frame: usize,
    pub total_frames: usize,
    pub data: Option<ReplayData>,
}

impl View for ReplayPlayback {
    type V = PlaybackView;

    open spec fn view(&self) -> PlaybackView {
        PlaybackView {
            active: self.active,
            current_frame: self.current_frame as nat,
            total_frames: self.total_frames as nat,
            data: data_view_opt(self.data),
        }
    }
}

impl ReplayPlayback {
    /// Load a replay and start playback from its first frame.
    pub fn start(&mut self, data: ReplayData)
        ensures
            final(self)@ == playback_start_spec(data@),
    {
        self.total_frames = data.frames.len();
        self.data = Some(data);
        self.current_frame = 0;
        self.active = true;
    }

    /// Stop playback and drop the replay.
    pub fn stop(&mut self)
        ensures
            !final(self)@.active,
            final(self)@.current_frame == 0,
            final(self)@.data is None,
            final(self)@.total_frames == old(self)@.total_frames,
    {
        self.active = false;
        self.current_frame = 0;
        self.data = None;
    }

    /// Advance one frame and return its keys; `None` once the replay is over.
    pub fn tick(&mut self) -> (r: Option<ReplayFrame>)
        requires
            old(self)@.data matches Some(d) ==> old(self)@.total_frames <= d.frames.len(),
        ensures
            (final(self)@, frame_view_opt(r)) == playback_tick_spec(old(self)@),
    {
        if !self.active {
            return None;
        }
        let frame = match &self.data {
            None => {
                return None;
            },
            Some(data) => {
                if self.current_frame >= self.total_frames {
                    None
                } else {
                    Some(data.frames[self.current_frame].clone())
                }
            },
        };
        match frame {
            None => {
                self.active = false;
                None
            },
            Some(f) => {
                self.current_frame = self.current_frame + 1;
                Some(f)
            },
        }
    }
}


/// Recording every frame of `fs`, in order.
pub open spec fn record_all(r: RecorderView, fs: Seq<ReplayFrameView>) -> RecorderView
    decreases fs.len(),
{
    if fs.len() == 0 {
        r
    } else {
        recorder_record_spec(record_all(r, fs.drop_last()), fs.last())
    }
}

/// Ticking a playback `n` times: the final playback and what each tick
/// handed out.
pub open spec fn tick_n(p: PlaybackView, n: nat) -> (PlaybackView, Seq<Option<ReplayFrameView>>)
    decreases n,
{
    if n == 0 {
        (p, Seq::empty())
    } else {
        let (q, out) = tick_n(p, (n - 1) as nat);
        let (q2, o) = playback_tick_spec(q);
        (q2, out.push(o))
    }
}

/// The frames a recording keeps of `fs` when it has room for `room` more:
/// the first `room` of them.
pub open spec fn captured(fs: Seq<ReplayFrameView>, room: int) -> Seq<ReplayFrameView> {
    if fs.len() <= room {
        fs
    } else {
        fs.take(room)
    }
}

proof fn lemma_record_all(r: RecorderView, fs: Seq<ReplayFrameView>)
    requires
        r.active,
        r.data.frames.len() <= r.max_frames,
    ensures
        record_all(r, fs) == (RecorderView {
            full: r.full || fs.len() > r.max_frames - r.data.frames.len(),
            data: ReplayDataView {
                frames: r.data.frames + captured(fs, r.max_frames - r.data.frames.len()),
                ..r.data
            },
            ..r
        }),
    decreases fs.len(),
{
    let room = r.max_frames - r.data.frames.len();
    if fs.len() == 0 {
        assert(r.data.frames + captured(fs, room) =~= r.data.frames);
    } else {
        let t = fs.drop_last();
        lemma_record_all(r, t);
        if fs.len() <= room {
            assert(captured(t, room) == t);
            assert((r.data.frames + t).push(fs.last()) =~= r.data.frames + fs);
        } else {
            assert(captured(t, room) =~= fs.take(room));
        }
    }
}

/// An active recorder that has room keeps every frame it is given, in order.
pub proof fn law_recording_keeps_frames_in_order(r: RecorderView, fs: Seq<ReplayFrameView>)
    requires
        r.active,
        r.data.frames.len() + fs.len() <= r.max_frames,
    ensures
        record_all(r, fs).active,
        record_all(r, fs).data.frames == r.data.frames + fs,
        record_all(r, fs).data.header == r.data.header,
{
    lemma_record_all(r, fs);
}

/// A recording that is started, fed `fs` and stopped yields the frames it
/// had room for (all of `fs` within its frame limit, else the first
/// `max_frames` of them), under a header naming the seed and the count.
/// Reaching the limit ends capture but loses nothing captured.
pub proof fn law_recording_captures_session(r: RecorderView, seed: u64, fs: Seq<ReplayFrameView>)
    ensures
        recorder_stop_spec(record_all(recorder_start_spec(r, seed), fs)).1 == Some(ReplayDataView {
            header: ReplayHeader {
                version: REPLAY_VERSION,
                mission_seed: seed,
                total_frames: captured(fs, r.max_frames as int).len() as u32,
            },
            frames: captured(fs, r.max_frames as int),
        }),
        !recorder_stop_spec(record_all(recorder_start_spec(r, seed), fs)).0.active,
        record_all(recorder_start_spec(r, seed), fs).full == (fs.len() > r.max_frames),
{
    let s = recorder_start_spec(r, seed);
    lemma_record_all(s, fs);
    assert(Seq::<ReplayFrameView>::empty() + captured(fs, r.max_frames as int) =~= captured(
        fs,
        r.max_frames as int,
    ));
}

/// A full recorder takes no more frames, keeps the ones it holds, and still
/// hands them back on `stop`.
pub proof fn law_full_recorder_keeps_its_frames(r: RecorderView, f: ReplayFrameView)
    requires
        r.active,
        r.data.frames.len() >= r.max_frames,
    ensures
        recorder_record_spec(r, f).active,
        recorder_record_spec(r, f).full,
        recorder_record_spec(r, f).data == r.data,
        recorder_stop_spec(recorder_record_spec(r, f)).1 == recorder_stop_spec(r).1,
        recorder_stop_spec(recorder_record_spec(r, f)).1 is Some,
{
}

proof fn lemma_tick_n(d: ReplayDataView, n: nat)
    requires
        n <= d.frames.len(),
    ensures
        tick_n(playback_start_spec(d), n).0 == (PlaybackView {
            active: true,
            current_frame: n,
            total_frames: d.frames.len(),
            data: Some(d),
        }),
        tick_n(playback_start_spec(d), n).1 == d.frames.take(n as int).map_values(|f: ReplayFrameView| Some(f)),
    decreases n,
{
    if n > 0 {
        lemma_tick_n(d, (n - 1) as nat);
        assert(d.frames.take((n - 1) as int).map_values(|f: ReplayFrameView| Some(f)).push(Some(d.frames[n - 1]))
            =~= d.frames.take(n as int).map_values(|f: ReplayFrameView| Some(f)));
    } else {
        assert(d.frames.take(0).map_values(|f: ReplayFrameView| Some(f)) =~= Seq::<Option<ReplayFrameView>>::empty());
    }
}

/// Playback hands out the replay's frames in order, one per tick, and then
/// reports the end and goes inactive.
pub proof fn law_playback_replays_frames_in_order(d: ReplayDataView)
    ensures
        tick_n(playback_start_spec(d), d.frames.len()).1
            == d.frames.map_values(|f: ReplayFrameView| Some(f)),
        playback_tick_spec(tick_n(playback_start_spec(d), d.frames.len()).0).1 is None,
        !playback_tick_spec(tick_n(playback_start_spec(d), d.frames.len()).0).0.active,
{
    lemma_tick_n(d, d.frames.len());
    assert(d.frames.take(d.frames.len() as int) =~= d.frames);
}

/// Recording a session and playing it back yields the recorded frames (those
/// within the frame limit), in the order they were recorded.
pub proof fn law_record_then_replay(r: RecorderView, seed: u64, fs: Seq<ReplayFrameView>)
    ensures
        recorder_stop_spec(record_all(recorder_start_spec(r, seed), fs)).1 matches Some(d) && tick_n(
            playback_start_spec(d),
            captured(fs, r.max_frames as int).len(),
        ).1 == captured(fs, r.max_frames as int).map_values(|f: ReplayFrameView| Some(f)),
{
    law_recording_captures_session(r, seed, fs);
    let d = recorder_stop_spec(record_all(recorder_start_spec(r, seed), fs)).1->0;
    law_playback_replays_frames_in_order(d);
}

} // verus!
