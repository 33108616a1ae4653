use vstd::prelude::*;

verus! {

/// Chunk length in seconds.
pub const CHUNK_SECONDS: u64 = 5;

/// Where chunk files go, and the name each one gets.
pub struct AudioRecorder {
    base_dir: String,
}

impl AudioRecorder {
    pub closed spec fn dir(&self) -> Seq<char> {
        self.base_dir@
    }

    /// A recorder that writes its chunks into `base_dir`.
    pub fn new(base_dir: String) -> (r: Self)
        ensures
            r.dir() == base_dir@,
    {
        AudioRecorder { base_dir }
    }

    pub fn get_base_dir(&self) -> (r: String)
        ensures
            r@ == self.dir(),
    {
        self.base_dir.clone()
    }
}

/// The decimal digit `d`.
pub open spec fn digit_char(d: nat) -> char {
    if d == 0 { '0' }
    else if d == 1 { '1' }
    else if d == 2 { '2' }
    else if d == 3 { '3' }
    else if d == 4 { '4' }
    else if d == 5 { '5' }
    else if d == 6 { '6' }
    else if d == 7 { '7' }
    else if d == 8 { '8' }
    else { '9' }
}

/// `n` written in decimal, without leading zeros.
pub open spec fn decimal(n: nat) -> Seq<char>
    decreases n,
{
    if n < 10 {
        seq![digit_char(n)]
    } else {
        decimal(n / 10) + seq![digit_char(n % 10)]
    }
}

/// The file name of the chunk opened at `ts_ms`: "chunk_<ts_ms>.wav".
pub open spec fn chunk_name(ts_ms: nat) -> Seq<char> {
    seq!['c', 'h', 'u', 'n', 'k', '_'] + decimal(ts_ms) + seq!['.', 'w', 'a', 'v']
}

fn digit_str(d: u64) -> (r: &'static str)
    requires
        d < 10,
    ensures
        r@ == seq![digit_char(d as nat)],
{
    proof {
        reveal_strlit("0");
        reveal_strlit("1");
        reveal_strlit("2");
        reveal_strlit("3");
        reveal_strlit("4");
        reveal_strlit("5");
        reveal_strlit("6");
        reveal_strlit("7");
        reveal_strlit("8");
        reveal_strlit("9");
    }
    let r = if d == 0 { "0" }
    else if d == 1 { "1" }
    else if d == 2 { "2" }
    else if d == 3 { "3" }
    else if d == 4 { "4" }
    else if d == 5 { "5" }
    else if d == 6 { "6" }
    else if d == 7 { "7" }
    else if d == 8 { "8" }
    else { "9" };
    assert(r@ =~= seq![digit_char(d as nat)]);
    r
}

/// Appends `n` in decimal to `s`.
pub fn append_decimal(s: &mut String, n: u64)
    ensures
        final(s)@ == old(s)@ + decimal(n as nat),
    decreases n,
{
    if n >= 10 {
        append_decimal(s, n / 10);
    }
    s.append(digit_str(n % 10));
    proof {
        if n >= 10 {
            assert(decimal(n as nat) == decimal((n / 10) as nat) + seq![digit_char((n % 10) as nat)]);
        }
        assert(final(s)@ =~= old(s)@ + decimal(n as nat));
    }
}

/// The file name of a chunk opened at `ts_ms` milliseconds since the epoch.
pub fn chunk_file_name(ts_ms: u64) -> (r: String)
    ensures
        r@ == chunk_name(ts_ms as nat),
{
    let mut s = String::from_str("chunk_");
    proof {
        reveal_strlit("chunk_");
        reveal_strlit(".wav");
    }
    append_decimal(&mut s, ts_ms);
    s.append(".wav");
    assert(s@ =~= chunk_name(ts_ms as nat));
    s
}

/// Interleaved samples per chunk: `sample_rate × channels × seconds`, or
/// `None` where that does not fit in 64 bits.
pub fn samples_per_chunk(sample_rate: u32, channels: u16, seconds: u64) -> (r: Option<u64>)
    ensures
        r is Some <==> sample_rate * channels * seconds <= u64::MAX,
        r is Some ==> r->Some_0 == sample_rate * channels * seconds,
{
    proof {
        assert(sample_rate * channels <= 0xffff_ffffint * 0xffffint) by (nonlinear_arith)
            requires
                sample_rate <= 0xffff_ffffint,
                channels <= 0xffffint,
                0 <= sample_rate,
                0 <= channels,
        ;
    }
    let a = (sample_rate as u64) * (channels as u64);
    a.checked_mul(seconds)
}

/// What the capture callback does with one frame.
#[derive(PartialEq, Eq, Structural, Clone, Copy, Debug)]
pub enum FrameAction {
    /// Not recording: the frame is dropped and nothing changes.
    Drop,
    /// No chunk is open: open one, then write.
    Open,
    /// The open chunk is full: close it, open the next one, then write.
    Rotate,
    /// Append to the open chunk.
    Write,
}

/// The shared capture state guarded by one lock: the recording flag, whether
/// a chunk file is open, how many samples it holds, the rotation threshold,
/// and the timestamp of the last chunk opened.
pub struct ChunkWriterState {
    pub recording: bool,
    pub has_sink: bool,
    pub samples: u64,
    pub threshold: u64,
    pub last_stamp_ms: u64,
}

/// The action for the next frame in state `s`.
pub open spec fn frame_action(s: ChunkWriterState) -> FrameAction {
    if !s.recording {
        FrameAction::Drop
    } else if !s.has_sink {
        FrameAction::Open
    } else if s.samples >= s.threshold {
        FrameAction::Rotate
    } else {
        FrameAction::Write
    }
}

/// Once stopped, capture stays closed: every frame is dropped, and dropping a
/// frame changes nothing, so no chunk file is opened until the next start.
pub proof fn lemma_stopped_capture_stays_closed(s: ChunkWriterState)
    requires
        !s.recording,
    ensures
        frame_action(s) == FrameAction::Drop,
{
}

impl ChunkWriterState {
    /// Idle capture state that rotates every `threshold` samples.
    pub fn new(threshold: u64) -> (r: Self)
        ensures
            !r.recording,
            !r.has_sink,
            r.samples == 0,
            r.threshold == threshold,
            r.last_stamp_ms == 0,
    {
        ChunkWriterState { recording: false, has_sink: false, samples: 0, threshold, last_stamp_ms: 0 }
    }

    /// The timestamp to name the next chunk with, given the clock reading
    /// `now_ms`: never earlier than the previous chunk's, so names follow the
    /// recording order even if the clock steps back.
    pub fn next_stamp(&mut self, now_ms: u64) -> (r: u64)
        ensures
            r == if now_ms >= old(self).last_stamp_ms { now_ms } else { old(self).last_stamp_ms },
            final(self).last_stamp_ms == r,
            final(self).recording == old(self).recording,
            final(self).has_sink == old(self).has_sink,
            final(self).samples == old(self).samples,
            final(self).threshold == old(self).threshold,
    {
        if now_ms > self.last_stamp_ms {
            self.last_stamp_ms = now_ms;
        }
        self.last_stamp_ms
    }

    /// Raises the recording flag.
    pub fn start(&mut self)
        ensures
            final(self).recording,
            final(self).has_sink == old(self).has_sink,
            final(self).samples == old(self).samples,
            final(self).threshold == old(self).threshold,
            final(self).last_stamp_ms == old(self).last_stamp_ms,
    {
        self.recording = true;
    }

    /// Decides what to do with the next frame.
    pub fn plan_frame(&self) -> (r: FrameAction)
        ensures
            r == frame_action(*self),
    {
        if !self.recording {
            FrameAction::Drop
        } else if !self.has_sink {
            FrameAction::Open
        } else if self.samples >= self.threshold {
            FrameAction::Rotate
        } else {
            FrameAction::Write
        }
    }

    /// Records the outcome of `action` on a frame of `frame_len` samples;
    /// `opened` tells whether a new chunk file could be opened. Returns
    /// whether the frame is to be written. A failed open drops the frame and
    /// leaves no chunk open, so the next frame tries again.
    pub fn finish_frame(&mut self, action: FrameAction, opened: bool, frame_len: u64) -> (write: bool)
        requires
            action == frame_action(*old(self)),
        ensures
            final(self).recording == old(self).recording,
            final(self).threshold == old(self).threshold,
            final(self).last_stamp_ms == old(self).last_stamp_ms,
            action == FrameAction::Drop ==> !write && *final(self) == *old(self),
            action == FrameAction::Write ==> write && final(self).has_sink
                && final(self).samples == old(self).samples.saturating_add(frame_len),
            (action == FrameAction::Open || action == FrameAction::Rotate) ==> {
                &&& write == opened
                &&& final(self).has_sink == opened
                &&& final(self).samples == if opened { frame_len } else { old(self).samples }
            },
    {
        match action {
            FrameAction::Drop => false,
            FrameAction::Write => {
                self.samples = self.samples.saturating_add(frame_len);
                true
            },
            _ => {
                if opened {
                    self.has_sink = true;
                    self.samples = frame_len;
                } else {
                    self.has_sink = false;
                }
                opened
            },
        }
    }

    /// Lowers the recording flag and closes the open chunk, if any. Returns
    /// whether a chunk file has to be closed now; once the caller has done
    /// so, no chunk is open and none will be opened until the next start.
    pub fn stop(&mut self) -> (close: bool)
        ensures
            close == old(self).has_sink,
            !final(self).recording,
            !final(self).has_sink,
            final(self).samples == old(self).samples,
            final(self).threshold == old(self).threshold,
            final(self).last_stamp_ms == old(self).last_stamp_ms,
            frame_action(*final(self)) == FrameAction::Drop,
    {
        let close = self.has_sink;
        self.recording = false;
        self.has_sink = false;
        close
    }
}

} // verus!
