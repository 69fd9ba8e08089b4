//! The one-directional frame pump.
//!
//! A pump reads one whole frame from a source half (the header, then the
//! payload that the header announces), and writes it as one buffer to a sink
//! half, frame after frame. When an attempt would block, the pump keeps what
//! it has read or written so far and reports which readiness to wait for; the
//! next call resumes at the same byte.

use vstd::prelude::*;
use crate::frame::{HEADER_LEN, declared_len, frame_len, is_frame, payload_length};
use crate::transfer::{Outcome, ReadFrom, Transfer, WriteTo, take_read, take_write, unsent};

verus! {

/// The part of the frame cycle a pump is in.
#[derive(Clone, Copy, Debug, PartialEq, Eq, Structural)]
pub enum Phase {
    /// Reading the eight header bytes.
    Header,
    /// Reading the payload that the header announced.
    Payload,
    /// Writing the assembled frame.
    Write,
}

/// What one call of the pump came to.
pub enum PumpStep<RE, WE> {
    /// One whole frame was written to the sink.
    Forwarded,
    /// An attempt was interrupted: call again at once.
    Retry,
    /// An attempt would block: wait until the source is readable (in the
    /// header or payload phase) or the sink is writable (in the write phase),
    /// then call again.
    Wait(Phase),
    /// The source ended cleanly: this direction is finished.
    Stopped,
    /// Reading failed in the given phase (header or payload).
    ReadFailed(Phase, RE),
    /// Writing the frame failed.
    WriteFailed(WE),
    /// The sink accepted none of the bytes of the frame offered to it.
    WriteZero,
    /// The header announced a frame larger than this machine can address.
    Oversized,
}

impl<RE, WE> PumpStep<RE, WE> {
    /// Whether this step ends the direction for good.
    pub open spec fn is_end(&self) -> bool {
        self is Stopped || self is ReadFailed || self is WriteFailed || self is WriteZero
            || self is Oversized
    }

    /// Whether this step ends the direction for good: the pump stopped,
    /// failed, or met a frame it cannot hold.
    pub fn ends_direction(&self) -> (r: bool)
        ensures
            r == self.is_end(),
    {
        match self {
            PumpStep::Stopped | PumpStep::ReadFailed(..) | PumpStep::WriteFailed(_)
            | PumpStep::WriteZero | PumpStep::Oversized => true,
            _ => false,
        }
    }
}

/// The model of a pump.
pub struct PumpView {
    /// Bytes of the current frame read so far.
    pub frame: Seq<u8>,
    /// Whether the current frame is complete and being written.
    pub writing: bool,
    /// How many bytes of the current frame have been written.
    pub sent: nat,
    /// Every byte taken from the source, in order.
    pub read: Seq<u8>,
    /// Every byte the sink accepted, in order.
    pub written: Seq<u8>,
    /// The frames written completely, in order.
    pub frames: Seq<Seq<u8>>,
    /// How the last fill or drain stopped.
    pub last: Outcome,
}

impl PumpView {
    /// The phase the pump is in.
    pub open spec fn phase(self) -> Phase {
        if self.writing {
            Phase::Write
        } else if self.frame.len() < 8 {
            Phase::Header
        } else {
            Phase::Payload
        }
    }

    /// The bytes of the current frame that the sink accepted.
    pub open spec fn sent_part(self) -> Seq<u8> {
        if self.writing {
            self.frame.subrange(0, self.sent as int)
        } else {
            Seq::empty()
        }
    }

    /// The logs agree with the frames written and the current frame.
    pub open spec fn logs_agree(self) -> bool {
        &&& forall|i: int| 0 <= i < self.frames.len() ==> is_frame(#[trigger] self.frames[i])
        &&& self.read == self.frames.flatten() + self.frame
        &&& self.written == self.frames.flatten() + self.sent_part()
    }

    /// The invariant of every pump: the logs agree, a frame being written is
    /// complete, and a frame being read is not yet complete.
    pub open spec fn wf(self) -> bool {
        &&& self.logs_agree()
        &&& self.writing ==> is_frame(self.frame) && self.sent <= self.frame.len()
        &&& !self.writing ==> self.sent == 0 && (self.frame.len() < 8 || self.frame.len() < frame_len(
            self.frame,
        ))
    }
}

/// A one-directional forwarder of whole frames.
pub struct Pump {
    frame: Vec<u8>,
    writing: bool,
    sent: usize,
    read: Ghost<Seq<u8>>,
    written: Ghost<Seq<u8>>,
    frames: Ghost<Seq<Seq<u8>>>,
    last: Ghost<Outcome>,
}

impl View for Pump {
    type V = PumpView;

    closed spec fn view(&self) -> PumpView {
        PumpView {
            frame: self.frame@,
            writing: self.writing,
            sent: self.sent as nat,
            read: self.read@,
            written: self.written@,
            frames: self.frames@,
            last: self.last@,
        }
    }
}

/// Appending one sequence to a sequence of sequences appends it to their
/// concatenation.
proof fn lemma_flatten_push(s: Seq<Seq<u8>>, x: Seq<u8>)
    ensures
        s.push(x).flatten() == s.flatten() + x,
{
    s.push(x).lemma_flatten_and_flatten_alt_are_equivalent();
    s.lemma_flatten_and_flatten_alt_are_equivalent();
    assert(s.push(x).drop_last() =~= s);
}

/// What a read that stopped short of its buffer means for the pump.
pub fn read_stopped<RE, WE>(t: Transfer<RE>, phase: Phase) -> (r: PumpStep<RE, WE>)
    requires
        !(t is Complete),
        !(t is WriteZero),
    ensures
        t is EndOfStream ==> r is Stopped,
        t is Retry ==> r is Retry,
        t is Wait ==> r == PumpStep::<RE, WE>::Wait(phase),
        t matches Transfer::Failed(e) ==> r == PumpStep::<RE, WE>::ReadFailed(phase, e),
{
    match t {
        Transfer::EndOfStream => PumpStep::Stopped,
        Transfer::Retry => PumpStep::Retry,
        Transfer::Wait => PumpStep::Wait(phase),
        Transfer::Failed(e) => PumpStep::ReadFailed(phase, e),
        Transfer::Complete | Transfer::WriteZero => {
            proof {
                assert(false);
            }
            PumpStep::Retry
        },
    }
}

/// What the end of a write attempt means for the pump.
pub fn write_stopped<RE, WE>(t: Transfer<WE>) -> (r: PumpStep<RE, WE>)
    ensures
        t is Complete ==> r is Forwarded,
        t is EndOfStream ==> r is Stopped,
        t is WriteZero ==> r is WriteZero,
        t is Retry ==> r is Retry,
        t is Wait ==> r == PumpStep::<RE, WE>::Wait(Phase::Write),
        t matches Transfer::Failed(e) ==> r == PumpStep::<RE, WE>::WriteFailed(e),
{
    match t {
        Transfer::Complete => PumpStep::Forwarded,
        Transfer::EndOfStream => PumpStep::Stopped,
        Transfer::WriteZero => PumpStep::WriteZero,
        Transfer::Retry => PumpStep::Retry,
        Transfer::Wait => PumpStep::Wait(Phase::Write),
        Transfer::Failed(e) => PumpStep::WriteFailed(e),
    }
}

impl Pump {
    pub open spec fn wf(&self) -> bool {
        self@.wf()
    }

    /// A pump that has read and written nothing.
    pub fn new() -> (r: Pump)
        ensures
            r.wf(),
            r@.frame.len() == 0,
            !r@.writing,
            r@.read.len() == 0,
            r@.written.len() == 0,
            r@.frames.len() == 0,
    {
        Pump {
            frame: Vec::new(),
            writing: false,
            sent: 0,
            read: Ghost(Seq::empty()),
            written: Ghost(Seq::empty()),
            frames: Ghost(Seq::empty()),
            last: Ghost(Outcome::Complete),
        }
    }

    /// The phase the pump is in.
    pub fn phase(&self) -> (r: Phase)
        ensures
            r == self@.phase(),
    {
        if self.writing {
            Phase::Write
        } else if self.frame.len() < HEADER_LEN {
            Phase::Header
        } else {
            Phase::Payload
        }
    }

    /// Reads into the current frame until it holds `want` bytes. Each read
    /// attempt asks for the bytes still missing and is taken in by
    /// `take_read`; the bytes it returned are added to the read log, and how
    /// the fill stopped is recorded.
    fn fill<R: ReadFrom>(&mut self, source: &R, want: usize) -> (r: Transfer<R::Error>)
        requires
            old(self)@.logs_agree(),
            !old(self).writing,
            old(self).sent == 0,
            old(self).frame@.len() <= want,
        ensures
            final(self)@.logs_agree(),
            old(self).read@.is_prefix_of(final(self).read@),
            old(self).frame@.is_prefix_of(final(self).frame@),
            final(self).frame@.len() <= want,
            r is Complete <==> final(self).frame@.len() == want,
            !(r is WriteZero),
            final(self)@.last == r.outcome(),
            final(self).writing == old(self).writing,
            final(self).sent == old(self).sent,
            final(self).written == old(self).written,
            final(self).frames == old(self).frames,
    {
        while self.frame.len() < want
            invariant
                self@.logs_agree(),
                !self.writing,
                self.sent == 0,
                self.writing == old(self).writing,
                self.sent == old(self).sent,
                old(self).read@.is_prefix_of(self.read@),
                old(self).frame@.is_prefix_of(self.frame@),
                self.frame@.len() <= want,
                self.written == old(self).written,
                self.frames == old(self).frames,
            decreases want - self.frame@.len(),
        {
            let attempt = source.try_read(want - self.frame.len());
            let ghost seen = attempt;
            let ghost frame_before = self.frame@;
            let ghost read_before = self.read@;
            let taken = take_read(&mut self.frame, attempt);
            proof {
                self.read = Ghost(read_before + seen.bytes());
                assert(self.read@ =~= self.frames@.flatten() + self.frame@);
                assert(read_before =~= self.read@.subrange(0, read_before.len() as int));
                assert(old(self).read@ =~= self.read@.subrange(0, old(self).read@.len() as int));
                assert(frame_before.subrange(0, old(self).frame@.len() as int) =~= self.frame@.subrange(
                    0,
                    old(self).frame@.len() as int,
                ));
            }
            if let Some(t) = taken {
                proof {
                    self.last = Ghost(t.outcome());
                }
                return t;
            }
        }
        proof {
            self.last = Ghost(Outcome::Complete);
        }
        Transfer::Complete
    }

    /// Writes the rest of the current frame. Each write attempt is offered
    /// the unsent bytes of the frame and is taken in by `take_write`; the
    /// bytes it wrote are added to the write log, and how the drain stopped is
    /// recorded.
    fn drain<W: WriteTo>(&mut self, sink: &W) -> (r: Transfer<W::Error>)
        requires
            old(self).wf(),
            old(self).writing,
        ensures
            final(self).wf(),
            final(self).writing,
            final(self).frame == old(self).frame,
            final(self).read == old(self).read,
            final(self).frames == old(self).frames,
            old(self).written@.is_prefix_of(final(self).written@),
            r is Complete <==> final(self).sent == final(self).frame@.len(),
            !(r is EndOfStream),
            final(self)@.last == r.outcome(),
    {
        while self.sent < self.frame.len()
            invariant
                self.wf(),
                self.writing,
                self.frame == old(self).frame,
                self.read == old(self).read,
                self.frames == old(self).frames,
                old(self).written@.is_prefix_of(self.written@),
            decreases self.frame@.len() - self.sent,
        {
            let attempt = sink.try_write(unsent(self.frame.as_slice(), self.sent));
            let ghost sent_before = self.sent;
            let ghost written_before = self.written@;
            let taken = take_write(&mut self.sent, self.frame.len(), attempt);
            proof {
                self.written = Ghost(
                    written_before + self.frame@.subrange(sent_before as int, self.sent as int),
                );
                assert(self.written@ =~= self.frames@.flatten() + self.frame@.subrange(
                    0,
                    self.sent as int,
                ));
                assert(written_before =~= self.written@.subrange(0, written_before.len() as int));
                assert(old(self).written@ =~= self.written@.subrange(
                    0,
                    old(self).written@.len() as int,
                ));
            }
            if let Some(t) = taken {
                proof {
                    self.last = Ghost(t.outcome());
                }
                return t;
            }
        }
        proof {
            self.last = Ghost(Outcome::Complete);
        }
        Transfer::Complete
    }

    /// Records the current, completely written frame and starts the next.
    fn finish_frame(&mut self)
        requires
            old(self).wf(),
            old(self).writing,
            old(self).sent == old(self).frame@.len(),
        ensures
            final(self).wf(),
            final(self)@.frames == old(self)@.frames.push(old(self)@.frame),
            final(self)@.frame.len() == 0,
            !final(self)@.writing,
            final(self)@.read == old(self)@.read,
            final(self)@.written == old(self)@.written,
            final(self)@.last == old(self)@.last,
    {
        proof {
            lemma_flatten_push(self.frames@, self.frame@);
            assert(self.frame@.subrange(0, self.sent as int) =~= self.frame@);
            assert(self.read@ =~= self.frames@.push(self.frame@).flatten() + Seq::empty());
            self.frames = Ghost(self.frames@.push(self.frame@));
        }
        self.frame = Vec::new();
        self.writing = false;
        self.sent = 0;
        proof {
            assert(self.written@ =~= self.frames@.flatten() + self@.sent_part());
            assert(self.read@ =~= self.frames@.flatten() + self.frame@);
        }
    }

    /// Moves the next frame from `source` to `sink`.
    ///
    /// The pump reads the eight header bytes, then exactly the payload length
    /// that the header announces, and writes header and payload as one buffer.
    /// Whatever stops it on the way, the bytes read or written so far are
    /// kept, and the next call continues with them. A clean end of the
    /// source, between frames or in the middle of one, stops the pump without
    /// an error and without writing; a sink that accepts none of the bytes
    /// offered is a write fault. The result, and the recorded outcome of this
    /// call's last fill or drain, always agree.
    pub fn read_from_then_write_to<R: ReadFrom, W: WriteTo>(&mut self, source: &R, sink: &W) -> (r:
        PumpStep<R::Error, W::Error>)
        requires
            old(self).wf(),
        ensures
            final(self).wf(),
            old(self)@.read.is_prefix_of(final(self)@.read),
            old(self)@.written.is_prefix_of(final(self)@.written),
            old(self)@.frames.is_prefix_of(final(self)@.frames),
            r is Forwarded <==> final(self)@.frames.len() == old(self)@.frames.len() + 1,
            !(r is Forwarded) ==> final(self)@.frames == old(self)@.frames,
            r is Forwarded ==> final(self)@.frame.len() == 0 && !final(self)@.writing,
            old(self)@.writing ==> final(self)@.read == old(self)@.read,
            r matches PumpStep::Wait(p) ==> final(self)@.phase() == p,
            r matches PumpStep::ReadFailed(p, _) ==> final(self)@.phase() == p && !(p is Write),
            r is WriteFailed ==> final(self)@.phase() is Write,
            r is Oversized <==> final(self)@.phase() is Payload && frame_len(final(self)@.frame)
                > usize::MAX,
            !old(self)@.writing && old(self)@.frame.len() >= 8 && frame_len(old(self)@.frame)
                > usize::MAX ==> r is Oversized && final(self)@ == old(self)@,
            !final(self)@.writing && !(r is Forwarded) ==> final(self)@.written == old(
                self,
            )@.written,
            r is Forwarded ==> final(self)@.last == Outcome::Complete,
            r is Stopped ==> final(self)@.last == Outcome::EndOfStream && !final(self)@.writing,
            r is Retry ==> final(self)@.last == Outcome::Retry,
            r is Wait ==> final(self)@.last == Outcome::Wait,
            r is ReadFailed || r is WriteFailed ==> final(self)@.last == Outcome::Failed,
            r is WriteZero ==> final(self)@.last == Outcome::WriteZero && final(self)@.writing,
    {
        if !self.writing {
            if self.frame.len() < HEADER_LEN {
                let t = self.fill(source, HEADER_LEN);
                if !matches!(t, Transfer::Complete) {
                    return read_stopped(t, Phase::Header);
                }
            }
            let length = payload_length(self.frame.as_slice());
            let want = match (length as usize).checked_add(HEADER_LEN) {
                Some(w) => w,
                None => {
                    return PumpStep::Oversized;
                },
            };
            let ghost header = self.frame@;
            let t = self.fill(source, want);
            assert(self.frame@.subrange(0, header.len() as int) == header);
            assert(declared_len(self.frame@) == declared_len(header)) by {
                assert(self.frame@[4] == header[4]);
                assert(self.frame@[5] == header[5]);
                assert(self.frame@[6] == header[6]);
                assert(self.frame@[7] == header[7]);
            }
            if !matches!(t, Transfer::Complete) {
                return read_stopped(t, Phase::Payload);
            }
            self.writing = true;
            proof {
                assert(self@.sent_part() =~= Seq::empty());
            }
        }
        let t = self.drain(sink);
        if matches!(t, Transfer::Complete) {
            self.finish_frame();
            PumpStep::Forwarded
        } else {
            write_stopped(t)
        }
    }
}


/// The pump is between frames: nothing of a next frame has been read.
pub open spec fn is_idle(p: PumpView) -> bool {
    !p.writing && p.frame.len() == 0
}

/// What reaches the sink is always a prefix of what came from the source, in
/// the same order, and it is made of whole frames followed by a prefix of the
/// current frame. Nothing of a frame reaches the sink before the whole frame
/// was read, and between frames the sink has received exactly what the source
/// gave.
pub proof fn lemma_order_kept(p: PumpView)
    requires
        p.wf(),
    ensures
        p.written.is_prefix_of(p.read),
        p.frames.flatten().is_prefix_of(p.written),
        !p.writing ==> p.written == p.frames.flatten(),
        p.writing ==> is_frame(p.frame),
        is_idle(p) ==> p.written == p.read,
{
    let flat = p.frames.flatten();
    if p.writing {
        assert(p.written.subrange(0, flat.len() as int) =~= flat);
        assert(p.read.subrange(0, p.written.len() as int) =~= p.written);
    } else {
        assert(p.written =~= flat);
        assert(p.read.subrange(0, p.written.len() as int) =~= p.written);
        assert(p.written.subrange(0, flat.len() as int) =~= flat);
        if p.frame.len() == 0 {
            assert(p.read =~= p.written);
        }
    }
}

/// Two frames that start a common stream are the same frame: the header,
/// which both begin with, fixes the length.
proof fn lemma_frame_unique(f: Seq<u8>, g: Seq<u8>, s: Seq<u8>)
    requires
        is_frame(f),
        is_frame(g),
        f.is_prefix_of(s),
        g.is_prefix_of(s),
    ensures
        f == g,
{
    assert(f[4] == s[4] && f[5] == s[5] && f[6] == s[6] && f[7] == s[7]);
    assert(g[4] == s[4] && g[5] == s[5] && g[6] == s[6] && g[7] == s[7]);
    assert(f =~= g);
}

/// A stream of well-formed frames splits into frames in one way only: when
/// the frames `xs` make up a prefix of the stream that the frames `ys` make
/// up, `xs` are the first frames of `ys`.
proof fn lemma_frames_parse_uniquely(xs: Seq<Seq<u8>>, ys: Seq<Seq<u8>>)
    requires
        forall|i: int| 0 <= i < xs.len() ==> is_frame(#[trigger] xs[i]),
        forall|i: int| 0 <= i < ys.len() ==> is_frame(#[trigger] ys[i]),
        xs.flatten().is_prefix_of(ys.flatten()),
    ensures
        xs.is_prefix_of(ys),
    decreases xs.len(),
{
    if xs.len() > 0 {
        let x = xs[0];
        assert(is_frame(x));
        let sx = xs.flatten();
        let sy = ys.flatten();
        assert(sx == x + xs.drop_first().flatten());
        assert(x.is_prefix_of(sy)) by {
            assert(sy.subrange(0, x.len() as int) =~= sx.subrange(0, x.len() as int));
            assert(sx.subrange(0, x.len() as int) =~= x);
        }
        if ys.len() == 0 {
            assert(sy.len() == 0);
            assert(false);
        }
        let y = ys[0];
        assert(is_frame(y));
        assert(sy == y + ys.drop_first().flatten());
        assert(y.is_prefix_of(sy)) by {
            assert(sy.subrange(0, y.len() as int) =~= y);
        }
        lemma_frame_unique(x, y, sy);
        let rx = xs.drop_first();
        let ry = ys.drop_first();
        assert forall|i: int| 0 <= i < rx.len() implies is_frame(#[trigger] rx[i]) by {
            assert(rx[i] == xs[i + 1]);
        }
        assert forall|i: int| 0 <= i < ry.len() implies is_frame(#[trigger] ry[i]) by {
            assert(ry[i] == ys[i + 1]);
        }
        assert(rx.flatten().is_prefix_of(ry.flatten())) by {
            assert(rx.flatten() =~= sx.subrange(x.len() as int, sx.len() as int));
            assert(ry.flatten() =~= sy.subrange(y.len() as int, sy.len() as int));
        }
        lemma_frames_parse_uniquely(rx, ry);
        assert(xs =~= ys.subrange(0, xs.len() as int)) by {
            assert forall|i: int| 0 <= i < xs.len() implies xs[i] == ys[i] by {
                if i > 0 {
                    assert(xs[i] == rx[i - 1]);
                    assert(ys[i] == ry[i - 1]);
                }
            }
        }
    }
}

/// When the source sends a sequence of frames, the pump forwards exactly
/// those frames, whole and in the order sent, and the sink receives nothing
/// but a prefix of the bytes sent.
pub proof fn lemma_frames_in_order(p: PumpView, sent: Seq<Seq<u8>>)
    requires
        p.wf(),
        forall|i: int| 0 <= i < sent.len() ==> is_frame(#[trigger] sent[i]),
        p.read.is_prefix_of(sent.flatten()),
    ensures
        p.frames.is_prefix_of(sent),
        p.written.is_prefix_of(sent.flatten()),
{
    lemma_order_kept(p);
    let flat = p.frames.flatten();
    assert(flat.is_prefix_of(sent.flatten())) by {
        assert(p.read.subrange(0, flat.len() as int) =~= flat);
        assert(sent.flatten().subrange(0, flat.len() as int) =~= p.read.subrange(
            0,
            flat.len() as int,
        ));
    }
    lemma_frames_parse_uniquely(p.frames, sent);
    assert(sent.flatten().subrange(0, p.written.len() as int) =~= p.read.subrange(
        0,
        p.written.len() as int,
    ));
}

/// Forwarding one frame, from one idle state to the next, while the source
/// sends `header` followed by the `payload` it announces (and possibly more),
/// hands the sink exactly `header` followed by `payload`, and takes exactly
/// those bytes from the source.
pub proof fn lemma_frame_reproduced(
    before: PumpView,
    after: PumpView,
    header: Seq<u8>,
    payload: Seq<u8>,
    rest: Seq<u8>,
)
    requires
        before.wf(),
        after.wf(),
        is_idle(before),
        is_idle(after),
        before.frames.is_prefix_of(after.frames),
        after.frames.len() == before.frames.len() + 1,
        header.len() == 8,
        declared_len(header) == payload.len(),
        after.read.subrange(before.read.len() as int, after.read.len() as int).is_prefix_of(
            header + payload + rest,
        ),
    ensures
        after.frames.last() == header + payload,
        after.read == before.read + header + payload,
        after.written == before.written + header + payload,
{
    let f = after.frames.last();
    assert(after.frames =~= before.frames.push(f));
    lemma_flatten_push(before.frames, f);
    lemma_order_kept(before);
    lemma_order_kept(after);
    assert(before.read =~= before.frames.flatten());
    assert(after.read =~= after.frames.flatten());
    assert(is_frame(after.frames[after.frames.len() - 1]));
    let s = header + payload + rest;
    assert(after.read.subrange(before.read.len() as int, after.read.len() as int) =~= f);
    let hp = header + payload;
    assert(is_frame(hp)) by {
        assert(hp[4] == header[4] && hp[5] == header[5] && hp[6] == header[6] && hp[7]
            == header[7]);
    }
    assert(hp.is_prefix_of(s)) by {
        assert(s.subrange(0, hp.len() as int) =~= hp);
    }
    lemma_frame_unique(f, hp, s);
    assert(after.read =~= before.read + header + payload);
    assert(after.written =~= before.written + header + payload);
}

} // verus!
