//! Filling and draining buffers through non-blocking, partial primitives.
//!
//! A stream half offers one attempt at a time: it moves some bytes, reports
//! that it would block, that it was interrupted, or that it failed. The
//! methods here repeat such attempts while they make progress and report
//! precisely why they stopped, so that the caller can wait for readiness and
//! resume where they left off without losing the bytes already moved.

use vstd::prelude::*;

verus! {

/// The result of one non-blocking read attempt.
pub enum ReadAttempt<E> {
    /// The bytes that were read; none at all means the peer closed cleanly.
    Data(Vec<u8>),
    /// Nothing can be read until the half reports readiness.
    WouldBlock,
    /// The attempt was interrupted and may be repeated at once.
    Interrupted,
    /// The half failed.
    Failed(E),
}

/// The result of one non-blocking write attempt.
pub enum WriteAttempt<E> {
    /// This many bytes, from the front of the buffer, were written; zero
    /// means the peer accepts no more.
    Wrote(usize),
    /// Nothing can be written until the half reports readiness.
    WouldBlock,
    /// The attempt was interrupted and may be repeated at once.
    Interrupted,
    /// The half failed.
    Failed(E),
}

/// Why a fill or a drain stopped.
pub enum Transfer<E> {
    /// The buffer was filled, or drained, completely.
    Complete,
    /// An attempt was interrupted: call again at once.
    Retry,
    /// An attempt would have blocked: wait for readiness, then call again.
    Wait,
    /// The source ended cleanly before the buffer was full.
    EndOfStream,
    /// The sink accepted none of the bytes offered to it.
    WriteZero,
    /// The stream failed.
    Failed(E),
}

/// How a fill or a drain stopped, without the error it may carry.
#[derive(Clone, Copy, Debug, PartialEq, Eq, Structural)]
pub enum Outcome {
    Complete,
    Retry,
    Wait,
    EndOfStream,
    WriteZero,
    Failed,
}

impl<E> Transfer<E> {
    pub open spec fn outcome(&self) -> Outcome {
        match self {
            Transfer::Complete => Outcome::Complete,
            Transfer::Retry => Outcome::Retry,
            Transfer::Wait => Outcome::Wait,
            Transfer::EndOfStream => Outcome::EndOfStream,
            Transfer::WriteZero => Outcome::WriteZero,
            Transfer::Failed(_) => Outcome::Failed,
        }
    }
}

impl<E> ReadAttempt<E> {
    /// The bytes that the attempt read; none when it read nothing.
    pub open spec fn bytes(&self) -> Seq<u8> {
        match self {
            ReadAttempt::Data(v) => v@,
            _ => Seq::empty(),
        }
    }
}

/// Takes the result of one read attempt into `buf`. Bytes read are appended
/// and the fill goes on (`None`); every other result ends the fill, with
/// `buf` unchanged: no bytes at all is a clean end of the stream, a blocked
/// attempt asks to wait, an interrupted one to retry, and a failure is passed
/// on as it is.
pub fn take_read<E>(buf: &mut Vec<u8>, a: ReadAttempt<E>) -> (r: Option<Transfer<E>>)
    ensures
        a matches ReadAttempt::Data(v) ==> (v@.len() == 0 ==> (r matches Some(
            Transfer::EndOfStream,
        )) && final(buf)@ == old(buf)@) && (v@.len() > 0 ==> r is None && final(buf)@ == old(
            buf,
        )@ + v@),
        a is WouldBlock ==> (r matches Some(Transfer::Wait)) && final(buf)@ == old(buf)@,
        a is Interrupted ==> (r matches Some(Transfer::Retry)) && final(buf)@ == old(buf)@,
        a matches ReadAttempt::Failed(e) ==> r == Some(Transfer::<E>::Failed(e)) && final(buf)@
            == old(buf)@,
        final(buf)@ == old(buf)@ + a.bytes(),
{
    match a {
        ReadAttempt::Data(mut bytes) => {
            if bytes.len() == 0 {
                Some(Transfer::EndOfStream)
            } else {
                buf.append(&mut bytes);
                None
            }
        },
        ReadAttempt::WouldBlock => Some(Transfer::Wait),
        ReadAttempt::Interrupted => Some(Transfer::Retry),
        ReadAttempt::Failed(e) => Some(Transfer::Failed(e)),
    }
}

/// Takes the result of one attempt to write the bytes of a `len`-byte buffer
/// from position `*sent` on. Bytes written advance `*sent` past them and the
/// drain goes on (`None`); every other result ends the drain, with `*sent`
/// unchanged: no byte written is a write fault, a blocked attempt asks to
/// wait, an interrupted one to retry, and a failure is passed on as it is.
pub fn take_write<E>(sent: &mut usize, len: usize, a: WriteAttempt<E>) -> (r: Option<Transfer<E>>)
    requires
        *old(sent) <= len,
        a matches WriteAttempt::Wrote(n) ==> n <= len - *old(sent),
    ensures
        a matches WriteAttempt::Wrote(n) ==> (n == 0 ==> (r matches Some(Transfer::WriteZero))
            && *final(sent) == *old(sent)) && (n > 0 ==> r is None && *final(sent) == *old(sent)
            + n),
        a is WouldBlock ==> (r matches Some(Transfer::Wait)) && *final(sent) == *old(sent),
        a is Interrupted ==> (r matches Some(Transfer::Retry)) && *final(sent) == *old(sent),
        a matches WriteAttempt::Failed(e) ==> r == Some(Transfer::<E>::Failed(e)) && *final(sent)
            == *old(sent),
{
    match a {
        WriteAttempt::Wrote(n) => {
            if n == 0 {
                Some(Transfer::WriteZero)
            } else {
                *sent = *sent + n;
                None
            }
        },
        WriteAttempt::WouldBlock => Some(Transfer::Wait),
        WriteAttempt::Interrupted => Some(Transfer::Retry),
        WriteAttempt::Failed(e) => Some(Transfer::Failed(e)),
    }
}

/// The bytes of `buf` not yet written: those from position `sent` on.
pub fn unsent(buf: &[u8], sent: usize) -> (r: &[u8])
    requires
        sent <= buf@.len(),
    ensures
        r@ == buf@.subrange(sent as int, buf@.len() as int),
{
    &buf[sent..buf.len()]
}

/// The read side of a stream half.
pub trait ReadFrom {
    type Error;

    /// Makes one non-blocking attempt to read at most `max` bytes.
    fn try_read(&self, max: usize) -> (r: ReadAttempt<Self::Error>)
        requires
            0 < max,
        ensures
            r matches ReadAttempt::Data(v) ==> v@.len() <= max,
    ;

    /// Reads into `buf` until it holds `want` bytes, the stream ends, an
    /// attempt would block or is interrupted, or the stream fails. Each
    /// attempt asks for the bytes still missing and is taken in by
    /// `take_read`; the bytes already in `buf` are kept, so a later call
    /// resumes where this one stopped.
    fn try_read_exact(&self, buf: &mut Vec<u8>, want: usize) -> (r: Transfer<Self::Error>)
        requires
            old(buf)@.len() <= want,
        ensures
            old(buf)@.len() <= final(buf)@.len() <= want,
            final(buf)@.subrange(0, old(buf)@.len() as int) == old(buf)@,
            r is Complete <==> final(buf)@.len() == want,
            !(r is WriteZero),
            old(buf)@.len() == want ==> final(buf)@ == old(buf)@,
    {
        let ghost start = buf@;
        while buf.len() < want
            invariant
                start == old(buf)@,
                start.len() <= buf@.len() <= want,
                buf@.subrange(0, start.len() as int) == start,
                start.len() == want ==> buf@ == start,
            decreases want - buf@.len(),
        {
            let attempt = self.try_read(want - buf.len());
            let ghost before = buf@;
            let taken = take_read(buf, attempt);
            assert(buf@.subrange(0, start.len() as int) =~= before.subrange(0, start.len() as int));
            if let Some(t) = taken {
                return t;
            }
        }
        Transfer::Complete
    }
}

/// The write side of a stream half.
pub trait WriteTo {
    type Error;

    /// Makes one non-blocking attempt to write the front of `buf`.
    fn try_write(&self, buf: &[u8]) -> (r: WriteAttempt<Self::Error>)
        requires
            0 < buf@.len(),
        ensures
            r matches WriteAttempt::Wrote(n) ==> n <= buf@.len(),
    ;

    /// Writes `buf` from position `*sent` on, until all of it is written, the
    /// sink accepts nothing, an attempt would block or is interrupted, or the
    /// stream fails. Each attempt is offered the unsent bytes and is taken in
    /// by `take_write`, which advances `*sent` past the bytes written, so a
    /// later call resumes without sending anything twice.
    fn try_write_all(&self, buf: &[u8], sent: &mut usize) -> (r: Transfer<Self::Error>)
        requires
            *old(sent) <= buf@.len(),
        ensures
            *old(sent) <= *final(sent) <= buf@.len(),
            r is Complete <==> *final(sent) == buf@.len(),
            !(r is EndOfStream),
    {
        while *sent < buf.len()
            invariant
                *old(sent) <= *sent <= buf@.len(),
            decreases buf@.len() - *sent,
        {
            let attempt = self.try_write(unsent(buf, *sent));
            let taken = take_write(sent, buf.len(), attempt);
            if let Some(t) = taken {
                return t;
            }
        }
        Transfer::Complete
    }
}

} // verus!
