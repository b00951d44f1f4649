//! Persistent zlib streams. The inflating itself is done by `flate2`; what is
//! verified here is the loop that feeds a stream one compressed block and
//! gathers what comes out.

use vstd::prelude::*;

verus! {

#[verifier::external_type_specification]
#[verifier::external_body]
pub struct ExDecompress(flate2::Decompress);

/// How one call into a stream ended.
#[derive(Clone, Copy, PartialEq, Eq, Structural, Debug)]
pub enum InflateStatus {
    /// Progress was made; more input or more room may be needed.
    Progress,
    /// No progress was possible with this input and this room.
    BufError,
    /// The compressed stream has come to its end.
    StreamEnd,
    /// The input is not a valid stream.
    Failed,
}

/// One call into a stream: the compressed bytes offered and the room given for
/// output.
pub type InflateCall = (Seq<u8>, nat);

/// The calls a stream has served since it was made or last reset, oldest first.
/// A stream's behaviour depends on nothing else.
pub uninterp spec fn inflate_calls(d: flate2::Decompress) -> Seq<InflateCall>;

/// What `Decompress::decompress` answers, and the bytes it writes, when a
/// stream that has served `calls` is offered `input` and `room` bytes of room.
pub uninterp spec fn inflate_outcome(calls: Seq<InflateCall>, input: Seq<u8>, room: nat) -> (
    InflateStatus,
    Seq<u8>,
);

/// What `Decompress::total_in` reports after `calls`.
pub uninterp spec fn inflate_total_in(calls: Seq<InflateCall>) -> nat;

/// What `Decompress::total_out` reports after `calls`.
pub uninterp spec fn inflate_total_out(calls: Seq<InflateCall>) -> nat;

/// `Decompress::new(true)`: a fresh stream that expects a zlib header. It has
/// served no call and its two counters are zero.
#[verifier::external_body]
fn raw_new() -> (d: flate2::Decompress)
    ensures
        inflate_calls(d) == Seq::<InflateCall>::empty(),
        inflate_total_in(inflate_calls(d)) == 0,
        inflate_total_out(inflate_calls(d)) == 0,
{
    flate2::Decompress::new(true)
}

/// `Decompress::reset(true)`: the stream is as a fresh one.
#[verifier::external_body]
fn raw_reset(d: &mut flate2::Decompress)
    ensures
        inflate_calls(*final(d)) == Seq::<InflateCall>::empty(),
{
    d.reset(true)
}

/// `Decompress::total_in`: the number of input bytes the stream has consumed.
#[verifier::external_body]
fn raw_total_in(d: &flate2::Decompress) -> (n: u64)
    ensures
        n == inflate_total_in(inflate_calls(*d)),
{
    d.total_in()
}

/// `Decompress::total_out`: the number of output bytes the stream has written.
#[verifier::external_body]
fn raw_total_out(d: &flate2::Decompress) -> (n: u64)
    ensures
        n == inflate_total_out(inflate_calls(*d)),
{
    d.total_out()
}

/// `Decompress::decompress` with `FlushDecompress::None`, writing into
/// `out[from..]`. The call is added to the stream's record. The stream consumes
/// no more than it is offered and writes no more than the room it has, from
/// `from` on; its counters advance by what it consumed and wrote. What it
/// answers and writes is a function of its record and of this call, named
/// `inflate_outcome`. Both counters are 64-bit and must not overflow.
#[verifier::external_body]
fn raw_inflate(d: &mut flate2::Decompress, input: &[u8], out: &mut Vec<u8>, from: usize) -> (status:
    InflateStatus)
    requires
        from <= old(out)@.len(),
        inflate_total_in(inflate_calls(*old(d))) + input@.len() <= u64::MAX,
        inflate_total_out(inflate_calls(*old(d))) + (old(out)@.len() - from) <= u64::MAX,
    ensures
        inflate_calls(*final(d)) == inflate_calls(*old(d)).push(
            (input@, (old(out)@.len() - from) as nat),
        ),
        status == inflate_outcome(
            inflate_calls(*old(d)),
            input@,
            (old(out)@.len() - from) as nat,
        ).0,
        final(out)@.len() == old(out)@.len(),
        final(out)@.take(from as int) == old(out)@.take(from as int),
        from + inflate_outcome(
            inflate_calls(*old(d)),
            input@,
            (old(out)@.len() - from) as nat,
        ).1.len() <= final(out)@.len(),
        final(out)@.subrange(
            from as int,
            from + inflate_outcome(
                inflate_calls(*old(d)),
                input@,
                (old(out)@.len() - from) as nat,
            ).1.len(),
        ) == inflate_outcome(inflate_calls(*old(d)), input@, (old(out)@.len() - from) as nat).1,
        inflate_total_in(inflate_calls(*old(d))) <= inflate_total_in(inflate_calls(*final(d)))
            <= inflate_total_in(inflate_calls(*old(d))) + input@.len(),
        inflate_total_out(inflate_calls(*final(d))) == inflate_total_out(inflate_calls(*old(d)))
            + inflate_outcome(
            inflate_calls(*old(d)),
            input@,
            (old(out)@.len() - from) as nat,
        ).1.len(),
{
    match d.decompress(input, &mut out[from..], flate2::FlushDecompress::None) {
        Ok(flate2::Status::Ok) => InflateStatus::Progress,
        Ok(flate2::Status::BufError) => InflateStatus::BufError,
        Ok(flate2::Status::StreamEnd) => InflateStatus::StreamEnd,
        Err(_) => InflateStatus::Failed,
    }
}

/// Why a compressed block could not be inflated.
#[derive(Clone, Copy, PartialEq, Eq, Structural, Debug)]
pub enum InflateError {
    /// The block is not valid compressed data.
    Corrupt,
    /// The compressed stream ended; a connection's stream never should.
    Ended,
    /// The stream wants more input than the block holds.
    Stalled,
    /// The block inflates to more bytes than the caller allows.
    TooLong,
    /// A 64-bit counter of the stream would overflow.
    Exhausted,
}

/// The most room a stream is given in one call.
pub const INFLATE_CHUNK: usize = 0x1_0000;

/// Where a run over one block ends: the stream's record, and what came out.
pub struct InflateRun {
    pub calls: Seq<InflateCall>,
    pub result: Result<Seq<u8>, InflateError>,
}

/// The room given to the next call when `have` bytes are out and no more than
/// `limit` are allowed: one byte beyond the limit, so that a block that is too
/// long shows.
pub open spec fn room_for(limit: nat, have: nat) -> nat {
    if limit + 1 - have < INFLATE_CHUNK {
        (limit + 1 - have) as nat
    } else {
        INFLATE_CHUNK as nat
    }
}

/// Feeding `input` to a stream that has served `calls`, with `out` already
/// gathered: the stream is called until the input is used up and it has
/// nothing more to write.
pub open spec fn inflate_run(calls: Seq<InflateCall>, input: Seq<u8>, out: Seq<u8>, limit: nat)
    -> InflateRun
    decreases input.len() + limit + 1 - out.len(),
{
    let room = room_for(limit, out.len());
    let (status, written) = inflate_outcome(calls, input, room);
    let after = calls.push((input, room));
    let consumed = inflate_total_in(after) - inflate_total_in(calls);
    if out.len() > limit {
        InflateRun { calls, result: Err(InflateError::TooLong) }
    } else if inflate_total_in(calls) + input.len() > u64::MAX || inflate_total_out(calls) + room
        > u64::MAX {
        InflateRun { calls, result: Err(InflateError::Exhausted) }
    } else if status == InflateStatus::Failed {
        InflateRun { calls: after, result: Err(InflateError::Corrupt) }
    } else if status == InflateStatus::StreamEnd {
        InflateRun { calls: after, result: Err(InflateError::Ended) }
    } else if out.len() + written.len() > limit {
        InflateRun { calls: after, result: Err(InflateError::TooLong) }
    } else if written.len() < room && consumed == input.len() {
        InflateRun { calls: after, result: Ok(out + written) }
    } else if 0 < consumed + written.len() && 0 <= consumed <= input.len() {
        inflate_run(after, input.skip(consumed), out + written, limit)
    } else {
        InflateRun { calls: after, result: Err(InflateError::Stalled) }
    }
}

/// One of a connection's zlib streams. It keeps its state from one block to
/// the next until it is reset.
pub struct ZlibStream {
    raw: flate2::Decompress,
}

impl View for ZlibStream {
    type V = Seq<InflateCall>;

    closed spec fn view(&self) -> Seq<InflateCall> {
        inflate_calls(self.raw)
    }
}

impl ZlibStream {
    /// A fresh stream.
    pub fn new() -> (s: Self)
        ensures
            s@ == Seq::<InflateCall>::empty(),
    {
        ZlibStream { raw: raw_new() }
    }

    /// Makes the stream as a fresh one.
    pub fn reset(&mut self)
        ensures
            final(self)@ == Seq::<InflateCall>::empty(),
    {
        raw_reset(&mut self.raw);
    }

    /// Inflates one compressed block. The result is all that the block gives,
    /// if that is at most `limit` bytes.
    pub fn inflate(&mut self, input: &[u8], limit: usize) -> (r: Result<Vec<u8>, InflateError>)
        requires
            limit < usize::MAX,
        ensures
            final(self)@ == inflate_run(old(self)@, input@, Seq::empty(), limit as nat).calls,
            match r {
                Ok(v) => inflate_run(old(self)@, input@, Seq::empty(), limit as nat).result == Ok::<
                    Seq<u8>,
                    InflateError,
                >(v@),
                Err(e) => inflate_run(old(self)@, input@, Seq::empty(), limit as nat).result
                    == Err::<Seq<u8>, InflateError>(e),
            },
    {
        let mut out: Vec<u8> = Vec::new();
        let mut pos: usize = 0;
        let ghost goal = inflate_run(old(self)@, input@, Seq::empty(), limit as nat);
        assert(input@.skip(0) =~= input@);
        loop
            invariant
                limit < usize::MAX,
                pos <= input@.len(),
                out@.len() <= limit,
                goal == inflate_run(old(self)@, input@, Seq::empty(), limit as nat),
                goal == inflate_run(self@, input@.skip(pos as int), out@, limit as nat),
            decreases input@.len() - pos + limit + 1 - out@.len(),
        {
            let have = out.len();
            let ghost gathered = out@;
            let room: usize = if limit + 1 - have < INFLATE_CHUNK {
                limit + 1 - have
            } else {
                INFLATE_CHUNK
            };
            let rest = &input[pos..input.len()];
            assert(rest@ == input@.skip(pos as int));
            let in_before = raw_total_in(&self.raw);
            let out_before = raw_total_out(&self.raw);
            if in_before > u64::MAX - (rest.len() as u64) || out_before > u64::MAX - (room as u64) {
                return Err(InflateError::Exhausted);
            }
            out.resize(have + room, 0u8);
            let ghost calls = self@;
            let ghost padded = out@;
            let status = raw_inflate(&mut self.raw, rest, &mut out, have);
            let consumed = (raw_total_in(&self.raw) - in_before) as usize;
            let produced = (raw_total_out(&self.raw) - out_before) as usize;
            out.truncate(have + produced);
            proof {
                let written = inflate_outcome(calls, rest@, room as nat).1;
                assert(padded.take(have as int) =~= gathered);
                assert(out@ =~= gathered + written);
            }
            if status == InflateStatus::Failed {
                return Err(InflateError::Corrupt);
            }
            if status == InflateStatus::StreamEnd {
                return Err(InflateError::Ended);
            }
            if out.len() > limit {
                return Err(InflateError::TooLong);
            }
            if produced < room && consumed == rest.len() {
                return Ok(out);
            }
            if consumed == 0 && produced == 0 {
                return Err(InflateError::Stalled);
            }
            pos = pos + consumed;
            assert(input@.skip(pos as int) =~= rest@.skip(consumed as int));
        }
    }
}

} // verus!
