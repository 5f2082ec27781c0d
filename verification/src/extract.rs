use vstd::prelude::*;

verus! {

/// Why a tail extraction was refused.
#[derive(Clone, Copy, Debug, PartialEq, Eq, Structural)]
pub enum ExtractError {
    /// The requested length is negative.
    InvalidLength,
    /// The requested length exceeds the size of the source, so positioning
    /// the source at `end - length` would fall before its start.
    LengthExceedsSource,
}

/// Size in bytes of the bounded intermediate buffer: the copy moves at most
/// this many bytes per read-then-write step, independent of the requested
/// length.
pub const COPY_BUF_LEN: usize = 16384;

/// What tail extraction yields on a source of `src` bytes and a requested
/// `length`: exactly the last `length` bytes of `src`, in order. A negative
/// `length` is refused outright; one beyond the size of the source fails as
/// the seek before the start of the stream would.
pub open spec fn spec_extract_tail(src: Seq<u8>, length: int) -> Result<Seq<u8>, ExtractError> {
    if length < 0 {
        Err(ExtractError::InvalidLength)
    } else if length > src.len() {
        Err(ExtractError::LengthExceedsSource)
    } else {
        Ok(src.subrange(src.len() - length, src.len() as int))
    }
}

/// Validates a requested extraction length before any seek or read is
/// attempted: a negative length is refused with `InvalidLength`, a
/// non-negative one is passed through unchanged.
pub fn validate_length(length: i64) -> (r: Result<u64, ExtractError>)
    ensures
        length < 0 ==> r == Err::<u64, ExtractError>(ExtractError::InvalidLength),
        length >= 0 ==> r == Ok::<u64, ExtractError>(length as u64),
{
    if length < 0 {
        Err(ExtractError::InvalidLength)
    } else {
        Ok(length as u64)
    }
}

/// How many bytes the next read-then-write step of the bounded-buffer copy
/// moves: the whole remainder, capped at the buffer size — so a step always
/// makes progress while bytes remain.
pub fn chunk_len(remaining: u64) -> (n: usize)
    ensures
        n as int == (if remaining < COPY_BUF_LEN as u64 {
            remaining as int
        } else {
            COPY_BUF_LEN as int
        }),
{
    if remaining < COPY_BUF_LEN as u64 {
        remaining as usize
    } else {
        COPY_BUF_LEN
    }
}

/// Copies exactly the last `length` bytes of `source`, in source order, into
/// a fresh vector, moving at most `COPY_BUF_LEN` bytes per step. A negative
/// `length` is refused before any byte is touched; one beyond the size of
/// the source is refused in place of the seek that would fall before the
/// start. No byte before `source.len() - length` is read.
pub fn extract_tail(source: &Vec<u8>, length: i64) -> (r: Result<Vec<u8>, ExtractError>)
    ensures
        (match r {
            Ok(out) => spec_extract_tail(source@, length as int) == Ok::<Seq<u8>, ExtractError>(
                out@,
            ),
            Err(e) => spec_extract_tail(source@, length as int) == Err::<Seq<u8>, ExtractError>(e),
        }),
{
    let total: u64 = match validate_length(length) {
        Ok(n) => n,
        Err(e) => {
            return Err(e);
        },
    };
    if total > source.len() as u64 {
        return Err(ExtractError::LengthExceedsSource);
    }
    let start: usize = source.len() - total as usize;
    let mut out: Vec<u8> = Vec::new();
    let mut pos: usize = start;
    let mut remaining: u64 = total;
    while remaining > 0
        invariant
            source@.len() <= usize::MAX,
            start as int == source@.len() - total,
            start <= pos,
            pos as int + remaining == source@.len(),
            out@ == source@.subrange(start as int, pos as int),
        decreases remaining,
    {
        let step: usize = chunk_len(remaining);
        let mut k: usize = 0;
        while k < step
            invariant
                k <= step,
                step as int <= source@.len() - pos,
                start <= pos,
                pos + step <= source@.len() <= usize::MAX,
                out@ == source@.subrange(start as int, pos as int + k as int),
            decreases step - k,
        {
            out.push(source[pos + k]);
            assert(source@.subrange(start as int, pos as int + k as int + 1)
                =~= source@.subrange(start as int, pos as int + k as int).push(
                source@[pos as int + k as int],
            ));
            k = k + 1;
        }
        pos = pos + step;
        remaining = remaining - step as u64;
    }
    assert(out@ =~= source@.subrange(source@.len() - length, source@.len() as int));
    Ok(out)
}

/// Round trip: a container of arbitrary head bytes followed by a payload,
/// extracted with the payload's own length, yields exactly the payload,
/// byte for byte — whatever the head holds and however long the payload is,
/// zero included.
pub proof fn lemma_round_trip(head: Seq<u8>, payload: Seq<u8>)
    ensures
        spec_extract_tail(head + payload, payload.len() as int) == Ok::<Seq<u8>, ExtractError>(
            payload,
        ),
{
    let src = head + payload;
    assert(src.subrange(src.len() - payload.len(), src.len() as int) =~= payload);
}

/// A negative requested length is refused with `InvalidLength`, whatever the
/// source holds.
pub proof fn lemma_negative_length_rejected(src: Seq<u8>, length: int)
    requires
        length < 0,
    ensures
        spec_extract_tail(src, length) == Err::<Seq<u8>, ExtractError>(ExtractError::InvalidLength),
{
}

} // verus!
