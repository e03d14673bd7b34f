//! Laws of the read/seek state machine, proved over `Model` and the step
//! functions of `crate::file`.
//!
//! `coherent` ties a model to the reference content of the resource: the
//! known length matches, the cursor is inside the content, and whatever
//! chunk is retained holds exactly the content bytes at the cursor. A
//! server that honours range requests keeps every handle coherent, and
//! under coherence reads reproduce the reference bytes.

use vstd::prelude::*;

use crate::file::Model;
use crate::file::ReadDemand;
use crate::file::SeekDemand;
use crate::file::SeekError;
use crate::file::SeekFrom;
use crate::file::StreamFault;

verus! {

/// The model agrees with the reference content `content`: the probe
/// reported its length, the cursor lies within it, and the retained
/// chunk holds exactly the content bytes starting at the cursor.
pub open spec fn coherent(m: Model, content: Seq<u8>) -> bool {
    &&& content.len() <= u64::MAX
    &&& m.content_length == Some(content.len() as u64)
    &&& m.pos <= content.len()
    &&& (m.last_chunk matches Some(b) ==> m.pos + b.len() <= content.len() && b
        == content.subrange(m.pos as int, m.pos + b.len()))
}

/// Random-access identity, at a delivered chunk: when the stream hands
/// the machine the content bytes at the cursor, the read delivers
/// exactly `content[pos .. pos + n]` for the `n` it reports, advances
/// the cursor by `n`, and stays coherent.
pub proof fn lemma_chunk_read_identity(m: Model, content: Seq<u8>, chunk: Seq<u8>, cap: int)
    requires
        m.wf(),
        coherent(m, content),
        m.last_chunk is None,
        cap >= 0,
        m.pos + chunk.len() <= content.len(),
        chunk == content.subrange(m.pos as int, m.pos + chunk.len()),
    ensures
        ({
            let (m2, data) = m.step_chunk(chunk, cap);
            &&& data == content.subrange(m.pos as int, m.pos + data.len())
            &&& m2.pos == m.pos + data.len()
            &&& m2.wf()
            &&& coherent(m2, content)
        }),
{
    let take = m.take_len(chunk.len() as int, cap);
    let (m2, data) = m.step_chunk(chunk, cap);
    assert(data =~= content.subrange(m.pos as int, m.pos + take));
    if take < chunk.len() {
        assert(m2.last_chunk.unwrap() =~= content.subrange(
            m2.pos as int,
            m2.pos + (chunk.len() - take),
        ));
    }
}

/// Random-access identity, at the retained chunk: whenever a poll of the
/// read delivers bytes out of a coherent model, they are exactly
/// `content[pos .. pos + n]` for the `n` it reports, the cursor advances
/// by `n`, and the model stays coherent.
pub proof fn lemma_poll_read_identity(m: Model, content: Seq<u8>, cap: int)
    requires
        m.wf(),
        coherent(m, content),
        cap >= 0,
    ensures
        ({
            let (m2, d) = m.step_poll_read(cap);
            &&& m2.wf()
            &&& coherent(m2, content)
            &&& (d matches ReadDemand::Deliver(data) ==> data == content.subrange(
                m.pos as int,
                m.pos + data.len(),
            ) && m2.pos == m.pos + data.len())
        }),
{
    let (m2, d) = m.step_poll_read(cap);
    if m.at_eof() {
        assert(Seq::<u8>::empty() =~= content.subrange(m.pos as int, m.pos as int));
    } else if m.last_chunk is Some {
        let b = m.last_chunk.unwrap();
        let stripped = Model { last_chunk: None, ..m };
        let take = stripped.take_len(b.len() as int, cap);
        let (m3, data) = stripped.step_deliver(b, cap);
        assert(data =~= content.subrange(m.pos as int, m.pos + take));
        if take < b.len() {
            assert(m3.last_chunk.unwrap() =~= content.subrange(
                m3.pos as int,
                m3.pos + (b.len() - take),
            ));
        }
    }
}

/// The concatenation of the pieces of `content` between successive cuts,
/// from cut `i` on.
pub open spec fn piece_concat(content: Seq<u8>, cuts: Seq<int>, i: int) -> Seq<u8>
    decreases cuts.len() - i,
{
    if i + 1 < cuts.len() {
        content.subrange(cuts[i], cuts[i + 1]) + piece_concat(content, cuts, i + 1)
    } else {
        Seq::empty()
    }
}

proof fn lemma_piece_concat_subrange(content: Seq<u8>, cuts: Seq<int>, i: int)
    requires
        0 <= i < cuts.len(),
        forall|j: int, k: int| 0 <= j <= k < cuts.len() ==> cuts[j] <= cuts[k],
        forall|j: int| 0 <= j < cuts.len() ==> 0 <= #[trigger] cuts[j] <= content.len(),
    ensures
        piece_concat(content, cuts, i) == content.subrange(cuts[i], cuts[cuts.len() - 1]),
    decreases cuts.len() - i,
{
    if i + 1 < cuts.len() {
        lemma_piece_concat_subrange(content, cuts, i + 1);
        assert(content.subrange(cuts[i], cuts[i + 1]) + content.subrange(
            cuts[i + 1],
            cuts[cuts.len() - 1],
        ) =~= content.subrange(cuts[i], cuts[cuts.len() - 1]));
    } else {
        assert(piece_concat(content, cuts, i) =~= content.subrange(cuts[i], cuts[i]));
    }
}

/// Full sequential read identity: successive reads cut the content at
/// `0 = cuts[0] <= cuts[1] <= ... <= content.len()` — each read delivers
/// one piece, by `lemma_poll_read_identity` — and their concatenation is
/// exactly the content.
pub proof fn lemma_full_sequential_read_identity(content: Seq<u8>, cuts: Seq<int>)
    requires
        cuts.len() >= 1,
        forall|j: int, k: int| 0 <= j <= k < cuts.len() ==> cuts[j] <= cuts[k],
        cuts[0] == 0,
        cuts[cuts.len() - 1] == content.len(),
    ensures
        piece_concat(content, cuts, 0) == content,
{
    assert forall|j: int| 0 <= j < cuts.len() implies 0 <= #[trigger] cuts[j] <= content.len() by {
        assert(cuts[0] <= cuts[j] <= cuts[cuts.len() - 1]);
    }
    lemma_piece_concat_subrange(content, cuts, 0);
    assert(content.subrange(0, content.len() as int) =~= content);
}

/// EOF seek: seeking to exactly the known length resolves, completes at
/// that position without demanding any network activity or recording a
/// new request, and a following read delivers zero bytes.
pub proof fn lemma_eof_seek(m: Model, cap: int)
    requires
        m.wf(),
        m.content_length is Some,
    ensures
        ({
            let l = m.content_length.unwrap();
            let m1 = m.step_start_seek(SeekFrom::Start(l));
            let (m2, d) = m1.step_poll_complete();
            let (m3, d2) = m2.step_poll_read(cap);
            &&& m.seek_target(SeekFrom::Start(l)) == Ok::<u64, SeekError>(l)
            &&& m1 == (Model { seek: Some(l), ..m })
            &&& d == SeekDemand::Done(l)
            &&& m2.pos == l
            &&& (m2.request is None || m2.request == m.request)
            &&& d2 == ReadDemand::Deliver(Seq::<u8>::empty())
            &&& m3 == m2
        }),
{
}

/// A seek to the already-current position is a no-op completed at once:
/// it is cleared without demanding any network activity, and nothing
/// else changes.
pub proof fn lemma_seek_to_current_is_noop(m: Model)
    requires
        m.wf(),
        m.seek == Some(m.pos),
    ensures
        ({
            let (m2, d) = m.step_poll_complete();
            &&& d == SeekDemand::Done(m.pos)
            &&& m2 == (Model { seek: None, ..m })
        }),
{
}

/// Beyond-EOF seek rejection: with the length known, a seek one byte
/// past it resolves to no target and leaves the model untouched.
pub proof fn lemma_beyond_eof_seek_rejected(m: Model)
    requires
        m.wf(),
        m.content_length matches Some(l) && l < u64::MAX,
    ensures
        ({
            let l = m.content_length.unwrap();
            &&& m.seek_target(SeekFrom::Start((l + 1) as u64)) == Err::<u64, SeekError>(
                SeekError::BeyondEnd,
            )
            &&& m.step_start_seek(SeekFrom::Start((l + 1) as u64)) == m
        }),
{
}

/// End-relative equivalence: with the length known, seeking relative to
/// the end with offset zero resolves to the same target, and records the
/// same seek, as seeking to the length from the start.
pub proof fn lemma_end_relative_equivalence(m: Model)
    requires
        m.wf(),
        m.content_length is Some,
    ensures
        ({
            let l = m.content_length.unwrap();
            &&& m.seek_target(SeekFrom::End(0)) == m.seek_target(SeekFrom::Start(l))
            &&& m.seek_target(SeekFrom::End(0)) == Ok::<u64, SeekError>(l)
            &&& m.step_start_seek(SeekFrom::End(0)) == m.step_start_seek(SeekFrom::Start(l))
        }),
{
}

/// Transient retry transparency: one transient stream error with budget
/// left, followed by the reissued request resolving and the chunk
/// arriving, delivers exactly the bytes a faultless attempt would have
/// delivered and leaves the machine in exactly the faultless state —
/// budget restored included.
pub proof fn lemma_transient_retry_transparency(
    m: Model,
    f: StreamFault,
    chunk: Seq<u8>,
    cap: int,
)
    requires
        m.wf(),
        m.response,
        m.request is None,
        m.last_chunk is None,
        !m.at_eof(),
        m.retry_attempt > 0,
        f.transient(),
        cap >= 0,
    ensures
        ({
            let (plain_m, plain_data) = m.step_chunk(chunk, cap);
            let (m1, retried) = m.step_stream_error(f);
            let (m2, d) = m1.step_poll_read(cap);
            let m3 = m2.step_request_ok();
            let (m4, data) = m3.step_chunk(chunk, cap);
            &&& retried
            &&& d == ReadDemand::AwaitRequest(m.pos)
            &&& data == plain_data
            &&& m4 == plain_m
        }),
{
    let (plain_m, plain_data) = m.step_chunk(chunk, cap);
    let (m1, retried) = m.step_stream_error(f);
    let (m2, d) = m1.step_poll_read(cap);
    let m3 = m2.step_request_ok();
    let (m4, data) = m3.step_chunk(chunk, cap);
    assert(m4 =~= plain_m);
}

/// Transient retry transparency, at request resolution: a server-error
/// response to the range request itself, with budget left, followed by
/// the reissued request resolving and the chunk arriving, delivers
/// exactly the bytes a faultless attempt would have delivered and leaves
/// the machine in exactly the faultless state — budget restored
/// included.
pub proof fn lemma_request_retry_transparency(m: Model, f: StreamFault, chunk: Seq<u8>, cap: int)
    requires
        m.wf(),
        m.request == Some(m.pos),
        !m.response,
        m.last_chunk is None,
        !m.at_eof(),
        m.retry_attempt > 0,
        f.transient(),
        cap >= 0,
    ensures
        ({
            let (plain_m, plain_data) = m.step_request_ok().step_chunk(chunk, cap);
            let (m1, retried) = m.step_request_error(f);
            let (m2, d) = m1.step_poll_read(cap);
            let m3 = m2.step_request_ok();
            let (m4, data) = m3.step_chunk(chunk, cap);
            &&& retried
            &&& d == ReadDemand::AwaitRequest(m.pos)
            &&& data == plain_data
            &&& m4 == plain_m
        }),
{
    let (plain_m, plain_data) = m.step_request_ok().step_chunk(chunk, cap);
    let (m1, retried) = m.step_request_error(f);
    let (m2, d) = m1.step_poll_read(cap);
    let m3 = m2.step_request_ok();
    let (m4, data) = m3.step_chunk(chunk, cap);
    assert(m4 =~= plain_m);
}

/// The model after `k` whole retry cycles: a transient stream error, the
/// read reissuing the range request at the cursor, and that request
/// resolving to a fresh stream.
pub open spec fn after_fault_cycles(m: Model, f: StreamFault, k: nat) -> Model
    decreases k,
{
    if k == 0 {
        m
    } else {
        let prev = after_fault_cycles(m, f, (k - 1) as nat);
        let (m1, _) = prev.step_stream_error(f);
        let (m2, _) = m1.step_poll_read(0);
        m2.step_request_ok()
    }
}

/// Retry exhaustion: each of the first `retry_attempt` consecutive
/// transient stream errors is retried, spending one unit of budget and
/// leaving the cursor in place; the next one is not retried — the read
/// fails, surfacing the fault.
pub proof fn lemma_retry_exhaustion(m: Model, f: StreamFault, k: nat)
    requires
        m.wf(),
        m.response,
        m.request is None,
        m.last_chunk is None,
        !m.at_eof(),
        f.transient(),
        k <= m.retry_attempt,
    ensures
        ({
            let mk = after_fault_cycles(m, f, k);
            &&& mk.wf()
            &&& mk.response
            &&& mk.request is None
            &&& mk.last_chunk == m.last_chunk
            &&& mk.pos == m.pos
            &&& mk.retry_attempt == m.retry_attempt - k
            &&& (k < m.retry_attempt ==> mk.step_stream_error(f).1)
            &&& (k == m.retry_attempt ==> !mk.step_stream_error(f).1)
        }),
    decreases k,
{
    if k > 0 {
        lemma_retry_exhaustion(m, f, (k - 1) as nat);
    }
}

} // verus!
