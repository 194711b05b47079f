//! The file-store write model: a file's content as a byte vector, written
//! either buffered in one piece or by draining a chunked stream.
//!
//! Both paths truncate first — a write must never land behind a cursor that
//! an earlier verification read advanced — and the chunked path is proved to
//! neither drop nor duplicate bytes across chunk boundaries.

use vstd::prelude::*;

verus! {

/// The content a file ends with after draining `chunks` into it in order,
/// one append per chunk, starting from empty.
pub open spec fn stream_written(chunks: Seq<Seq<u8>>) -> Seq<u8>
    decreases chunks.len(),
{
    if chunks.len() == 0 {
        Seq::empty()
    } else {
        stream_written(chunks.drop_last()) + chunks.last()
    }
}

/// Streaming fidelity: draining a body chunk by chunk writes exactly the
/// concatenation of the chunks — the same bytes a buffered write of the
/// whole body would leave, with nothing dropped or duplicated across chunk
/// boundaries.
pub proof fn lemma_stream_written_is_concat(chunks: Seq<Seq<u8>>)
    ensures
        stream_written(chunks) == chunks.flatten(),
    decreases chunks.len(),
{
    broadcast use Seq::lemma_flatten_push;

    if chunks.len() == 0 {
        assert(stream_written(chunks) =~= chunks.flatten());
    } else {
        lemma_stream_written_is_concat(chunks.drop_last());
        assert(chunks.drop_last().push(chunks.last()) =~= chunks);
    }
}

/// Writes the whole buffered `data` into the file `dest`, truncating any
/// prior content.
pub fn write_buffered(dest: &mut Vec<u8>, data: &[u8]) -> (n: usize)
    ensures
        final(dest)@ == data@,
        n == data@.len(),
{
    dest.clear();
    let mut i: usize = 0;
    while i < data.len()
        invariant
            i <= data@.len(),
            dest@ == data@.subrange(0, i as int),
        decreases data@.len() - i,
    {
        dest.push(data[i]);
        i = i + 1;
        assert(dest@ =~= data@.subrange(0, i as int));
    }
    assert(dest@ =~= data@);
    i
}

/// Drains the chunked stream `chunks` into the file `dest`, truncating any
/// prior content: the file ends with exactly the concatenation of the
/// chunks, and the returned count is the number of bytes written.
pub fn write_stream(dest: &mut Vec<u8>, chunks: &Vec<Vec<u8>>) -> (n: usize)
    ensures
        final(dest)@ == chunks.deep_view().flatten(),
        final(dest)@ == stream_written(chunks.deep_view()),
        n == final(dest)@.len(),
{
    dest.clear();
    let mut i: usize = 0;
    while i < chunks.len()
        invariant
            i <= chunks@.len(),
            dest@ == stream_written(chunks.deep_view().take(i as int)),
        decreases chunks@.len() - i,
    {
        let ghost prefix = chunks.deep_view().take(i as int);
        let chunk = &chunks[i];
        let mut j: usize = 0;
        while j < chunk.len()
            invariant
                j <= chunk@.len(),
                dest@ == stream_written(prefix) + chunk@.subrange(0, j as int),
            decreases chunk@.len() - j,
        {
            dest.push(chunk[j]);
            j = j + 1;
            assert(dest@ =~= stream_written(prefix) + chunk@.subrange(0, j as int));
        }
        i = i + 1;
        proof {
            let next = chunks.deep_view().take(i as int);
            assert(next.drop_last() =~= prefix);
            assert(next.last() == chunk@);
            assert(chunk@.subrange(0, chunk@.len() as int) =~= chunk@);
        }
    }
    proof {
        assert(chunks.deep_view().take(chunks@.len() as int) =~= chunks.deep_view());
        lemma_stream_written_is_concat(chunks.deep_view());
    }
    dest.len()
}

} // verus!
