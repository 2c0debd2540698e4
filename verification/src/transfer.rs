//! The transfer engine: moving the archive's bytes to the remote host in
//! bounded-size chunks.
//!
//! The channel itself is network I/O and is driven by the caller; the
//! library fixes everything the protocol depends on. The upload declares
//! the destination path, the file mode and the exact byte length up front
//! (the remote side pre-allocates from the declared length), and the
//! bytes are written strictly in order as the chunks of [`UploadPlan`].
//! The chunks concatenate back to the archive exactly, so the declared
//! length always equals the sum of the bytes written.

use vstd::prelude::*;
use vstd::seq_lib::lemma_flatten_concat;

use crate::sequencer::{remote_archive_path, remote_archive_path_string};

verus! {

/// How many bytes one channel write carries, independent of the file
/// size.
pub const UPLOAD_CHUNK_SIZE: usize = 1000;

/// The file mode the upload declares: owner read/write, group and other
/// read.
pub const UPLOAD_FILE_MODE: u32 = 0o644;

/// The division of `data` into consecutive chunks of `size` bytes, in
/// order, the last chunk possibly shorter. Empty data yields no chunks;
/// a zero `size` is out of use and yields no chunks either.
pub open spec fn chunks_of(data: Seq<u8>, size: nat) -> Seq<Seq<u8>>
    decreases data.len(),
{
    if size < 1 || data.len() == 0 {
        Seq::empty()
    } else if data.len() <= size {
        seq![data]
    } else {
        seq![data.take(size as int)] + chunks_of(data.skip(size as int), size)
    }
}

/// Law (exact transfer): the chunks of `data` concatenate back to `data`
/// itself — nothing is lost, duplicated or reordered — so the sum of the
/// bytes written equals the declared length exactly.
pub proof fn lemma_chunks_exact(data: Seq<u8>, size: nat)
    requires
        size >= 1,
    ensures
        chunks_of(data, size).flatten() == data,
        chunks_of(data, size).flatten().len() == data.len(),
    decreases data.len(),
{
    broadcast use Seq::lemma_flatten_singleton;

    if data.len() == 0 {
        assert(chunks_of(data, size).flatten() =~= data);
    } else if data.len() <= size {
        assert(chunks_of(data, size) == seq![data]);
        assert(seq![data].len() == 1);
        assert(seq![data].flatten() == seq![data][0]);
    } else {
        lemma_chunks_exact(data.skip(size as int), size);
        lemma_flatten_concat(seq![data.take(size as int)], chunks_of(data.skip(size as int), size));
        assert(seq![data.take(size as int)].len() == 1);
        assert(seq![data.take(size as int)].flatten() == seq![data.take(size as int)][0]);
        assert(data.take(size as int) + data.skip(size as int) =~= data);
    }
}

/// Law (chunk count): `data` splits into exactly the rounded-up quotient
/// of its length by the chunk size — a 3 000 000-byte archive with
/// 1000-byte chunks takes exactly 3000 writes.
pub proof fn lemma_chunk_count(data: Seq<u8>, size: nat)
    requires
        size >= 1,
    ensures
        chunks_of(data, size).len() == (data.len() + size - 1) / (size as int),
    decreases data.len(),
{
    if data.len() == 0 {
        assert((0 + size - 1) / (size as int) == 0) by (nonlinear_arith)
            requires
                size >= 1,
        ;
    } else if data.len() <= size {
        assert((data.len() + size - 1) / (size as int) == 1) by (nonlinear_arith)
            requires
                size >= 1,
                0 < data.len() <= size,
        ;
    } else {
        lemma_chunk_count(data.skip(size as int), size);
        assert(data.skip(size as int).len() == data.len() - size);
        assert((data.len() - size + size - 1) / (size as int) + 1 == (data.len() + size - 1) / (
        size as int)) by (nonlinear_arith)
            requires
                size >= 1,
                data.len() > size,
        ;
    }
}

/// Law (bounded memory): every chunk is non-empty and no chunk exceeds
/// the configured size.
pub proof fn lemma_chunk_sizes(data: Seq<u8>, size: nat, i: int)
    requires
        size >= 1,
        0 <= i < chunks_of(data, size).len(),
    ensures
        0 < chunks_of(data, size)[i].len() <= size,
    decreases data.len(),
{
    if data.len() > size && i > 0 {
        lemma_chunk_sizes(data.skip(size as int), size, i - 1);
    }
}

/// Splits `data` into consecutive chunks of `size` bytes, in order.
pub fn chunk_split(data: &Vec<u8>, size: usize) -> (chunks: Vec<Vec<u8>>)
    requires
        size >= 1,
    ensures
        chunks.deep_view() == chunks_of(data@, size as nat),
{
    let mut chunks: Vec<Vec<u8>> = Vec::new();
    let len = data.len();
    let mut i: usize = 0;
    proof {
        assert(data@.skip(0) =~= data@);
        assert(chunks.deep_view() =~~= Seq::<Seq<u8>>::empty());
    }
    while i < len
        invariant
            size >= 1,
            len == data@.len(),
            i <= len,
            chunks_of(data@, size as nat) == chunks.deep_view() + chunks_of(
                data@.skip(i as int),
                size as nat,
            ),
        decreases len - i,
    {
        let end = if len - i < size {
            len
        } else {
            i + size
        };
        let mut chunk: Vec<u8> = Vec::new();
        let mut j: usize = i;
        while j < end
            invariant
                i <= j <= end <= len,
                len == data@.len(),
                chunk@ == data@.subrange(i as int, j as int),
            decreases end - j,
        {
            chunk.push(data[j]);
            assert(data@.subrange(i as int, j + 1) =~= data@.subrange(i as int, j as int).push(
                data@[j as int],
            ));
            j = j + 1;
        }
        proof {
            let rest = data@.skip(i as int);
            assert(chunk@ =~= rest.take((end - i) as int));
            if rest.len() <= size as nat {
                assert(chunks_of(rest, size as nat) == seq![rest]);
                assert(chunk@ =~= rest);
                assert(rest.skip((end - i) as int) =~= Seq::<u8>::empty());
            } else {
                assert(chunks_of(rest, size as nat) == seq![rest.take(size as int)] + chunks_of(
                    rest.skip(size as int),
                    size as nat,
                ));
            }
            assert(rest.skip((end - i) as int) =~= data@.skip(end as int));
            assert(chunks_of(rest, size as nat) == seq![chunk@] + chunks_of(
                data@.skip(end as int),
                size as nat,
            ));
        }
        let ghost pre = chunks.deep_view();
        let ghost chunk_view = chunk@;
        chunks.push(chunk);
        proof {
            assert(chunks.deep_view() =~~= pre.push(chunk_view));
            assert(chunks.deep_view() + chunks_of(data@.skip(end as int), size as nat)
                =~~= chunks_of(data@, size as nat));
        }
        i = end;
    }
    proof {
        assert(data@.skip(len as int) =~= Seq::<u8>::empty());
        assert(chunks.deep_view() =~~= chunks_of(data@, size as nat));
    }
    chunks
}

/// Everything one upload declares and writes: the fixed remote temporary
/// path, the declared file mode and byte length, and the ordered chunks
/// whose concatenation is exactly the archive.
pub struct UploadPlan {
    /// The remote temporary path the upload is addressed to.
    pub remote_path: String,
    /// The declared file mode.
    pub mode: u32,
    /// The declared total byte length; the remote side pre-allocates
    /// from it, so it must be exact.
    pub declared_len: u64,
    /// The bytes to write, in order, in bounded-size chunks.
    pub chunks: Vec<Vec<u8>>,
}

/// Plans the upload of the archive's bytes to `/tmp/<archive>`: mode
/// `0o644`, declared length exactly the archive's length, and the bytes
/// split into chunks of `chunk_size`.
pub fn upload_plan(archive: &str, data: &Vec<u8>, chunk_size: usize) -> (p: UploadPlan)
    requires
        chunk_size >= 1,
        data@.len() <= u64::MAX,
    ensures
        p.remote_path@ == remote_archive_path(archive@),
        p.mode == 0o644,
        p.declared_len == data@.len(),
        p.chunks.deep_view() == chunks_of(data@, chunk_size as nat),
        p.chunks.deep_view().flatten() == data@,
{
    proof {
        lemma_chunks_exact(data@, chunk_size as nat);
    }
    UploadPlan {
        remote_path: remote_archive_path_string(archive),
        mode: 0o644,
        declared_len: data.len() as u64,
        chunks: chunk_split(data, chunk_size),
    }
}

} // verus!
