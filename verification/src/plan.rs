//! How a file is cut into chunks.

use vstd::prelude::*;
use vstd::arithmetic::div_mod::{lemma_fundamental_div_mod, lemma_fundamental_div_mod_converse};
use vstd::arithmetic::mul::{lemma_mul_inequality, lemma_mul_is_commutative};
use crate::error::Error;

verus! {

/// No part but the last may be smaller than this many bytes.
pub const ABSOLUTE_MINIMUM_PART_SIZE: u64 = 5_000_000;

/// Added to half the file's length when the chunk size is recomputed, so that
/// the second half is the shorter one.
pub const SPLIT_MARGIN: u64 = 100;

/// The recommended size is unusable for a file of `len` bytes: it would give
/// no full chunk, or one full chunk and nothing after it.
pub open spec fn needs_resize(len: int, size: int) -> bool
    recommends
        size > 0,
{
    len / size == 0 || (len / size == 1 && len % size == 0)
}

/// The chunk size used in place of an unusable recommended size.
pub open spec fn resized_chunk(len: int) -> int {
    if len / 2 + SPLIT_MARGIN >= ABSOLUTE_MINIMUM_PART_SIZE {
        len / 2 + SPLIT_MARGIN
    } else {
        ABSOLUTE_MINIMUM_PART_SIZE as int
    }
}

/// The chunk size planned for a file of `len` bytes.
pub open spec fn planned_chunk_size(len: int, recommended: int) -> int
    recommends
        recommended > 0,
{
    if needs_resize(len, recommended) {
        resized_chunk(len)
    } else {
        recommended
    }
}

/// The number of full chunks planned for a file of `len` bytes.
pub open spec fn planned_chunk_count(len: int, recommended: int) -> int
    recommends
        recommended > 0,
{
    len / planned_chunk_size(len, recommended)
}

/// How a file is cut into parts: `chunk_count` full chunks of `chunk_size`
/// bytes, followed by one last read for what is left.
#[derive(Clone, Copy, Debug, PartialEq, Eq, Structural)]
pub struct UploadPlan {
    pub total_length: u64,
    pub chunk_size: u64,
    pub chunk_count: u64,
}

impl UploadPlan {
    /// The plan is consistent: at least one full chunk, and as many as fit.
    pub open spec fn wf(&self) -> bool {
        &&& self.chunk_size > 0
        &&& self.chunk_count >= 1
        &&& self.chunk_count == self.total_length / self.chunk_size
    }

    /// Derives the plan for a file of `total_length` bytes from the size the
    /// service recommends.
    pub fn derive(total_length: u64, recommended: u64) -> (r: Result<UploadPlan, Error>)
        requires
            recommended > 0,
        ensures
            r is Ok <==> planned_chunk_count(total_length as int, recommended as int) >= 1,
            r matches Ok(p) ==> p.wf() && p.total_length == total_length
                && p.chunk_size == planned_chunk_size(total_length as int, recommended as int)
                && p.chunk_count == planned_chunk_count(total_length as int, recommended as int),
            r matches Err(e) ==> e == Error::InsufficientData,
    {
        let mut chunk_size: u64 = recommended;
        let chunks: u64 = total_length / chunk_size;
        if chunks == 0 || (chunks == 1 && total_length % chunk_size == 0) {
            let half: u64 = total_length / 2 + SPLIT_MARGIN;
            chunk_size = if half >= ABSOLUTE_MINIMUM_PART_SIZE {
                half
            } else {
                ABSOLUTE_MINIMUM_PART_SIZE
            };
        }
        let chunks: u64 = total_length / chunk_size;
        if chunks == 0 {
            return Err(Error::InsufficientData);
        }
        Ok(UploadPlan { total_length, chunk_size, chunk_count: chunks })
    }

    /// How many parts the engine submits: one per full chunk and one for the
    /// remainder, which may be empty.
    pub open spec fn spec_part_count(&self) -> int {
        self.chunk_count + 1
    }

    /// Where the chunk with the given index starts in the file.
    pub open spec fn spec_offset(&self, index: int) -> int {
        self.chunk_size * index
    }

    /// How many bytes the read for the chunk with the given index finds: a
    /// whole chunk, but for the last read, which finds what is left.
    pub open spec fn spec_read_len(&self, index: int) -> int {
        if index < self.chunk_count {
            self.chunk_size as int
        } else {
            self.total_length - self.chunk_size * self.chunk_count
        }
    }

    /// What the read for the chunk with the given index finds in a file with
    /// the content `data`.
    pub open spec fn spec_tile(&self, data: Seq<u8>, index: int) -> Seq<u8> {
        data.subrange(
            self.spec_offset(index),
            self.spec_offset(index) + self.spec_read_len(index),
        )
    }

    /// What the first `n` reads find, joined in order.
    pub open spec fn spec_joined(&self, data: Seq<u8>, n: int) -> Seq<u8>
        decreases n,
    {
        if n <= 0 {
            Seq::<u8>::empty()
        } else {
            self.spec_joined(data, n - 1) + self.spec_tile(data, n - 1)
        }
    }

    /// Where the chunk with the given index starts in the file.
    pub fn offset(&self, index: u64) -> (r: u64)
        requires
            self.wf(),
            index <= self.chunk_count,
        ensures
            r == self.spec_offset(index as int),
            r <= self.total_length,
    {
        proof {
            lemma_chunks_fit(self.total_length as int, self.chunk_size as int);
            lemma_mul_inequality(index as int, self.chunk_count as int, self.chunk_size as int);
            lemma_mul_is_commutative(index as int, self.chunk_size as int);
            lemma_mul_is_commutative(self.chunk_count as int, self.chunk_size as int);
        }
        self.chunk_size * index
    }
}

/// The full chunks of a file never reach past its end.
pub proof fn lemma_chunks_fit(len: int, size: int)
    requires
        len >= 0,
        size > 0,
    ensures
        size * (len / size) <= len,
        len / size >= 0,
{
    lemma_fundamental_div_mod(len, size);
    vstd::arithmetic::div_mod::lemma_mod_bound(len, size);
    vstd::arithmetic::div_mod::lemma_div_pos_is_pos(len, size);
}

/// The reads of a plan tile the file: each starts where the one before it
/// ended, every read but the last finds a whole chunk, and the last finds the
/// rest of the file, which is shorter than a chunk and may be empty.
pub proof fn lemma_reads_tile_the_file(plan: UploadPlan, index: int)
    requires
        plan.wf(),
        0 <= index <= plan.chunk_count,
    ensures
        plan.spec_offset(0) == 0,
        0 <= plan.spec_read_len(index) <= plan.chunk_size,
        index < plan.chunk_count ==> plan.spec_offset(index) + plan.spec_read_len(index)
            == plan.spec_offset(index + 1),
        index == plan.chunk_count ==> plan.spec_offset(index) + plan.spec_read_len(index)
            == plan.total_length,
        index == plan.chunk_count ==> plan.spec_read_len(index) == plan.total_length
            % plan.chunk_size,
        plan.spec_offset(index) + plan.spec_read_len(index) <= plan.total_length,
{
    let len = plan.total_length as int;
    let size = plan.chunk_size as int;
    let count = plan.chunk_count as int;
    lemma_fundamental_div_mod(len, size);
    vstd::arithmetic::div_mod::lemma_mod_bound(len, size);
    assert(size * (index + 1) == size * index + size) by (nonlinear_arith);
    assert(size * 0 == 0) by (nonlinear_arith);
    if index < count {
        assert(size * (index + 1) <= size * count) by (nonlinear_arith)
            requires
                index + 1 <= count,
                size > 0,
        ;
    }
}

/// What the first `n` reads of a plan find is the file up to where read `n`
/// starts, or the whole file once all reads are made.
pub proof fn lemma_joined_is_a_prefix(plan: UploadPlan, data: Seq<u8>, n: int)
    requires
        plan.wf(),
        data.len() == plan.total_length,
        0 <= n <= plan.chunk_count + 1,
    ensures
        n <= plan.chunk_count ==> plan.spec_joined(data, n) == data.subrange(
            0,
            plan.spec_offset(n),
        ),
        n == plan.chunk_count + 1 ==> plan.spec_joined(data, n) == data,
    decreases n,
{
    if n == 0 {
        lemma_reads_tile_the_file(plan, 0);
        assert(plan.spec_joined(data, 0) =~= data.subrange(0, plan.spec_offset(0)));
    } else {
        lemma_joined_is_a_prefix(plan, data, n - 1);
        lemma_reads_tile_the_file(plan, n - 1);
        let start = plan.spec_offset(n - 1);
        let end = start + plan.spec_read_len(n - 1);
        assert(0 <= start <= end <= data.len()) by {
            assert(plan.chunk_size * (n - 1) >= 0) by (nonlinear_arith)
                requires
                    plan.chunk_size >= 0,
                    n - 1 >= 0,
            ;
        }
        assert(data.subrange(0, start) + data.subrange(start, end) =~= data.subrange(0, end));
        if n == plan.chunk_count + 1 {
            assert(data.subrange(0, end) =~= data);
        }
    }
}

/// The reads of a plan, each finding the bytes of the file at its place,
/// together find the file: every byte once, in order.
pub proof fn lemma_tiles_make_the_file(plan: UploadPlan, data: Seq<u8>)
    requires
        plan.wf(),
        data.len() == plan.total_length,
    ensures
        plan.spec_joined(data, plan.spec_part_count()) == data,
{
    lemma_joined_is_a_prefix(plan, data, plan.chunk_count + 1);
}

/// A file of at least twice the minimum part size always gets a plan,
/// whatever size is recommended.
pub proof fn lemma_large_files_get_a_plan(len: u64, recommended: u64)
    requires
        len >= 2 * ABSOLUTE_MINIMUM_PART_SIZE,
        recommended > 0,
    ensures
        planned_chunk_count(len as int, recommended as int) >= 1,
{
    let l = len as int;
    let r = recommended as int;
    if needs_resize(l, r) {
        let c = resized_chunk(l);
        assert(c == l / 2 + SPLIT_MARGIN);
        assert(c <= l);
        assert(l < 2 * c);
        lemma_fundamental_div_mod_converse(l, c, 1, l - c);
    } else {
        lemma_chunks_fit(l, r);
    }
}

/// The chunks planned for a file of at least twice the minimum part size are
/// at least the minimum part size whenever the recommended size is.
pub proof fn lemma_plan_respects_minimum(len: u64, recommended: u64)
    requires
        len >= 2 * ABSOLUTE_MINIMUM_PART_SIZE,
        recommended >= ABSOLUTE_MINIMUM_PART_SIZE,
    ensures
        planned_chunk_size(len as int, recommended as int) >= ABSOLUTE_MINIMUM_PART_SIZE,
        planned_chunk_count(len as int, recommended as int) >= 1,
{
    lemma_large_files_get_a_plan(len, recommended);
}

} // verus!
