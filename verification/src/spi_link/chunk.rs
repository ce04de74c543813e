//! Splitting of a block range into the chunks that travel in one frame each.
//!
//! The master reads or writes `nblocks_total` blocks from `lba_start` as a
//! series of frames; frame `chunk_idx` carries the bytes from
//! `chunk_idx * MAX_PAYLOAD` of the range, at most `MAX_PAYLOAD` of them.

use vstd::prelude::*;

use crate::esp_err::{ESP_ERR_INVALID_ARG, ESP_ERR_INVALID_SIZE, ESP_ERR_INVALID_STATE};
use crate::spi_link::protocol::MAX_PAYLOAD;

verus! {

/// The chunk `chunk_idx` of the range of `nblocks_total` blocks from
/// `lba_start`, on a drive of `block_count` blocks of `block_size` bytes:
/// `(first block, number of blocks, length in bytes)`, or the error that
/// rejects it.
pub open spec fn spec_compute_chunk(
    block_size: u32,
    block_count: u32,
    lba_start: u32,
    nblocks_total: u32,
    chunk_idx: u16,
) -> Result<(u32, u32, usize), i32> {
    let bs = block_size as int;
    let total = nblocks_total * bs;
    let off = chunk_idx * MAX_PAYLOAD;
    if bs == 0 {
        Err(ESP_ERR_INVALID_STATE)
    } else if bs > MAX_PAYLOAD {
        Err(ESP_ERR_INVALID_SIZE)
    } else if MAX_PAYLOAD as int % bs != 0 {
        Err(ESP_ERR_INVALID_STATE)
    } else if total > usize::MAX {
        Err(ESP_ERR_INVALID_SIZE)
    } else if off >= total {
        Err(ESP_ERR_INVALID_ARG)
    } else {
        let len = if total - off < MAX_PAYLOAD {
            total - off
        } else {
            MAX_PAYLOAD as int
        };
        let lba = lba_start + off / bs;
        let nb = len / bs;
        if len % bs != 0 {
            Err(ESP_ERR_INVALID_SIZE)
        } else if block_count == 0 {
            Err(ESP_ERR_INVALID_STATE)
        } else if lba + nb > block_count {
            Err(ESP_ERR_INVALID_ARG)
        } else {
            Ok((lba as u32, nb as u32, len as usize))
        }
    }
}

/// Computes chunk `chunk_idx` of the range of `nblocks_total` blocks from
/// `lba_start` on a drive of `block_count` blocks of `block_size` bytes.
///
/// It fails with `ESP_ERR_INVALID_STATE` when the block size is unknown or
/// does not divide `MAX_PAYLOAD`, or the block count is unknown; with
/// `ESP_ERR_INVALID_SIZE` when a block is larger than `MAX_PAYLOAD` or the
/// range's byte length does not fit in a `usize`; and with
/// `ESP_ERR_INVALID_ARG` when the chunk starts past the range or its blocks
/// run past the end of the drive.
pub fn compute_chunk(
    block_size: u32,
    block_count: u32,
    lba_start: u32,
    nblocks_total: u32,
    chunk_idx: u16,
) -> (r: Result<(u32, u32, usize), i32>)
    ensures
        r == spec_compute_chunk(block_size, block_count, lba_start, nblocks_total, chunk_idx),
{
    let bs = block_size as usize;
    if bs == 0 {
        return Err(ESP_ERR_INVALID_STATE);
    }
    if bs > MAX_PAYLOAD {
        return Err(ESP_ERR_INVALID_SIZE);
    }
    if MAX_PAYLOAD % bs != 0 {
        return Err(ESP_ERR_INVALID_STATE);
    }
    let total_bytes = match (nblocks_total as usize).checked_mul(bs) {
        Some(t) => t,
        None => {
            return Err(ESP_ERR_INVALID_SIZE);
        },
    };
    let offset_bytes = (chunk_idx as usize) * MAX_PAYLOAD;
    if offset_bytes >= total_bytes {
        return Err(ESP_ERR_INVALID_ARG);
    }
    let rest = total_bytes - offset_bytes;
    let chunk_len = if rest < MAX_PAYLOAD {
        rest
    } else {
        MAX_PAYLOAD
    };
    if chunk_len % bs != 0 {
        return Err(ESP_ERR_INVALID_SIZE);
    }
    if block_count == 0 {
        return Err(ESP_ERR_INVALID_STATE);
    }
    assert(offset_bytes / bs <= offset_bytes) by (nonlinear_arith)
        requires
            bs >= 1,
    ;
    assert(chunk_len / bs <= chunk_len) by (nonlinear_arith)
        requires
            bs >= 1,
    ;
    let lba_i: u64 = lba_start as u64 + (offset_bytes / bs) as u64;
    let nblocks_i: u64 = (chunk_len / bs) as u64;
    if lba_i + nblocks_i > block_count as u64 {
        return Err(ESP_ERR_INVALID_ARG);
    }
    Ok((lba_i as u32, nblocks_i as u32, chunk_len))
}

/// Where the checks pass, the chunk is a whole number of blocks, at most
/// `MAX_PAYLOAD` bytes and at least one block long; it starts
/// `chunk_idx * MAX_PAYLOAD` bytes into the range and ends where the next
/// chunk starts, or at the end of the range for the last one. So the chunks
/// `0, 1, ...` tile the range exactly, and each stays on the drive.
pub proof fn lemma_chunks_tile_range(
    block_size: u32,
    block_count: u32,
    lba_start: u32,
    nblocks_total: u32,
    chunk_idx: u16,
)
    requires
        spec_compute_chunk(block_size, block_count, lba_start, nblocks_total, chunk_idx) is Ok,
    ensures
        ({
            let (lba, nb, len) = spec_compute_chunk(
                block_size,
                block_count,
                lba_start,
                nblocks_total,
                chunk_idx,
            )->Ok_0;
            let bs = block_size as int;
            let end = if (chunk_idx + 1) * MAX_PAYLOAD < nblocks_total * bs {
                (chunk_idx + 1) * MAX_PAYLOAD
            } else {
                nblocks_total * bs
            };
            &&& 0 < len <= MAX_PAYLOAD
            &&& len == nb * bs
            &&& nb > 0
            &&& (lba - lba_start) * bs == chunk_idx * MAX_PAYLOAD
            &&& (lba + nb - lba_start) * bs == end
            &&& lba + nb <= block_count
        }),
{
    let bs = block_size as int;
    let total = nblocks_total * bs;
    let off = chunk_idx * MAX_PAYLOAD;
    let len = if total - off < MAX_PAYLOAD {
        total - off
    } else {
        MAX_PAYLOAD as int
    };
    let k = MAX_PAYLOAD as int / bs;
    assert(MAX_PAYLOAD as int == k * bs) by (nonlinear_arith)
        requires
            bs > 0,
            MAX_PAYLOAD as int % bs == 0,
            k == MAX_PAYLOAD as int / bs,
    ;
    assert(off == (chunk_idx * k) * bs) by (nonlinear_arith)
        requires
            off == chunk_idx * MAX_PAYLOAD,
            MAX_PAYLOAD as int == k * bs,
    ;
    assert(off / bs == chunk_idx * k) by (nonlinear_arith)
        requires
            off == (chunk_idx * k) * bs,
            bs > 0,
    ;
    let q = if total - off < MAX_PAYLOAD {
        nblocks_total - chunk_idx * k
    } else {
        k
    };
    assert(len == q * bs) by (nonlinear_arith)
        requires
            total - off < MAX_PAYLOAD ==> q == nblocks_total - chunk_idx * k,
            !(total - off < MAX_PAYLOAD) ==> q == k,
            len == (if total - off < MAX_PAYLOAD { total - off } else { MAX_PAYLOAD as int }),
            total == nblocks_total * bs,
            off == (chunk_idx * k) * bs,
            MAX_PAYLOAD as int == k * bs,
    ;
    vstd::arithmetic::div_mod::lemma_mod_multiples_basic(q, bs);
    vstd::arithmetic::div_mod::lemma_div_multiples_vanish(q, bs);
    assert(q * bs == bs * q) by (nonlinear_arith);
    assert(len % bs == 0 && len / bs == q);
    assert(len == (len / bs) * bs);
    assert(len / bs > 0) by (nonlinear_arith)
        requires
            bs > 0,
            len > 0,
            len == (len / bs) * bs,
    ;
    assert((off / bs + len / bs) * bs == off + len) by (nonlinear_arith)
        requires
            off == (off / bs) * bs,
            len == (len / bs) * bs,
    ;
}

} // verus!
