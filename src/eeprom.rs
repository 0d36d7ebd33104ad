//! Splitting of SPI EEPROM transfers into pieces that fit the bounce
//! buffer.
use vstd::prelude::*;

verus! {

/// Size of the bounce buffer through which EEPROM bytes are copied.
pub const EEPROM_CHUNK_BYTES: usize = 128;

/// One piece of a transfer: `len` bytes at `eeprom_offset` in the EEPROM and
/// at `data_offset` in the caller's buffer.
#[derive(Clone, Copy, Debug, PartialEq, Eq, Structural)]
pub struct Chunk {
    pub eeprom_offset: usize,
    pub data_offset: usize,
    pub len: usize,
}

/// Piece `k` of a transfer of `len` bytes from EEPROM offset `offset`:
/// full buffers, then whatever is left.
pub open spec fn chunk_at(offset: int, len: int, k: int) -> Chunk {
    let start = EEPROM_CHUNK_BYTES * k;
    Chunk {
        eeprom_offset: (offset + start) as usize,
        data_offset: start as usize,
        len: (if len - start < EEPROM_CHUNK_BYTES {
            len - start
        } else {
            EEPROM_CHUNK_BYTES as int
        }) as usize,
    }
}

/// The pieces of a transfer of `len` bytes at EEPROM offset `offset`, in
/// order: each as large as the buffer allows, together covering the range
/// once. An empty transfer has no piece.
pub fn chunk_plan(offset: usize, len: usize) -> (r: Vec<Chunk>)
    requires
        offset + len <= usize::MAX,
    ensures
        r@.len() == (len + EEPROM_CHUNK_BYTES - 1) / (EEPROM_CHUNK_BYTES as int),
        forall|k: int| 0 <= k < r@.len() ==> #[trigger] r@[k] == chunk_at(offset as int, len as int, k),
{
    let mut plan: Vec<Chunk> = Vec::new();
    let mut pos: usize = 0;
    while pos < len
        invariant
            offset + len <= usize::MAX,
            pos <= len,
            pos < len ==> pos == EEPROM_CHUNK_BYTES * plan@.len(),
            pos == len ==> plan@.len() == (len + EEPROM_CHUNK_BYTES - 1) / (EEPROM_CHUNK_BYTES as int),
            pos == EEPROM_CHUNK_BYTES * plan@.len() || pos == len,
            forall|k: int| 0 <= k < plan@.len() ==> #[trigger] plan@[k] == chunk_at(offset as int, len as int, k),
        decreases len - pos,
    {
        let amount: usize = if len - pos < EEPROM_CHUNK_BYTES {
            len - pos
        } else {
            EEPROM_CHUNK_BYTES
        };
        let ghost k = plan@.len() as int;
        plan.push(Chunk { eeprom_offset: offset + pos, data_offset: pos, len: amount });
        pos = pos + amount;
        proof {
            assert(plan@[k] == chunk_at(offset as int, len as int, k));
            if pos == len {
                assert((len + EEPROM_CHUNK_BYTES - 1) / (EEPROM_CHUNK_BYTES as int) == k + 1);
            }
        }
    }
    plan
}

} // verus!
