//! Blocks, and the bytes that a run of blocks stands for.

use vstd::prelude::*;

verus! {

/// Bytes in a block.
pub const BLOCK_SIZE: usize = 512;

/// One block of a storage device.
#[derive(Clone, Copy)]
pub struct Block {
    pub contents: [u8; 512],
}

/// The address of a block.
#[derive(Clone, Copy, PartialEq, Eq, Structural, Debug)]
pub struct BlockIdx(pub u32);

/// A number of blocks.
#[derive(Clone, Copy, PartialEq, Eq, Structural, Debug)]
pub struct BlockCount(pub u32);

/// The bytes of `blocks`, one block after the other.
pub open spec fn flat(blocks: Seq<Block>) -> Seq<u8> {
    Seq::new(
        blocks.len() * 512,
        |i: int| blocks[i / 512].contents@[i % 512],
    )
}

/// The bytes of `blocks`, one block after the other.
pub fn flatten(blocks: &[Block]) -> (bytes: Vec<u8>)
    ensures
        bytes@ == flat(blocks@),
        bytes@.len() == 512 * blocks@.len(),
        forall|k: int, j: int|
            0 <= k < blocks@.len() && 0 <= j < 512 ==> bytes@[512 * k + j]
                == #[trigger] blocks@[k].contents@[j],
{
    let mut bytes: Vec<u8> = Vec::new();
    let mut k: usize = 0;
    while k < blocks.len()
        invariant
            k <= blocks@.len(),
            bytes@ == flat(blocks@.take(k as int)),
        decreases blocks@.len() - k,
    {
        let ghost before = bytes@;
        bytes.extend_from_slice(blocks[k].contents.as_slice());
        proof {
            let upto = blocks@.take(k as int);
            let next = blocks@.take(k + 1);
            assert forall|i: int| 0 <= i < bytes@.len() implies bytes@[i] == flat(next)[i] by {
                if i < before.len() {
                    assert(before[i] == flat(upto)[i]);
                    assert(upto[i / 512] == next[i / 512]);
                } else {
                    assert(i / 512 == k);
                    assert(i % 512 == i - before.len());
                }
            }
            assert(bytes@ =~= flat(next));
        }
        k = k + 1;
    }
    proof {
        assert(blocks@.take(k as int) =~= blocks@);
        assert forall|k: int, j: int| 0 <= k < blocks@.len() && 0 <= j < 512 implies bytes@[512 * k
            + j] == #[trigger] blocks@[k].contents@[j] by {
            let i = 512 * k + j;
            assert(i / 512 == k && i % 512 == j);
        }
    }
    bytes
}

/// The blocks whose bytes, one after the other, are `bytes`.
pub fn split(bytes: &[u8]) -> (blocks: Vec<Block>)
    requires
        bytes@.len() % 512 == 0,
    ensures
        flat(blocks@) == bytes@,
        512 * blocks@.len() == bytes@.len(),
        forall|k: int|
            0 <= k < blocks@.len() ==> (#[trigger] blocks@[k]).contents@ == bytes@.subrange(
                512 * k,
                512 * k + 512,
            ),
{
    let mut blocks: Vec<Block> = Vec::new();
    let len: usize = bytes.len();
    let n: usize = len / 512;
    let mut k: usize = 0;
    while k < n
        invariant
            len == bytes@.len(),
            n == len / 512,
            len % 512 == 0,
            k <= n,
            blocks@.len() == k,
            flat(blocks@) == bytes@.take(512 * k),
        decreases n - k,
    {
        let mut contents: [u8; 512] = [0u8; 512];
        let mut j: usize = 0;
        while j < 512
            invariant
                len == bytes@.len(),
                n == len / 512,
                k < n,
                j <= 512,
                forall|i: int| 0 <= i < j ==> contents@[i] == bytes@[512 * k + i],
            decreases 512 - j,
        {
            contents[j] = bytes[512 * k + j];
            j = j + 1;
        }
        let ghost before = blocks@;
        blocks.push(Block { contents });
        proof {
            let upto = bytes@.take(512 * (k + 1));
            assert forall|i: int| 0 <= i < upto.len() implies flat(blocks@)[i] == upto[i] by {
                if i < 512 * k {
                    assert(flat(before)[i] == bytes@.take(512 * k)[i]);
                    assert(blocks@[i / 512] == before[i / 512]);
                } else {
                    assert(i / 512 == k);
                    assert(i % 512 == i - 512 * k);
                }
            }
            assert(flat(blocks@) =~= upto);
        }
        k = k + 1;
    }
    proof {
        assert(bytes@.take(512 * k) =~= bytes@);
        assert forall|k: int| 0 <= k < blocks@.len() implies (#[trigger] blocks@[k]).contents@
            == bytes@.subrange(512 * k, 512 * k + 512) by {
            assert forall|j: int| 0 <= j < 512 implies blocks@[k].contents@[j] == bytes@[512 * k
                + j] by {
                let i = 512 * k + j;
                assert(i / 512 == k && i % 512 == j);
                assert(flat(blocks@)[i] == bytes@[i]);
            }
            assert(blocks@[k].contents@ =~= bytes@.subrange(512 * k, 512 * k + 512));
        }
    }
    blocks
}

} // verus!
