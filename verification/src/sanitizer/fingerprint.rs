//! Register blocks that hold leaked adapter memory.
use vstd::prelude::*;

verus! {

/// Registers in a block.
pub const BLOCK_LEN: usize = 60;

/// No legitimate register reaches this value.
pub const HIGH_REGISTER_THRESHOLD: u16 = 0xE000;

/// A block with more high registers than this is leaked memory.
pub const HIGH_REGISTER_COUNT_LIMIT: usize = 10;

/// A block with more leaked values than this is leaked memory.
pub const LEAKED_COUNT_LIMIT: usize = 5;

/// Whether `value` is one that leaks into the register at `offset`.
pub open spec fn leaks(offset: int, value: u16) -> bool {
    ||| offset == 28 && value == 0x4C32
    ||| offset == 30 && value == 0xA119
    ||| offset == 31 && value == 0x34EA
    ||| offset == 32 && value == 0xE77F
    ||| offset == 33 && value == 0xD475
    ||| offset == 35 && value == 0x4500
    ||| offset == 40 && (value == 0xE4F9 || value == 0xB619)
    ||| offset == 41 && value == 0xC0A8
    ||| offset == 43 && value == 0xC0A8
    ||| offset == 46 && value == 0xC5E9
    ||| offset == 50 && (value == 0x60EF || value == 0x503C)
    ||| offset == 51 && value == 0x8018
    ||| offset == 52 && value == 0x43E0
    ||| offset == 53 && value == 0xF6CE
    ||| offset == 56 && value == 0x080A
    ||| offset == 58 && value == 0xFCC1
    ||| offset == 59 && value == 0x661E
}

/// How many registers of `data` satisfy `wanted`, given offset and value.
pub open spec fn count_where(data: Seq<u16>, wanted: spec_fn(int, u16) -> bool) -> nat
    decreases data.len(),
{
    if data.len() == 0 {
        0
    } else {
        count_where(data.drop_last(), wanted) + if wanted(data.len() - 1, data.last()) {
            1nat
        } else {
            0
        }
    }
}

/// How many registers hold a value that leaks there.
pub open spec fn leaked_count(data: Seq<u16>) -> nat {
    count_where(data, |offset: int, value: u16| leaks(offset, value))
}

/// How many registers are in the range that no legitimate one reaches.
pub open spec fn high_count(data: Seq<u16>) -> nat {
    count_where(data, |offset: int, value: u16| value >= HIGH_REGISTER_THRESHOLD)
}

fn is_leaked(offset: usize, value: u16) -> (r: bool)
    ensures
        r == leaks(offset as int, value),
{
    match offset {
        28 => value == 0x4C32,
        30 => value == 0xA119,
        31 => value == 0x34EA,
        32 => value == 0xE77F,
        33 => value == 0xD475,
        35 => value == 0x4500,
        40 => value == 0xE4F9 || value == 0xB619,
        41 | 43 => value == 0xC0A8,
        46 => value == 0xC5E9,
        50 => value == 0x60EF || value == 0x503C,
        51 => value == 0x8018,
        52 => value == 0x43E0,
        53 => value == 0xF6CE,
        56 => value == 0x080A,
        58 => value == 0xFCC1,
        59 => value == 0x661E,
        _ => false,
    }
}

/// Whether a block holds adapter memory.
pub open spec fn suspicious(data: Seq<u16>) -> bool {
    data.len() == BLOCK_LEN && (leaked_count(data) > LEAKED_COUNT_LIMIT || high_count(data)
        > HIGH_REGISTER_COUNT_LIMIT)
}

/// Whether a block of 60 registers holds adapter memory in place of inverter
/// registers: more than 5 values known to leak, or more than 10 values higher
/// than any register gets. Blocks of another length are not judged.
pub fn is_block_suspicious(data: &[u16]) -> (r: bool)
    ensures
        r == suspicious(data@),
{
    if data.len() != BLOCK_LEN {
        return false;
    }
    let mut leaked: usize = 0;
    let mut high: usize = 0;
    let mut i: usize = 0;
    while i < data.len()
        invariant
            i <= data.len(),
            data.len() == BLOCK_LEN,
            leaked <= i,
            high <= i,
            leaked == leaked_count(data@.take(i as int)),
            high == high_count(data@.take(i as int)),
        decreases data.len() - i,
    {
        let value: u16 = data[i];
        proof {
            let next = data@.take(i + 1);
            assert(next.drop_last() =~= data@.take(i as int));
            assert(next.last() == value);
        }
        if is_leaked(i, value) {
            leaked += 1;
        }
        if value >= HIGH_REGISTER_THRESHOLD {
            high += 1;
        }
        i += 1;
    }
    assert(data@.take(i as int) =~= data@);
    leaked > LEAKED_COUNT_LIMIT || high > HIGH_REGISTER_COUNT_LIMIT
}

} // verus!
