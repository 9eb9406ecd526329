//! The two fixed 94-entry translation tables, and the opcode alphabet.
//!
//! Both tables are indexed by a printable-character ordinal in `[0, 94)`
//! (byte value minus 33).  The decode table turns a memory cell, adjusted
//! by its position, into an instruction character; the mutate table gives
//! the replacement value written back into every executed cell.  A single
//! transposed entry would silently change the meaning of every program,
//! so the entries are spelled out one by one and the executable lookups
//! are proved equal to the specification tables entry for entry.

use vstd::prelude::*;

verus! {

/// Instruction character that loads a new data pointer from memory.
pub const OP_JUMP_DATA: u8 = 106;

/// Instruction character that loads a new code pointer from memory.
pub const OP_JUMP_CODE: u8 = 105;

/// Instruction character that rotates the operand cell by one trit.
pub const OP_ROTATE: u8 = 42;

/// Instruction character that combines the data register and the operand
/// cell with the digit-wise operation.
pub const OP_CRAZY: u8 = 112;

/// Instruction character that emits the low byte of the data register.
pub const OP_OUTPUT: u8 = 60;

/// Instruction character that reads one byte into the data register.
pub const OP_INPUT: u8 = 47;

/// Instruction character that stops the machine.
pub const OP_STOP: u8 = 118;

/// Instruction character that does nothing; it is nonetheless accepted by
/// the loader, and like every other executed cell it still triggers the
/// post-step mutation.
pub const OP_NOP: u8 = 111;

/// The eight instruction characters the loader accepts at load time.
pub open spec fn valid_opcode(ch: u8) -> bool {
    ch == OP_JUMP_DATA || ch == OP_JUMP_CODE || ch == OP_ROTATE || ch == OP_CRAZY
        || ch == OP_OUTPUT || ch == OP_INPUT || ch == OP_STOP || ch == OP_NOP
}

/// Runtime test for [`valid_opcode`].
pub fn is_valid_opcode(ch: u8) -> (r: bool)
    ensures
        r == valid_opcode(ch),
{
    ch == OP_JUMP_DATA || ch == OP_JUMP_CODE || ch == OP_ROTATE || ch == OP_CRAZY
        || ch == OP_OUTPUT || ch == OP_INPUT || ch == OP_STOP || ch == OP_NOP
}

/// Entry `i` of the decode table: the instruction character assigned to
/// position-adjusted ordinal `i`.
#[verifier::opaque]
pub open spec fn decode_entry(i: int) -> u8
    recommends
        0 <= i < 94,
{
    if i == 0 { 43 }
    else if i == 1 { 98 }
    else if i == 2 { 40 }
    else if i == 3 { 50 }
    else if i == 4 { 57 }
    else if i == 5 { 101 }
    else if i == 6 { 42 }
    else if i == 7 { 106 }
    else if i == 8 { 49 }
    else if i == 9 { 86 }
    else if i == 10 { 77 }
    else if i == 11 { 69 }
    else if i == 12 { 75 }
    else if i == 13 { 76 }
    else if i == 14 { 121 }
    else if i == 15 { 67 }
    else if i == 16 { 125 }
    else if i == 17 { 41 }
    else if i == 18 { 56 }
    else if i == 19 { 38 }
    else if i == 20 { 109 }
    else if i == 21 { 35 }
    else if i == 22 { 126 }
    else if i == 23 { 87 }
    else if i == 24 { 62 }
    else if i == 25 { 113 }
    else if i == 26 { 120 }
    else if i == 27 { 100 }
    else if i == 28 { 82 }
    else if i == 29 { 112 }
    else if i == 30 { 48 }
    else if i == 31 { 119 }
    else if i == 32 { 107 }
    else if i == 33 { 114 }
    else if i == 34 { 85 }
    else if i == 35 { 111 }
    else if i == 36 { 91 }
    else if i == 37 { 68 }
    else if i == 38 { 55 }
    else if i == 39 { 44 }
    else if i == 40 { 88 }
    else if i == 41 { 84 }
    else if i == 42 { 99 }
    else if i == 43 { 65 }
    else if i == 44 { 34 }
    else if i == 45 { 108 }
    else if i == 46 { 73 }
    else if i == 47 { 46 }
    else if i == 48 { 118 }
    else if i == 49 { 37 }
    else if i == 50 { 123 }
    else if i == 51 { 103 }
    else if i == 52 { 74 }
    else if i == 53 { 104 }
    else if i == 54 { 52 }
    else if i == 55 { 71 }
    else if i == 56 { 92 }
    else if i == 57 { 45 }
    else if i == 58 { 61 }
    else if i == 59 { 79 }
    else if i == 60 { 64 }
    else if i == 61 { 53 }
    else if i == 62 { 96 }
    else if i == 63 { 95 }
    else if i == 64 { 51 }
    else if i == 65 { 105 }
    else if i == 66 { 60 }
    else if i == 67 { 63 }
    else if i == 68 { 90 }
    else if i == 69 { 39 }
    else if i == 70 { 59 }
    else if i == 71 { 70 }
    else if i == 72 { 78 }
    else if i == 73 { 81 }
    else if i == 74 { 117 }
    else if i == 75 { 89 }
    else if i == 76 { 93 }
    else if i == 77 { 115 }
    else if i == 78 { 122 }
    else if i == 79 { 102 }
    else if i == 80 { 36 }
    else if i == 81 { 33 }
    else if i == 82 { 66 }
    else if i == 83 { 83 }
    else if i == 84 { 47 }
    else if i == 85 { 124 }
    else if i == 86 { 116 }
    else if i == 87 { 58 }
    else if i == 88 { 80 }
    else if i == 89 { 110 }
    else if i == 90 { 54 }
    else if i == 91 { 94 }
    else if i == 92 { 72 }
    else if i == 93 { 97 }
    else { 0 }
}

/// Runtime lookup in the decode table.
pub fn decode_table(i: usize) -> (r: u8)
    requires
        i < 94,
    ensures
        r == decode_entry(i as int),
{
    proof {
        reveal(decode_entry);
    }
    match i {
        0 => 43,
        1 => 98,
        2 => 40,
        3 => 50,
        4 => 57,
        5 => 101,
        6 => 42,
        7 => 106,
        8 => 49,
        9 => 86,
        10 => 77,
        11 => 69,
        12 => 75,
        13 => 76,
        14 => 121,
        15 => 67,
        16 => 125,
        17 => 41,
        18 => 56,
        19 => 38,
        20 => 109,
        21 => 35,
        22 => 126,
        23 => 87,
        24 => 62,
        25 => 113,
        26 => 120,
        27 => 100,
        28 => 82,
        29 => 112,
        30 => 48,
        31 => 119,
        32 => 107,
        33 => 114,
        34 => 85,
        35 => 111,
        36 => 91,
        37 => 68,
        38 => 55,
        39 => 44,
        40 => 88,
        41 => 84,
        42 => 99,
        43 => 65,
        44 => 34,
        45 => 108,
        46 => 73,
        47 => 46,
        48 => 118,
        49 => 37,
        50 => 123,
        51 => 103,
        52 => 74,
        53 => 104,
        54 => 52,
        55 => 71,
        56 => 92,
        57 => 45,
        58 => 61,
        59 => 79,
        60 => 64,
        61 => 53,
        62 => 96,
        63 => 95,
        64 => 51,
        65 => 105,
        66 => 60,
        67 => 63,
        68 => 90,
        69 => 39,
        70 => 59,
        71 => 70,
        72 => 78,
        73 => 81,
        74 => 117,
        75 => 89,
        76 => 93,
        77 => 115,
        78 => 122,
        79 => 102,
        80 => 36,
        81 => 33,
        82 => 66,
        83 => 83,
        84 => 47,
        85 => 124,
        86 => 116,
        87 => 58,
        88 => 80,
        89 => 110,
        90 => 54,
        91 => 94,
        92 => 72,
        93 => 97,
        _ => 0,
    }
}

/// Entry `i` of the mutate table: the byte written back into an executed
/// cell whose value had ordinal `i`.
#[verifier::opaque]
pub open spec fn mutate_entry(i: int) -> u8
    recommends
        0 <= i < 94,
{
    if i == 0 { 53 }
    else if i == 1 { 122 }
    else if i == 2 { 93 }
    else if i == 3 { 38 }
    else if i == 4 { 103 }
    else if i == 5 { 113 }
    else if i == 6 { 116 }
    else if i == 7 { 121 }
    else if i == 8 { 102 }
    else if i == 9 { 114 }
    else if i == 10 { 36 }
    else if i == 11 { 40 }
    else if i == 12 { 119 }
    else if i == 13 { 101 }
    else if i == 14 { 52 }
    else if i == 15 { 123 }
    else if i == 16 { 87 }
    else if i == 17 { 80 }
    else if i == 18 { 41 }
    else if i == 19 { 72 }
    else if i == 20 { 45 }
    else if i == 21 { 90 }
    else if i == 22 { 110 }
    else if i == 23 { 44 }
    else if i == 24 { 91 }
    else if i == 25 { 37 }
    else if i == 26 { 92 }
    else if i == 27 { 51 }
    else if i == 28 { 100 }
    else if i == 29 { 76 }
    else if i == 30 { 43 }
    else if i == 31 { 81 }
    else if i == 32 { 59 }
    else if i == 33 { 62 }
    else if i == 34 { 85 }
    else if i == 35 { 33 }
    else if i == 36 { 112 }
    else if i == 37 { 74 }
    else if i == 38 { 83 }
    else if i == 39 { 55 }
    else if i == 40 { 50 }
    else if i == 41 { 70 }
    else if i == 42 { 104 }
    else if i == 43 { 79 }
    else if i == 44 { 65 }
    else if i == 45 { 49 }
    else if i == 46 { 67 }
    else if i == 47 { 66 }
    else if i == 48 { 54 }
    else if i == 49 { 118 }
    else if i == 50 { 94 }
    else if i == 51 { 61 }
    else if i == 52 { 73 }
    else if i == 53 { 95 }
    else if i == 54 { 48 }
    else if i == 55 { 47 }
    else if i == 56 { 56 }
    else if i == 57 { 124 }
    else if i == 58 { 106 }
    else if i == 59 { 115 }
    else if i == 60 { 98 }
    else if i == 61 { 57 }
    else if i == 62 { 109 }
    else if i == 63 { 60 }
    else if i == 64 { 46 }
    else if i == 65 { 84 }
    else if i == 66 { 86 }
    else if i == 67 { 97 }
    else if i == 68 { 99 }
    else if i == 69 { 96 }
    else if i == 70 { 117 }
    else if i == 71 { 89 }
    else if i == 72 { 42 }
    else if i == 73 { 77 }
    else if i == 74 { 75 }
    else if i == 75 { 39 }
    else if i == 76 { 88 }
    else if i == 77 { 126 }
    else if i == 78 { 120 }
    else if i == 79 { 68 }
    else if i == 80 { 108 }
    else if i == 81 { 125 }
    else if i == 82 { 82 }
    else if i == 83 { 69 }
    else if i == 84 { 111 }
    else if i == 85 { 107 }
    else if i == 86 { 78 }
    else if i == 87 { 58 }
    else if i == 88 { 35 }
    else if i == 89 { 63 }
    else if i == 90 { 71 }
    else if i == 91 { 34 }
    else if i == 92 { 105 }
    else if i == 93 { 64 }
    else { 0 }
}

/// Runtime lookup in the mutate table.
pub fn mutate_table(i: usize) -> (r: u8)
    requires
        i < 94,
    ensures
        r == mutate_entry(i as int),
{
    proof {
        reveal(mutate_entry);
    }
    match i {
        0 => 53,
        1 => 122,
        2 => 93,
        3 => 38,
        4 => 103,
        5 => 113,
        6 => 116,
        7 => 121,
        8 => 102,
        9 => 114,
        10 => 36,
        11 => 40,
        12 => 119,
        13 => 101,
        14 => 52,
        15 => 123,
        16 => 87,
        17 => 80,
        18 => 41,
        19 => 72,
        20 => 45,
        21 => 90,
        22 => 110,
        23 => 44,
        24 => 91,
        25 => 37,
        26 => 92,
        27 => 51,
        28 => 100,
        29 => 76,
        30 => 43,
        31 => 81,
        32 => 59,
        33 => 62,
        34 => 85,
        35 => 33,
        36 => 112,
        37 => 74,
        38 => 83,
        39 => 55,
        40 => 50,
        41 => 70,
        42 => 104,
        43 => 79,
        44 => 65,
        45 => 49,
        46 => 67,
        47 => 66,
        48 => 54,
        49 => 118,
        50 => 94,
        51 => 61,
        52 => 73,
        53 => 95,
        54 => 48,
        55 => 47,
        56 => 56,
        57 => 124,
        58 => 106,
        59 => 115,
        60 => 98,
        61 => 57,
        62 => 109,
        63 => 60,
        64 => 46,
        65 => 84,
        66 => 86,
        67 => 97,
        68 => 99,
        69 => 96,
        70 => 117,
        71 => 89,
        72 => 42,
        73 => 77,
        74 => 75,
        75 => 39,
        76 => 88,
        77 => 126,
        78 => 120,
        79 => 68,
        80 => 108,
        81 => 125,
        82 => 82,
        83 => 69,
        84 => 111,
        85 => 107,
        86 => 78,
        87 => 58,
        88 => 35,
        89 => 63,
        90 => 71,
        91 => 34,
        92 => 105,
        93 => 64,
        _ => 0,
    }
}

/// The decode-table index of a cell value at a given memory position:
/// the cell's printable ordinal shifted by the position, modulo 94.
pub open spec fn decode_index(cell: int, pos: int) -> int
    recommends
        32 < cell < 127,
        0 <= pos,
{
    (cell - 33 + pos) % 94
}

/// The instruction character a printable cell decodes to at a position.
pub open spec fn decode_of(cell: int, pos: int) -> u8
    recommends
        32 < cell < 127,
        0 <= pos,
{
    decode_entry(decode_index(cell, pos))
}

} // verus!
