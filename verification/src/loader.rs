//! The loader/validator: it walks the raw source bytes, skips
//! whitespace, rejects any printable byte whose position-dependent
//! decoding is not an instruction character, writes the surviving bytes
//! into the first memory cells, and extends them into a full memory
//! image with the digit-wise operation.

use vstd::prelude::*;

use crate::tables::decode_index;
use crate::tables::decode_of;
use crate::tables::decode_table;
use crate::tables::is_valid_opcode;
use crate::tables::valid_opcode;
use crate::trits::crazy_op;
use crate::trits::is_printable;
use crate::trits::spec_crazy;
use crate::trits::spec_printable;
use crate::trits::MEMORY_SIZE;

verus! {

/// A reason for which a source program is rejected before execution.
#[derive(Clone, Copy, Debug, PartialEq, Eq, Structural)]
pub enum InitError {
    /// A printable, non-whitespace source byte decoded, at the cell it
    /// would occupy, to something that is not one of the eight
    /// instruction characters; carries the offending character and its
    /// byte offset in the original source.
    InvalidChar(char, usize),
    /// The source holds fewer than the two non-whitespace bytes the
    /// self-extending fill needs.
    SourceTooShort,
    /// The source holds more non-whitespace bytes than there are memory
    /// cells.
    SourceTooLong,
}

/// Whether byte `b`, read as a character, is whitespace.  These are
/// exactly the code points below 256 that Rust's `char::is_whitespace`
/// accepts: tab through carriage return, space, next line, and no-break
/// space.
pub open spec fn spec_whitespace(b: u8) -> bool {
    b == 9 || b == 10 || b == 11 || b == 12 || b == 13 || b == 32 || b == 133 || b == 160
}

/// Runtime test for [`spec_whitespace`].
fn is_whitespace(b: u8) -> (r: bool)
    ensures
        r == spec_whitespace(b),
{
    b == 9 || b == 10 || b == 11 || b == 12 || b == 13 || b == 32 || b == 133 || b == 160
}

/// The non-whitespace bytes of the source, in order, as cell values.
pub open spec fn stripped_vals(s: Seq<u8>) -> Seq<usize>
    decreases s.len(),
{
    if s.len() == 0 {
        Seq::empty()
    } else {
        let pre = stripped_vals(s.drop_last());
        if spec_whitespace(s.last()) {
            pre
        } else {
            pre.push(s.last() as usize)
        }
    }
}

/// One pass of the validating scan, starting at source offset `loc`
/// with `i` cells already written: the first error the scan meets, or
/// the total number of cells written.  A printable byte that does not
/// decode to an instruction character is reported before the capacity
/// check, as the scan visits them in that order.
pub open spec fn scan_from(s: Seq<u8>, loc: int, i: int) -> Result<int, InitError>
    decreases s.len() - loc,
{
    if loc < 0 || loc >= s.len() {
        Ok(i)
    } else if spec_whitespace(s[loc]) {
        scan_from(s, loc + 1, i)
    } else if spec_printable(s[loc] as int) && !valid_opcode(decode_of(s[loc] as int, i)) {
        Err(InitError::InvalidChar(s[loc] as char, loc as usize))
    } else if i >= MEMORY_SIZE {
        Err(InitError::SourceTooLong)
    } else {
        scan_from(s, loc + 1, i + 1)
    }
}

/// The result of scanning the whole source from its first byte.
pub open spec fn scan_result(s: Seq<u8>) -> Result<int, InitError> {
    scan_from(s, 0, 0)
}

/// The cell value the fill step appends after `x` (the last cell) and
/// `y` (the one before it).
pub open spec fn crazy_cell(x: usize, y: usize) -> usize {
    spec_crazy(x as int, y as int) as usize
}

/// Extend a memory prefix of at least two cells to the full memory size
/// by repeatedly appending the digit-wise operation of the last two
/// cells.
pub open spec fn fill_from(m: Seq<usize>) -> Seq<usize>
    decreases MEMORY_SIZE - m.len(),
{
    if m.len() < 2 || m.len() >= MEMORY_SIZE {
        m
    } else {
        fill_from(m.push(crazy_cell(m.last(), m[m.len() - 2])))
    }
}

/// The memory image a source loads to: its non-whitespace bytes,
/// extended to the full memory size by the fill step.
pub open spec fn load_image(s: Seq<u8>) -> Seq<usize> {
    fill_from(stripped_vals(s))
}

/// Validate a source program and build its initial memory image.
///
/// Whitespace bytes are skipped.  Every other byte is stored; a
/// printable one is first decoded at the cell index it would occupy and
/// rejected if it is not an instruction character.  After the scan the
/// remaining cells are filled with the digit-wise operation of the two
/// cells before each.
pub fn init(input: &Vec<u8>) -> (r: Result<Vec<usize>, InitError>)
    ensures
        (match r {
            Ok(mem) => {
                &&& scan_result(input@) == Ok::<int, InitError>(stripped_vals(input@).len() as int)
                &&& stripped_vals(input@).len() >= 2
                &&& mem@ == load_image(input@)
                &&& mem@.len() == MEMORY_SIZE
                &&& forall|k: int| 0 <= k < MEMORY_SIZE ==> (#[trigger] mem@[k]) < MEMORY_SIZE
            },
            Err(e) => {
                match scan_result(input@) {
                    Ok(w) => w < 2 && e == InitError::SourceTooShort,
                    Err(e2) => e == e2,
                }
            },
        }),
{
    let mut mem: Vec<usize> = Vec::new();
    let mut loc: usize = 0;
    while loc < input.len()
        invariant
            loc <= input@.len(),
            mem@ == stripped_vals(input@.take(loc as int)),
            mem@.len() <= MEMORY_SIZE,
            forall|k: int| 0 <= k < mem@.len() ==> (#[trigger] mem@[k]) < MEMORY_SIZE,
            scan_from(input@, 0, 0) == scan_from(input@, loc as int, mem@.len() as int),
        decreases input@.len() - loc,
    {
        let b: u8 = input[loc];
        proof {
            assert(input@.take(loc as int + 1).drop_last() =~= input@.take(loc as int));
            assert(input@.take(loc as int + 1).last() == input@[loc as int]);
        }
        if !is_whitespace(b) {
            if is_printable(b as usize) {
                let index: usize = (b as usize - 33 + mem.len()) % 94;
                let test: u8 = decode_table(index);
                if !is_valid_opcode(test) {
                    return Err(InitError::InvalidChar(b as char, loc));
                }
            }
            if mem.len() >= MEMORY_SIZE {
                return Err(InitError::SourceTooLong);
            }
            mem.push(b as usize);
        }
        loc = loc + 1;
    }
    proof {
        assert(input@.take(loc as int) =~= input@);
    }
    if mem.len() < 2 {
        return Err(InitError::SourceTooShort);
    }
    let ghost base: Seq<usize> = mem@;
    while mem.len() < MEMORY_SIZE
        invariant
            2 <= mem@.len() <= MEMORY_SIZE,
            forall|k: int| 0 <= k < mem@.len() ==> (#[trigger] mem@[k]) < MEMORY_SIZE,
            fill_from(mem@) == fill_from(base),
        decreases MEMORY_SIZE - mem@.len(),
    {
        let n: usize = mem.len();
        let x: usize = mem[n - 1];
        let y: usize = mem[n - 2];
        let c: usize = crazy_op(x, y);
        proof {
            assert(fill_from(mem@) == fill_from(mem@.push(crazy_cell(mem@.last(), mem@[mem@.len() - 2]))));
        }
        mem.push(c);
    }
    Ok(mem)
}

/// Loading is deterministic: identical source bytes always scan to the
/// same outcome and produce identical memory images.
pub proof fn lemma_load_deterministic(s1: Seq<u8>, s2: Seq<u8>)
    requires
        s1 == s2,
    ensures
        scan_result(s1) == scan_result(s2),
        load_image(s1) == load_image(s2),
{
}

/// The fill step obeys its recurrence: the image keeps the stored bytes
/// as its prefix, and from there on every cell is the digit-wise
/// operation of the two cells before it.
pub proof fn lemma_fill_from_props(m: Seq<usize>)
    requires
        2 <= m.len() <= MEMORY_SIZE,
    ensures
        fill_from(m).len() == MEMORY_SIZE,
        forall|i: int| 0 <= i < m.len() ==> (#[trigger] fill_from(m)[i]) == m[i],
        forall|n: int|
            m.len() <= n < MEMORY_SIZE ==> (#[trigger] fill_from(m)[n]) == crazy_cell(
                fill_from(m)[n - 1],
                fill_from(m)[n - 2],
            ),
    decreases MEMORY_SIZE - m.len(),
{
    if m.len() < MEMORY_SIZE {
        let m2 = m.push(crazy_cell(m.last(), m[m.len() - 2]));
        lemma_fill_from_props(m2);
        assert(fill_from(m) == fill_from(m2));
        assert(fill_from(m)[m.len() as int] == crazy_cell(
            fill_from(m)[m.len() - 1],
            fill_from(m)[m.len() - 2],
        ));
    }
}

/// The recurrence of [`lemma_fill_from_props`], stated of a whole
/// source: cells past the stored bytes equal the recursively defined
/// digit-wise sequence seeded from the two cells before them.
pub proof fn lemma_fill_recurrence(s: Seq<u8>)
    requires
        2 <= stripped_vals(s).len() <= MEMORY_SIZE,
    ensures
        load_image(s).len() == MEMORY_SIZE,
        forall|i: int| 0 <= i < stripped_vals(s).len() ==> (#[trigger] load_image(s)[i]) == stripped_vals(s)[i],
        forall|n: int|
            stripped_vals(s).len() <= n < MEMORY_SIZE ==> (#[trigger] load_image(s)[n]) == crazy_cell(
                load_image(s)[n - 1],
                load_image(s)[n - 2],
            ),
{
    lemma_fill_from_props(stripped_vals(s));
}

} // verus!
