use vstd::prelude::*;
use vstd::bytes::spec_u128_from_le_bytes;
use vstd::bytes::u128_from_le_bytes;

use crate::error::Error;

verus! {

/// Number of bytes of a cell's data payload that hold a token amount
/// (an unsigned 128-bit little-endian value).
pub const SUDT_AMOUNT_DATA_LEN: usize = 16;

/// A read-only snapshot of one cell of the candidate transaction, as the
/// host runtime's indexed cell accessor hands it out: its capacity, the
/// serialized bytes of its lock script, the serialized bytes of its type
/// script if one is attached, and its data payload.
#[derive(Clone, Debug)]
pub struct Cell {
    pub capacity: u64,
    pub lock: Vec<u8>,
    pub type_script: Option<Vec<u8>>,
    pub data: Vec<u8>,
}

/// The cell carries exactly the match key: its lock script bytes equal
/// `lock` and it has a type script whose bytes equal `type_script`.
pub open spec fn cell_matches(c: Cell, lock: Seq<u8>, type_script: Seq<u8>) -> bool {
    &&& c.lock@ == lock
    &&& c.type_script matches Some(t) && t@ == type_script
}

/// How many cells of the sequence carry the match key.
pub open spec fn matching_count(cells: Seq<Cell>, lock: Seq<u8>, type_script: Seq<u8>) -> int
    decreases cells.len(),
{
    if cells.len() == 0 {
        0
    } else {
        matching_count(cells.drop_last(), lock, type_script) + if cell_matches(
            cells.last(),
            lock,
            type_script,
        ) {
            1int
        } else {
            0int
        }
    }
}

/// Every cell carrying the match key holds a data payload of exactly
/// [`SUDT_AMOUNT_DATA_LEN`] bytes, so its token amount can be decoded.
pub open spec fn payloads_well_formed(cells: Seq<Cell>, lock: Seq<u8>, type_script: Seq<u8>) -> bool {
    forall|i: int|
        0 <= i < cells.len() && cell_matches(#[trigger] cells[i], lock, type_script)
            ==> cells[i].data@.len() == SUDT_AMOUNT_DATA_LEN
}

/// The exact mathematical sum of the capacities of the cells carrying the
/// match key.
pub open spec fn capacity_total(cells: Seq<Cell>, lock: Seq<u8>, type_script: Seq<u8>) -> int
    decreases cells.len(),
{
    if cells.len() == 0 {
        0
    } else {
        capacity_total(cells.drop_last(), lock, type_script) + if cell_matches(
            cells.last(),
            lock,
            type_script,
        ) {
            cells.last().capacity as int
        } else {
            0int
        }
    }
}

/// The exact mathematical sum of the token amounts of the cells carrying
/// the match key, each decoded from its data payload.
pub open spec fn token_total(cells: Seq<Cell>, lock: Seq<u8>, type_script: Seq<u8>) -> int
    decreases cells.len(),
{
    if cells.len() == 0 {
        0
    } else {
        token_total(cells.drop_last(), lock, type_script) + if cell_matches(
            cells.last(),
            lock,
            type_script,
        ) {
            spec_u128_from_le_bytes(cells.last().data@) as int
        } else {
            0int
        }
    }
}

/// The capacity sum as the aggregator accumulates it: in a 64-bit register
/// that wraps on overflow.  The host ledger's own value ceilings make the
/// wrap unreachable in practice; see [`lemma_wrapped_totals`].
pub open spec fn capacity_total_wrapped(cells: Seq<Cell>, lock: Seq<u8>, type_script: Seq<u8>) -> u64
    decreases cells.len(),
{
    if cells.len() == 0 {
        0u64
    } else {
        let rest = capacity_total_wrapped(cells.drop_last(), lock, type_script);
        if cell_matches(cells.last(), lock, type_script) {
            vstd::wrapping::u64_specs::wrapping_add(rest, cells.last().capacity)
        } else {
            rest
        }
    }
}

/// The token sum as the aggregator accumulates it: in a 128-bit register
/// that wraps on overflow.
pub open spec fn token_total_wrapped(cells: Seq<Cell>, lock: Seq<u8>, type_script: Seq<u8>) -> u128
    decreases cells.len(),
{
    if cells.len() == 0 {
        0u128
    } else {
        let rest = token_total_wrapped(cells.drop_last(), lock, type_script);
        if cell_matches(cells.last(), lock, type_script) {
            vstd::wrapping::u128_specs::wrapping_add(
                rest,
                spec_u128_from_le_bytes(cells.last().data@),
            )
        } else {
            rest
        }
    }
}

/// The wrapped totals are the exact sums reduced modulo the register size;
/// in particular they equal the exact sums whenever those fit.
pub proof fn lemma_wrapped_totals(cells: Seq<Cell>, lock: Seq<u8>, type_script: Seq<u8>)
    ensures
        capacity_total_wrapped(cells, lock, type_script) == capacity_total(cells, lock, type_script)
            % 0x1_0000_0000_0000_0000int,
        token_total_wrapped(cells, lock, type_script) == token_total(cells, lock, type_script)
            % 0x1_0000_0000_0000_0000_0000_0000_0000_0000int,
    decreases cells.len(),
{
    if cells.len() == 0 {
    } else {
        lemma_wrapped_totals(cells.drop_last(), lock, type_script);
        if cell_matches(cells.last(), lock, type_script) {
            vstd::arithmetic::div_mod::lemma_add_mod_noop(
                capacity_total(cells.drop_last(), lock, type_script),
                cells.last().capacity as int,
                0x1_0000_0000_0000_0000int,
            );
            vstd::arithmetic::div_mod::lemma_add_mod_noop(
                token_total(cells.drop_last(), lock, type_script),
                spec_u128_from_le_bytes(cells.last().data@) as int,
                0x1_0000_0000_0000_0000_0000_0000_0000_0000int,
            );
        }
    }
}

/// One step of a front-to-back scan: extending the prefix by the cell at
/// index `i` extends each aggregate by that cell's contribution.
pub(crate) proof fn lemma_prefix_step(cells: Seq<Cell>, i: int, lock: Seq<u8>, type_script: Seq<u8>)
    requires
        0 <= i < cells.len(),
    ensures
        matching_count(cells.subrange(0, i + 1), lock, type_script) == matching_count(
            cells.subrange(0, i),
            lock,
            type_script,
        ) + if cell_matches(cells[i], lock, type_script) {
            1int
        } else {
            0int
        },
        capacity_total_wrapped(cells.subrange(0, i + 1), lock, type_script) == {
            let rest = capacity_total_wrapped(cells.subrange(0, i), lock, type_script);
            if cell_matches(cells[i], lock, type_script) {
                vstd::wrapping::u64_specs::wrapping_add(rest, cells[i].capacity)
            } else {
                rest
            }
        },
        token_total_wrapped(cells.subrange(0, i + 1), lock, type_script) == {
            let rest = token_total_wrapped(cells.subrange(0, i), lock, type_script);
            if cell_matches(cells[i], lock, type_script) {
                vstd::wrapping::u128_specs::wrapping_add(
                    rest,
                    spec_u128_from_le_bytes(cells[i].data@),
                )
            } else {
                rest
            }
        },
{
    let extended = cells.subrange(0, i + 1);
    assert(extended.drop_last() =~= cells.subrange(0, i));
    assert(extended.last() == cells[i]);
}

/// Byte-for-byte equality of two slices.
pub fn bytes_eq(a: &[u8], b: &[u8]) -> (r: bool)
    ensures
        r == (a@ == b@),
{
    if a.len() != b.len() {
        return false;
    }
    for i in 0..a.len()
        invariant
            a@.len() == b@.len(),
            forall|j: int| 0 <= j < i ==> a@[j] == b@[j],
    {
        if a[i] != b[i] {
            return false;
        }
    }
    assert(a@ =~= b@);
    true
}

/// The cell carries the match key (see [`cell_matches`]).
pub fn is_match(c: &Cell, lock_script: &Vec<u8>, type_script: &Vec<u8>) -> (r: bool)
    ensures
        r == cell_matches(*c, lock_script@, type_script@),
{
    if !bytes_eq(c.lock.as_slice(), lock_script.as_slice()) {
        return false;
    }
    match &c.type_script {
        Some(t) => bytes_eq(t.as_slice(), type_script.as_slice()),
        None => false,
    }
}

/// Determine the capacity and token amount held in all cells of one source
/// that match the specified lock script and type script.
///
/// Totals accumulate in 64-bit and 128-bit registers and wrap on overflow;
/// a matching cell whose data payload is not exactly
/// [`SUDT_AMOUNT_DATA_LEN`] bytes rejects the whole pass with
/// [`Error::Encoding`].
pub fn determine_token_sale_cell_amounts(
    cells: &Vec<Cell>,
    lock_script: &Vec<u8>,
    type_script: &Vec<u8>,
) -> (r: Result<(u64, u128), Error>)
    ensures
        r is Ok <==> payloads_well_formed(cells@, lock_script@, type_script@),
        r matches Ok(totals) ==> totals.0 == capacity_total_wrapped(
            cells@,
            lock_script@,
            type_script@,
        ) && totals.1 == token_total_wrapped(cells@, lock_script@, type_script@),
        r is Err ==> r->Err_0 == Error::Encoding,
{
    let mut total_capacity: u64 = 0;
    let mut total_tokens: u128 = 0;
    let n = cells.len();
    assert(cells@.subrange(0, 0) =~= Seq::<Cell>::empty());
    for i in 0..n
        invariant
            n == cells@.len(),
            payloads_well_formed(cells@.subrange(0, i as int), lock_script@, type_script@),
            total_capacity == capacity_total_wrapped(
                cells@.subrange(0, i as int),
                lock_script@,
                type_script@,
            ),
            total_tokens == token_total_wrapped(
                cells@.subrange(0, i as int),
                lock_script@,
                type_script@,
            ),
    {
        let cell = &cells[i];
        if is_match(cell, lock_script, type_script) {
            if cell.data.len() != SUDT_AMOUNT_DATA_LEN {
                assert(!payloads_well_formed(cells@, lock_script@, type_script@));
                return Err(Error::Encoding);
            }
            let amount = u128_from_le_bytes(cell.data.as_slice());
            total_tokens = total_tokens.wrapping_add(amount);
            total_capacity = total_capacity.wrapping_add(cell.capacity);
        }
        proof {
            lemma_prefix_step(cells@, i as int, lock_script@, type_script@);
        }
    }
    assert(cells@.subrange(0, n as int) =~= cells@);
    Ok((total_capacity, total_tokens))
}

} // verus!
