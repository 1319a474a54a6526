use vstd::prelude::*;
use vstd::bytes::lemma_auto_spec_u32_to_from_le_bytes;
use vstd::bytes::lemma_auto_spec_u64_to_from_le_bytes;
use vstd::bytes::spec_u32_from_le_bytes;
use vstd::bytes::spec_u32_to_le_bytes;
use vstd::bytes::spec_u64_from_le_bytes;
use vstd::bytes::spec_u64_to_le_bytes;
use vstd::bytes::u32_from_le_bytes;
use vstd::bytes::u32_to_le_bytes;
use vstd::bytes::u64_from_le_bytes;
use vstd::bytes::u64_to_le_bytes;
use vstd::slice::slice_subrange;
use vstd::slice::slice_to_vec;

use crate::error::Error;

verus! {

/// Number of bytes of a lock-hash digest.
pub const LOCK_HASH_LEN: usize = 32;

/// Number of bytes of the unit-cost field (an unsigned 64-bit value).
pub const COST_AMOUNT_LEN: usize = 8;

/// Number of bytes of the sale-identifier field (an unsigned 32-bit value).
pub const SALE_ID_LEN: usize = 4;

/// Minimum number of bytes of the script's arguments: the owner lock hash,
/// the unit cost, and the sale identifier; trailing bytes are ignored.
pub const ARGS_LEN: usize = LOCK_HASH_LEN + COST_AMOUNT_LEN + SALE_ID_LEN;

/// The owner lock-hash digest held in the first 32 bytes of the arguments.
pub open spec fn owner_hash_of(args: Seq<u8>) -> Seq<u8>
    recommends
        args.len() >= LOCK_HASH_LEN,
{
    args.subrange(0, LOCK_HASH_LEN as int)
}

/// The cost per token, in little-endian bytes just after the owner hash.
pub open spec fn unit_cost_of(args: Seq<u8>) -> u64
    recommends
        args.len() >= LOCK_HASH_LEN + COST_AMOUNT_LEN,
{
    spec_u64_from_le_bytes(args.subrange(LOCK_HASH_LEN as int, (LOCK_HASH_LEN + COST_AMOUNT_LEN) as int))
}

/// The sale identifier, in little-endian bytes just after the cost.
pub open spec fn sale_id_of(args: Seq<u8>) -> u32
    recommends
        args.len() >= ARGS_LEN,
{
    spec_u32_from_le_bytes(
        args.subrange((LOCK_HASH_LEN + COST_AMOUNT_LEN) as int, ARGS_LEN as int),
    )
}

/// The arguments decode successfully: all three fields are present and the
/// unit cost is at least one.
pub open spec fn args_well_formed(args: Seq<u8>) -> bool {
    args.len() >= ARGS_LEN && unit_cost_of(args) >= 1
}

/// The canonical encoding of the three argument fields.
pub open spec fn encoded_args(owner_lock_hash: Seq<u8>, unit_cost: u64, sale_id: u32) -> Seq<u8>
    recommends
        owner_lock_hash.len() == LOCK_HASH_LEN,
{
    owner_lock_hash + spec_u64_to_le_bytes(unit_cost) + spec_u32_to_le_bytes(sale_id)
}

/// The three fields carried by the script's arguments.
#[derive(Clone, Debug)]
pub struct DecodedArgs {
    pub owner_lock_hash: Vec<u8>,
    pub unit_cost: u64,
    pub sale_id: u32,
}

/// Retrieve the token cost from the args.
pub fn determine_token_cost(args: &Vec<u8>) -> (r: Result<u64, Error>)
    requires
        args@.len() >= LOCK_HASH_LEN + COST_AMOUNT_LEN,
    ensures
        r is Ok <==> unit_cost_of(args@) >= 1,
        r matches Ok(c) ==> c == unit_cost_of(args@),
        r is Err ==> r->Err_0 == Error::InvalidCost,
{
    // The token cost immediately follows the lock hash in the args.
    let cost_bytes = slice_subrange(args.as_slice(), LOCK_HASH_LEN, LOCK_HASH_LEN + COST_AMOUNT_LEN);
    let token_cost = u64_from_le_bytes(cost_bytes);
    if token_cost < 1 {
        return Err(Error::InvalidCost);
    }
    Ok(token_cost)
}

/// Parse the script's arguments into their three fields.
///
/// Fails with [`Error::ArgsLen`] when fewer than [`ARGS_LEN`] bytes were
/// given, and with [`Error::InvalidCost`] when the unit cost decodes to
/// zero; bytes past the sale identifier are ignored.
pub fn decode_args(args: &Vec<u8>) -> (r: Result<DecodedArgs, Error>)
    ensures
        r is Ok <==> args_well_formed(args@),
        r matches Ok(d) ==> {
            &&& d.owner_lock_hash@ == owner_hash_of(args@)
            &&& d.unit_cost == unit_cost_of(args@)
            &&& d.sale_id == sale_id_of(args@)
        },
        args@.len() < ARGS_LEN ==> (r matches Err(e) && e == Error::ArgsLen),
        args@.len() >= ARGS_LEN && unit_cost_of(args@) < 1 ==> (r matches Err(e) && e
            == Error::InvalidCost),
{
    if args.len() < ARGS_LEN {
        return Err(Error::ArgsLen);
    }
    let unit_cost = match determine_token_cost(args) {
        Ok(c) => c,
        Err(e) => {
            return Err(e);
        },
    };
    let owner_lock_hash = slice_to_vec(slice_subrange(args.as_slice(), 0, LOCK_HASH_LEN));
    let id_bytes = slice_subrange(args.as_slice(), LOCK_HASH_LEN + COST_AMOUNT_LEN, ARGS_LEN);
    let sale_id = u32_from_le_bytes(id_bytes);
    Ok(DecodedArgs { owner_lock_hash, unit_cost, sale_id })
}

/// Build the argument byte string for a sale with the given owner lock
/// hash, unit cost and sale identifier.
pub fn encode_args(owner_lock_hash: &Vec<u8>, unit_cost: u64, sale_id: u32) -> (r: Vec<u8>)
    requires
        owner_lock_hash@.len() == LOCK_HASH_LEN,
    ensures
        r@ == encoded_args(owner_lock_hash@, unit_cost, sale_id),
        r@.len() == ARGS_LEN,
{
    let mut out = slice_to_vec(owner_lock_hash.as_slice());
    let mut cost_bytes = u64_to_le_bytes(unit_cost);
    out.append(&mut cost_bytes);
    let mut id_bytes = u32_to_le_bytes(sale_id);
    out.append(&mut id_bytes);
    out
}

/// Decoding recovers exactly what was encoded: for any owner lock hash,
/// unit cost and sale identifier, the encoded arguments yield back the
/// same three fields, and they decode successfully exactly when the unit
/// cost is at least one.
pub proof fn lemma_args_round_trip(owner_lock_hash: Seq<u8>, unit_cost: u64, sale_id: u32)
    requires
        owner_lock_hash.len() == LOCK_HASH_LEN,
    ensures
        owner_hash_of(encoded_args(owner_lock_hash, unit_cost, sale_id)) == owner_lock_hash,
        unit_cost_of(encoded_args(owner_lock_hash, unit_cost, sale_id)) == unit_cost,
        sale_id_of(encoded_args(owner_lock_hash, unit_cost, sale_id)) == sale_id,
        args_well_formed(encoded_args(owner_lock_hash, unit_cost, sale_id)) <==> unit_cost >= 1,
{
    lemma_auto_spec_u64_to_from_le_bytes();
    lemma_auto_spec_u32_to_from_le_bytes();
    let encoded = encoded_args(owner_lock_hash, unit_cost, sale_id);
    assert(encoded.subrange(0, LOCK_HASH_LEN as int) =~= owner_lock_hash);
    assert(encoded.subrange(LOCK_HASH_LEN as int, (LOCK_HASH_LEN + COST_AMOUNT_LEN) as int)
        =~= spec_u64_to_le_bytes(unit_cost));
    assert(encoded.subrange((LOCK_HASH_LEN + COST_AMOUNT_LEN) as int, ARGS_LEN as int)
        =~= spec_u32_to_le_bytes(sale_id));
}

} // verus!
