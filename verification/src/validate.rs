use vstd::prelude::*;
use vstd::slice::slice_subrange;
use vstd::slice::slice_to_vec;

use crate::args::ARGS_LEN;
use crate::args::LOCK_HASH_LEN;
use crate::args::args_well_formed;
use crate::args::decode_args;
use crate::args::owner_hash_of;
use crate::args::unit_cost_of;
use crate::cells::Cell;
use crate::cells::bytes_eq;
use crate::cells::capacity_total_wrapped;
use crate::cells::determine_token_sale_cell_amounts;
use crate::cells::is_match;
use crate::cells::lemma_prefix_step;
use crate::cells::matching_count;
use crate::cells::payloads_well_formed;
use crate::error::Error;

verus! {

/// A frozen view of the one candidate transaction, as the host runtime's
/// accessors expose it to the executing script: the script's own argument
/// bytes, the lock-hash digest of every transaction input, the inputs that
/// carry the executing lock script (the matched-input group), and all
/// outputs.
pub struct Transaction {
    pub args: Vec<u8>,
    pub input_lock_hashes: Vec<Vec<u8>>,
    pub group_inputs: Vec<Cell>,
    pub outputs: Vec<Cell>,
}

/// Some transaction input's lock-hash digest equals the owner hash held in
/// the arguments.
pub open spec fn owner_mode_hashes(args: Seq<u8>, input_lock_hashes: Seq<Vec<u8>>) -> bool {
    exists|i: int|
        0 <= i < input_lock_hashes.len() && (#[trigger] input_lock_hashes[i])@ == owner_hash_of(
            args,
        )
}

/// Owner mode: the designated owner authorized the transaction with one of
/// its inputs, so the sale cell unlocks unconditionally.
pub open spec fn owner_mode(tx: Transaction) -> bool {
    owner_mode_hashes(tx.args@, tx.input_lock_hashes@)
}

/// The matched-input group consists of exactly one cell and that cell
/// carries a type script; its (lock, type) bytes form the match key.
pub open spec fn group_input_ok(tx: Transaction) -> bool {
    tx.group_inputs@.len() == 1 && tx.group_inputs@[0].type_script is Some
}

/// The lock-script bytes of the match key.
pub open spec fn key_lock(tx: Transaction) -> Seq<u8>
    recommends
        group_input_ok(tx),
{
    tx.group_inputs@[0].lock@
}

/// The type-script bytes of the match key.
pub open spec fn key_type(tx: Transaction) -> Seq<u8>
    recommends
        group_input_ok(tx),
{
    tx.group_inputs@[0].type_script->0@
}

/// The verdict of the exchange-rate checker over already-aggregated
/// amounts: the sale's capacity must strictly grow, its token stock must
/// strictly shrink, and the capacity gained must equal exactly the tokens
/// released times the unit cost.
pub open spec fn amounts_verdict(
    token_cost: int,
    input_capacity: int,
    output_capacity: int,
    input_tokens: int,
    output_tokens: int,
) -> Result<(), Error> {
    if output_capacity <= input_capacity {
        Err(Error::AmountCkbytes)
    } else if output_tokens >= input_tokens {
        Err(Error::AmountSudt)
    } else if output_capacity - input_capacity != (input_tokens - output_tokens) * token_cost {
        Err(Error::ExchangeRate)
    } else {
        Ok(())
    }
}

/// The verdict of the whole validation pass over a transaction snapshot,
/// phase by phase and fail-fast: argument decoding, the owner-mode bypass,
/// the structural checks, the two aggregation passes, and the
/// exchange-rate check.
pub open spec fn verdict(tx: Transaction) -> Result<(), Error> {
    if tx.args@.len() < ARGS_LEN {
        Err(Error::ArgsLen)
    } else if unit_cost_of(tx.args@) < 1 {
        Err(Error::InvalidCost)
    } else if owner_mode(tx) {
        Ok(())
    } else if tx.group_inputs@.len() != 1 {
        Err(Error::InvalidStructure)
    } else if tx.group_inputs@[0].type_script is None {
        Err(Error::InvalidStructure)
    } else if matching_count(tx.outputs@, key_lock(tx), key_type(tx)) != 1 {
        Err(Error::InvalidStructure)
    } else if !payloads_well_formed(tx.group_inputs@, key_lock(tx), key_type(tx)) {
        Err(Error::Encoding)
    } else if !payloads_well_formed(tx.outputs@, key_lock(tx), key_type(tx)) {
        Err(Error::Encoding)
    } else {
        amounts_verdict(
            unit_cost_of(tx.args@) as int,
            capacity_total_wrapped(tx.group_inputs@, key_lock(tx), key_type(tx)) as int,
            capacity_total_wrapped(tx.outputs@, key_lock(tx), key_type(tx)) as int,
            token_total_wrapped_in(tx) as int,
            token_total_wrapped_out(tx) as int,
        )
    }
}

/// The wrapped token total of the matched-input group.
pub open spec fn token_total_wrapped_in(tx: Transaction) -> u128 {
    crate::cells::token_total_wrapped(tx.group_inputs@, key_lock(tx), key_type(tx))
}

/// The wrapped token total of the outputs that carry the match key.
pub open spec fn token_total_wrapped_out(tx: Transaction) -> u128 {
    crate::cells::token_total_wrapped(tx.outputs@, key_lock(tx), key_type(tx))
}

/// Determine if owner mode is enabled: compare the owner hash from the
/// first 32 bytes of the args with the lock-hash digest of every
/// transaction input.
pub fn check_owner_mode(args: &Vec<u8>, input_lock_hashes: &Vec<Vec<u8>>) -> (r: bool)
    requires
        args@.len() >= LOCK_HASH_LEN,
    ensures
        r == owner_mode_hashes(args@, input_lock_hashes@),
{
    let owner = slice_subrange(args.as_slice(), 0, LOCK_HASH_LEN);
    let n = input_lock_hashes.len();
    for i in 0..n
        invariant
            n == input_lock_hashes@.len(),
            owner@ == owner_hash_of(args@),
            forall|j: int| 0 <= j < i ==> (#[trigger] input_lock_hashes@[j])@ != owner_hash_of(
                args@,
            ),
    {
        if bytes_eq(input_lock_hashes[i].as_slice(), owner) {
            return true;
        }
    }
    false
}

/// Ensure that a valid input token sale cell exists: the matched-input
/// group holds exactly one cell and that cell carries a type script.
/// Returns the match key, the cell's (lock, type) script bytes.
pub fn validate_token_sale_inputs(group_inputs: &Vec<Cell>) -> (r: Result<(Vec<u8>, Vec<u8>), Error>)
    ensures
        r is Ok <==> group_inputs@.len() == 1 && group_inputs@[0].type_script is Some,
        r matches Ok(key) ==> key.0@ == group_inputs@[0].lock@ && key.1@
            == group_inputs@[0].type_script->0@,
        r is Err ==> r->Err_0 == Error::InvalidStructure,
{
    // There should be exactly one cell in the group.
    if group_inputs.len() != 1 {
        return Err(Error::InvalidStructure);
    }
    let cell = &group_inputs[0];
    // Extract the scripts.  Both must exist.
    match &cell.type_script {
        Some(t) => Ok((slice_to_vec(cell.lock.as_slice()), slice_to_vec(t.as_slice()))),
        None => Err(Error::InvalidStructure),
    }
}

/// Ensure that a valid output token sale cell exists: exactly one output
/// carries the match key.
pub fn validate_token_sale_outputs(
    lock_script: &Vec<u8>,
    type_script: &Vec<u8>,
    outputs: &Vec<Cell>,
) -> (r: Result<(), Error>)
    ensures
        r is Ok <==> matching_count(outputs@, lock_script@, type_script@) == 1,
        r is Err ==> r->Err_0 == Error::InvalidStructure,
{
    let n = outputs.len();
    let mut token_sale_lock_cells: usize = 0;
    assert(outputs@.subrange(0, 0) =~= Seq::<Cell>::empty());
    for i in 0..n
        invariant
            n == outputs@.len(),
            token_sale_lock_cells <= i,
            token_sale_lock_cells == matching_count(
                outputs@.subrange(0, i as int),
                lock_script@,
                type_script@,
            ),
    {
        if is_match(&outputs[i], lock_script, type_script) {
            token_sale_lock_cells = token_sale_lock_cells + 1;
        }
        proof {
            lemma_prefix_step(outputs@, i as int, lock_script@, type_script@);
        }
    }
    assert(outputs@.subrange(0, n as int) =~= outputs@);
    if token_sale_lock_cells != 1 {
        return Err(Error::InvalidStructure);
    }
    Ok(())
}

/// Ensure that all the capacity, token, and cost amounts are valid (see
/// [`amounts_verdict`]).  The exchange equation is evaluated without
/// precision loss: both sides are compared in a common 128-bit domain, and
/// a product too large for it cannot equal the capacity difference.
pub fn validate_amounts(
    token_cost: u64,
    input_capacity_amount: u64,
    output_capacity_amount: u64,
    input_token_amount: u128,
    output_token_amount: u128,
) -> (r: Result<(), Error>)
    ensures
        r == amounts_verdict(
            token_cost as int,
            input_capacity_amount as int,
            output_capacity_amount as int,
            input_token_amount as int,
            output_token_amount as int,
        ),
{
    // The output capacity must be more than the input capacity.
    if output_capacity_amount <= input_capacity_amount {
        return Err(Error::AmountCkbytes);
    }
    // The output tokens must be less than the input tokens.
    if output_token_amount >= input_token_amount {
        return Err(Error::AmountSudt);
    }
    // The capacity received must properly equate to the tokens released at
    // the proper token cost.
    let capacity_gained = output_capacity_amount - input_capacity_amount;
    let tokens_released = input_token_amount - output_token_amount;
    let balanced = match tokens_released.checked_mul(token_cost as u128) {
        Some(expected) => capacity_gained as u128 == expected,
        None => {
            // The exact product exceeds the 128-bit domain, so it cannot
            // equal a capacity difference that fits in 64 bits.
            proof {
                assert(tokens_released * (token_cost as u128) > u128::MAX >= capacity_gained);
            }
            false
        },
    };
    if !balanced {
        return Err(Error::ExchangeRate);
    }
    Ok(())
}

/// Run the whole validation pass over a transaction snapshot.
///
/// The result is exactly [`verdict`]: arguments are decoded first, an
/// owner-mode input accepts outright, then the structural checks, the two
/// aggregation passes and the exchange-rate check run in order, and the
/// first violated condition decides.
pub fn validate_transaction(tx: &Transaction) -> (r: Result<(), Error>)
    ensures
        r == verdict(*tx),
{
    // Decode the arguments of the current script.
    let decoded = match decode_args(&tx.args) {
        Ok(d) => d,
        Err(e) => {
            return Err(e);
        },
    };
    // If the program is in owner mode then unlock immediately.
    if check_owner_mode(&tx.args, &tx.input_lock_hashes) {
        return Ok(());
    }
    // Check the inputs to ensure there is a single input token sale cell.
    let (lock_script, type_script) = match validate_token_sale_inputs(&tx.group_inputs) {
        Ok(key) => key,
        Err(e) => {
            return Err(e);
        },
    };
    // Check the outputs to ensure there is a single output token sale cell.
    match validate_token_sale_outputs(&lock_script, &type_script, &tx.outputs) {
        Ok(_) => (),
        Err(e) => {
            return Err(e);
        },
    }
    // Find all the capacity and token amounts.
    let (input_capacity_amount, input_token_amount) = match determine_token_sale_cell_amounts(
        &tx.group_inputs,
        &lock_script,
        &type_script,
    ) {
        Ok(totals) => totals,
        Err(e) => {
            return Err(e);
        },
    };
    let (output_capacity_amount, output_token_amount) = match determine_token_sale_cell_amounts(
        &tx.outputs,
        &lock_script,
        &type_script,
    ) {
        Ok(totals) => totals,
        Err(e) => {
            return Err(e);
        },
    };
    // Validate that all amounts are in balance.
    validate_amounts(
        decoded.unit_cost,
        input_capacity_amount,
        output_capacity_amount,
        input_token_amount,
        output_token_amount,
    )
}

/// Any transaction authorized by an owner-mode input is accepted outright,
/// regardless of its cell amounts or structure.
pub proof fn lemma_owner_mode_accepts(tx: Transaction)
    requires
        args_well_formed(tx.args@),
        owner_mode(tx),
    ensures
        verdict(tx) == Ok::<(), Error>(()),
{
}

/// A unit cost of zero is rejected as [`Error::InvalidCost`] whatever the
/// rest of the transaction holds.
pub proof fn lemma_zero_cost_rejected(tx: Transaction)
    requires
        tx.args@.len() >= ARGS_LEN,
        unit_cost_of(tx.args@) == 0,
    ensures
        verdict(tx) == Err::<(), Error>(Error::InvalidCost),
{
}

/// The conditions under which a transaction without an owner-mode input is
/// accepted: exactly one matched input carrying a type script, exactly one
/// matched output, decodable token payloads on all matched cells, strictly
/// growing capacity, strictly shrinking tokens, and an exact exchange at
/// the unit cost.
pub open spec fn balanced_sale(tx: Transaction) -> bool {
    &&& group_input_ok(tx)
    &&& matching_count(tx.outputs@, key_lock(tx), key_type(tx)) == 1
    &&& payloads_well_formed(tx.group_inputs@, key_lock(tx), key_type(tx))
    &&& payloads_well_formed(tx.outputs@, key_lock(tx), key_type(tx))
    &&& capacity_total_wrapped(tx.outputs@, key_lock(tx), key_type(tx)) > capacity_total_wrapped(
        tx.group_inputs@,
        key_lock(tx),
        key_type(tx),
    )
    &&& token_total_wrapped_out(tx) < token_total_wrapped_in(tx)
    &&& capacity_total_wrapped(tx.outputs@, key_lock(tx), key_type(tx)) - capacity_total_wrapped(
        tx.group_inputs@,
        key_lock(tx),
        key_type(tx),
    ) == (token_total_wrapped_in(tx) - token_total_wrapped_out(tx)) * unit_cost_of(tx.args@)
}

/// A transaction without an owner-mode input is accepted exactly when it
/// is a balanced sale (see [`balanced_sale`]).
pub proof fn lemma_non_owner_accept_iff(tx: Transaction)
    requires
        args_well_formed(tx.args@),
        !owner_mode(tx),
    ensures
        verdict(tx) == Ok::<(), Error>(()) <==> balanced_sale(tx),
{
}

} // verus!

