use vstd::prelude::*;

use spl_transfer_hook_interface::instruction::TransferHookInstruction;

use crate::error::HookError;

verus! {

/// The eight-byte discriminator that opens the execute instruction: the
/// first eight bytes of the SHA-256 hash of
/// `spl-transfer-hook-interface:execute`.
pub open spec fn execute_discriminator() -> Seq<u8> {
    seq![105u8, 37u8, 101u8, 197u8, 75u8, 251u8, 102u8, 26u8]
}

/// The eight-byte discriminator that opens the instruction initializing the
/// extra account meta list: the first eight bytes of the SHA-256 hash of
/// `spl-transfer-hook-interface:initialize-extra-account-metas`.
pub open spec fn initialize_discriminator() -> Seq<u8> {
    seq![43u8, 34u8, 13u8, 49u8, 167u8, 88u8, 235u8, 235u8]
}

/// The eight-byte discriminator that opens the instruction updating the
/// extra account meta list: the first eight bytes of the SHA-256 hash of
/// `spl-transfer-hook-interface:update-extra-account-metas`.
pub open spec fn update_discriminator() -> Seq<u8> {
    seq![157u8, 105u8, 42u8, 146u8, 102u8, 85u8, 241u8, 174u8]
}

/// The unsigned value a byte sequence holds in little-endian order.
pub open spec fn le_bytes_value(s: Seq<u8>) -> int
    decreases s.len(),
{
    if s.len() == 0 {
        0
    } else {
        s[0] + 256 * le_bytes_value(s.drop_first())
    }
}

/// Two hundred fifty-six to the `n`th power.
pub open spec fn pow256(n: nat) -> int
    decreases n,
{
    if n == 0 {
        1
    } else {
        256 * pow256((n - 1) as nat)
    }
}

proof fn lemma_le_bytes_value_nonneg(s: Seq<u8>)
    ensures
        le_bytes_value(s) >= 0,
    decreases s.len(),
{
    if s.len() > 0 {
        lemma_le_bytes_value_nonneg(s.drop_first());
    }
}

proof fn lemma_le_bytes_value_push(s: Seq<u8>, b: u8)
    ensures
        le_bytes_value(s.push(b)) == le_bytes_value(s) + b * pow256(s.len()),
    decreases s.len(),
{
    if s.len() == 0 {
        assert(s.push(b).drop_first() =~= Seq::<u8>::empty());
        assert(le_bytes_value(s.push(b)) == b + 256 * le_bytes_value(Seq::<u8>::empty()));
    } else {
        assert(s.push(b).drop_first() =~= s.drop_first().push(b));
        assert(s.push(b)[0] == s[0]);
        lemma_le_bytes_value_push(s.drop_first(), b);
        assert(le_bytes_value(s.push(b)) == s[0] + 256 * (le_bytes_value(s.drop_first()) + b
            * pow256(s.drop_first().len())));
        assert(b * (256 * pow256(s.drop_first().len())) == 256 * (b * pow256(
            s.drop_first().len(),
        ))) by (nonlinear_arith);
        assert(pow256(s.len()) == 256 * pow256(s.drop_first().len()));
    }
}

/// Whether instruction data names the execute operation: the execute
/// discriminator followed by at least eight bytes of little-endian amount.
pub open spec fn is_execute_data(data: Seq<u8>) -> bool {
    data.len() >= 16 && data.subrange(0, 8) == execute_discriminator()
}

/// The transferred amount that execute instruction data carries.
pub open spec fn execute_amount(data: Seq<u8>) -> int {
    le_bytes_value(data.subrange(8, 16))
}

/// The operations of the transfer-hook instruction schema, reduced to what
/// dispatch needs: the operation's identity, and the amount of the one
/// operation this program supports.
pub enum HookInstruction {
    /// The token program reports a transfer of `amount` base units.
    Execute { amount: u64 },
    /// A caller asks to initialize the extra account meta list.
    InitializeExtraAccountMetaList,
    /// A caller asks to update the extra account meta list.
    UpdateExtraAccountMetaList,
}

/// Whether an unpacked result is the execute operation carrying the amount
/// that the given instruction data holds.
pub open spec fn unpacked_execute_of(r: Result<HookInstruction, HookError>, data: Seq<u8>) -> bool {
    match r {
        Ok(HookInstruction::Execute { amount }) => amount == execute_amount(data),
        _ => false,
    }
}

/// Whether an unpacked result is the execute operation at all.
pub open spec fn unpacked_is_execute(r: Result<HookInstruction, HookError>) -> bool {
    r matches Ok(HookInstruction::Execute { .. })
}

/// Whether an unpacked result asks to initialize the extra account meta list.
pub open spec fn unpacked_is_initialize(r: Result<HookInstruction, HookError>) -> bool {
    r matches Ok(HookInstruction::InitializeExtraAccountMetaList)
}

/// Whether an unpacked result asks to update the extra account meta list.
pub open spec fn unpacked_is_update(r: Result<HookInstruction, HookError>) -> bool {
    r matches Ok(HookInstruction::UpdateExtraAccountMetaList)
}

/// The remaining unpack guarantees: the two list-management operations come
/// only from their own discriminators, and data too short to hold any
/// discriminator is rejected.
pub open spec fn unpacked_dispatch_of(r: Result<HookInstruction, HookError>, data: Seq<u8>) -> bool {
    &&& unpacked_is_initialize(r) ==> data.len() >= 8 && data.subrange(0, 8)
        == initialize_discriminator()
    &&& unpacked_is_update(r) ==> data.len() >= 8 && data.subrange(0, 8)
        == update_discriminator()
    &&& data.len() < 8 ==> (r matches Err(e) && e == HookError::InvalidInstructionData)
}

/// Relies on `spl_transfer_hook_interface::instruction::TransferHookInstruction::unpack`:
/// it splits off an eight-byte discriminator, and for the execute operation
/// reads the next eight bytes as a little-endian amount, rejecting anything
/// shorter or unrecognized.
#[verifier::external_body]
fn unpack_instruction(data: &[u8]) -> (r: Result<HookInstruction, HookError>)
    ensures
        is_execute_data(data@) ==> unpacked_execute_of(r, data@),
        !is_execute_data(data@) ==> !unpacked_is_execute(r),
        unpacked_dispatch_of(r, data@),
{
    match TransferHookInstruction::unpack(data) {
        Ok(TransferHookInstruction::Execute { amount }) => Ok(HookInstruction::Execute { amount }),
        Ok(TransferHookInstruction::InitializeExtraAccountMetaList { .. }) => Ok(
            HookInstruction::InitializeExtraAccountMetaList,
        ),
        Ok(TransferHookInstruction::UpdateExtraAccountMetaList { .. }) => Ok(
            HookInstruction::UpdateExtraAccountMetaList,
        ),
        Err(_) => Err(HookError::InvalidInstructionData),
    }
}

/// The eight little-endian bytes of a transferred amount, as the execute
/// operation re-encodes it for dispatch.
pub fn amount_le_bytes(amount: u64) -> (b: Vec<u8>)
    ensures
        b@.len() == 8,
        le_bytes_value(b@) == amount,
{
    let mut b: Vec<u8> = Vec::new();
    let mut x: u64 = amount;
    let mut i: usize = 0;
    while i < 8
        invariant
            i <= 8,
            b@.len() == i,
            le_bytes_value(b@) + (x as int) * pow256(i as nat) == amount as int,
        decreases 8 - i,
    {
        let byte = (x % 256) as u8;
        proof {
            lemma_le_bytes_value_push(b@, byte);
            assert((byte as int) * pow256(i as nat) + ((x / 256) as int) * (256 * pow256(
                i as nat,
            )) == (x as int) * pow256(i as nat)) by (nonlinear_arith)
                requires
                    byte == x % 256,
                    x >= 0,
            ;
        }
        b.push(byte);
        x = x / 256;
        i = i + 1;
    }
    proof {
        lemma_le_bytes_value_nonneg(b@);
        assert(pow256(8) == 0x1_0000_0000_0000_0000) by {
            reveal_with_fuel(pow256, 9);
        }
        assert((x as int) * pow256(8) <= amount as int ==> x == 0) by (nonlinear_arith)
            requires
                le_bytes_value(b@) >= 0,
                le_bytes_value(b@) + (x as int) * pow256(8) == amount as int,
                pow256(8) == 0x1_0000_0000_0000_0000,
                amount < 0x1_0000_0000_0000_0000,
                x >= 0,
        ;
    }
    b
}

/// The instruction data that reports a transfer of the given amount: the
/// execute discriminator, then the amount in little-endian bytes.
pub fn execute_instruction_data(amount: u64) -> (data: Vec<u8>)
    ensures
        data@.len() == 16,
        is_execute_data(data@),
        execute_amount(data@) == amount,
{
    let mut data: Vec<u8> = vec![105u8, 37u8, 101u8, 197u8, 75u8, 251u8, 102u8, 26u8];
    proof {
        assert(data@ =~= execute_discriminator());
    }
    let ghost disc = data@;
    let mut amount_bytes = amount_le_bytes(amount);
    let ghost amt = amount_bytes@;
    data.append(&mut amount_bytes);
    proof {
        assert(data@.subrange(0, 8) =~= disc);
        assert(data@.subrange(8, 16) =~= amt);
    }
    data
}

/// Dispatch for the raw instruction bytes the token program hands this
/// program's entrypoint during a transfer: the execute operation yields the
/// transferred amount, and any other data is rejected with the single
/// explicit rejection.
pub fn fallback(data: &[u8]) -> (r: Result<u64, HookError>)
    ensures
        is_execute_data(data@) ==> (r matches Ok(amount) && amount == execute_amount(data@)),
        !is_execute_data(data@) ==> (r matches Err(e) && e == HookError::InvalidInstructionData),
{
    match unpack_instruction(data) {
        Ok(HookInstruction::Execute { amount }) => Ok(amount),
        _ => Err(HookError::InvalidInstructionData),
    }
}

} // verus!
