use vstd::prelude::*;

use spl_tlv_account_resolution::account::ExtraAccountMeta;
use spl_tlv_account_resolution::seeds::Seed;
use spl_tlv_account_resolution::state::ExtraAccountMetaList;
use spl_transfer_hook_interface::instruction::ExecuteInstruction;

use crate::error::HookError;
use crate::instruction::execute_discriminator;

verus! {

/// One required extra account, as the account-discovery convention encodes
/// it: a tag telling a fixed address from a derived one apart, the packed
/// address configuration, and the two access flags.
#[derive(Clone, Copy, Debug, PartialEq, Eq)]
pub struct AccountMetaConfig {
    /// How the address is resolved; a program-derived address packs its seed
    /// configurations and carries tag one.
    pub discriminator: u8,
    /// The packed address configuration: for a derived address, the packed
    /// seeds, zero-padded.
    pub address_config: [u8; 32],
    /// Whether the account must sign.
    pub is_signer: bool,
    /// Whether the account must be writable.
    pub is_writable: bool,
}

/// The seed literal that derives the whale record account: the bytes of the
/// string `whale_account`.
pub open spec fn whale_seed() -> Seq<u8> {
    seq![119u8, 104u8, 97u8, 108u8, 101u8, 95u8, 97u8, 99u8, 99u8, 111u8, 117u8, 110u8, 116u8]
}

/// The byte a required-account flag packs to.
pub open spec fn bool_byte(b: bool) -> u8 {
    if b {
        1u8
    } else {
        0u8
    }
}

/// The address configuration a single literal seed packs to: tag one, the
/// seed's length, the seed bytes, zero padding up to the fixed width.
pub open spec fn literal_seed_config(bytes: Seq<u8>) -> Seq<u8>
    recommends
        bytes.len() <= 30,
{
    seq![1u8, bytes.len() as u8] + bytes + Seq::new((30 - bytes.len()) as nat, |i: int| 0u8)
}

/// The extra account this hook requires for every transfer: the whale record
/// account, derived from its fixed seed, writable and not signing.
pub open spec fn is_whale_record_meta(m: AccountMetaConfig) -> bool {
    &&& m.discriminator == 1
    &&& m.address_config@ == literal_seed_config(whale_seed())
    &&& !m.is_signer
    &&& m.is_writable
}

/// The serialized form of one required extra account.
pub open spec fn meta_bytes(m: AccountMetaConfig) -> Seq<u8> {
    seq![m.discriminator] + m.address_config@ + seq![bool_byte(m.is_signer), bool_byte(
        m.is_writable,
    )]
}

/// The serialized form of a list of required extra accounts, in order.
pub open spec fn metas_bytes(metas: Seq<AccountMetaConfig>) -> Seq<u8>
    decreases metas.len(),
{
    if metas.len() == 0 {
        Seq::empty()
    } else {
        meta_bytes(metas.first()) + metas_bytes(metas.drop_first())
    }
}

/// Four little-endian bytes of an unsigned value.
pub open spec fn le32(n: int) -> Seq<u8> {
    seq![
        (n % 256) as u8,
        ((n / 256) % 256) as u8,
        ((n / 65536) % 256) as u8,
        ((n / 16777216) % 256) as u8,
    ]
}

/// The initialized contents of the extra account meta list account: a
/// type-length-value entry for the execute operation — its discriminator,
/// the entry length, the list's count — followed by each meta's bytes.
pub open spec fn meta_list_data(metas: Seq<AccountMetaConfig>) -> Seq<u8> {
    execute_discriminator() + le32(4 + 35 * metas.len() as int) + le32(metas.len() as int)
        + metas_bytes(
        metas,
    )
}

/// Relies on `spl_tlv_account_resolution::account::ExtraAccountMeta::new_with_seeds`:
/// a meta built from one literal seed carries tag one and packs the seed as
/// its address configuration. Seeds longer than the fixed configuration
/// width are left out by the precondition.
#[verifier::external_body]
fn pda_meta_with_literal_seed(bytes: &Vec<u8>, is_signer: bool, is_writable: bool) -> (m:
    AccountMetaConfig)
    requires
        bytes@.len() <= 30,
    ensures
        m.discriminator == 1,
        m.address_config@ == literal_seed_config(bytes@),
        m.is_signer == is_signer,
        m.is_writable == is_writable,
{
    let seeds = [Seed::Literal { bytes: bytes.clone() }];
    let meta = ExtraAccountMeta::new_with_seeds(&seeds, is_signer, is_writable).unwrap();
    AccountMetaConfig {
        discriminator: meta.discriminator,
        address_config: meta.address_config,
        is_signer: meta.is_signer.into(),
        is_writable: meta.is_writable.into(),
    }
}

/// Relies on `spl_tlv_account_resolution::state::ExtraAccountMetaList::size_of`:
/// the account size for a list is the type-length-value header (an
/// eight-byte discriminator and a four-byte length), a four-byte count, and
/// thirty-five bytes per meta.
#[verifier::external_body]
fn meta_list_size_of(num_items: usize) -> (r: usize)
    requires
        num_items <= 1024,
    ensures
        r == 16 + 35 * num_items,
{
    ExtraAccountMetaList::size_of(num_items).unwrap()
}

/// Relies on `spl_tlv_account_resolution::state::ExtraAccountMetaList::init`
/// with the execute operation as the entry type: into a zeroed buffer of
/// exactly the required size it writes the execute discriminator, the entry
/// length, the count, and each meta's bytes.
#[verifier::external_body]
fn init_meta_list_data(data: &mut Vec<u8>, metas: &Vec<AccountMetaConfig>)
    requires
        old(data)@.len() == 16 + 35 * metas@.len(),
        forall|i: int| 0 <= i < old(data)@.len() ==> old(data)@[i] == 0u8,
        metas@.len() <= 1024,
    ensures
        final(data)@ == meta_list_data(metas@),
{
    let items: Vec<ExtraAccountMeta> = metas.iter().map(
        |m: &AccountMetaConfig| ExtraAccountMeta {
            discriminator: m.discriminator,
            address_config: m.address_config,
            is_signer: m.is_signer.into(),
            is_writable: m.is_writable.into(),
        },
    ).collect();
    ExtraAccountMetaList::init::<ExecuteInstruction>(data.as_mut_slice(), &items).unwrap();
}

/// The seed literal that derives the whale record account, as bytes.
fn whale_seed_bytes() -> (b: Vec<u8>)
    ensures
        b@ == whale_seed(),
{
    let b: Vec<u8> = vec![119u8, 104u8, 97u8, 108u8, 101u8, 95u8, 97u8, 99u8, 99u8, 111u8, 117u8, 110u8, 116u8];
    proof {
        assert(b@ =~= whale_seed());
    }
    b
}

/// The extra accounts a caller must supply for the execute operation:
/// exactly one additional account reference, the whale record account.
pub fn required_extra_account_metas() -> (metas: Vec<AccountMetaConfig>)
    ensures
        metas@.len() == 1,
        is_whale_record_meta(metas@[0]),
{
    let seed = whale_seed_bytes();
    let meta = pda_meta_with_literal_seed(&seed, false, true);
    let mut metas: Vec<AccountMetaConfig> = Vec::new();
    metas.push(meta);
    metas
}

/// The initialized contents of the extra account meta list account: one
/// entry for the execute operation, listing the whale record account alone.
pub open spec fn initialized_meta_list_data() -> Seq<u8> {
    execute_discriminator() + le32(39) + le32(1) + seq![1u8] + literal_seed_config(whale_seed())
        + seq![0u8, 1u8]
}

/// The account slot that holds the extra account meta list: whether the
/// host has allocated it, and its contents. The host allocates each account
/// at most once, so allocation of an existing slot must fail.
pub struct MetaListAccount {
    /// Whether the account has been allocated.
    pub created: bool,
    /// The account's contents.
    pub data: Vec<u8>,
}

/// The mathematical state of the meta list account slot.
#[verifier::ext_equal]
pub struct MetaListState {
    /// Whether the account has been allocated.
    pub created: bool,
    /// The account's contents.
    pub data: Seq<u8>,
}

impl View for MetaListAccount {
    type V = MetaListState;

    open spec fn view(&self) -> MetaListState {
        MetaListState { created: self.created, data: self.data@ }
    }
}

/// The slot after the initialization routine runs: untouched if it was
/// allocated already, otherwise allocated and filled with the meta list.
pub open spec fn state_after_initialize(s: MetaListState) -> MetaListState {
    if s.created {
        s
    } else {
        MetaListState { created: true, data: initialized_meta_list_data() }
    }
}

/// What the initialization routine reports: failure if the slot was
/// allocated already, success otherwise.
pub open spec fn initialize_result(s: MetaListState) -> Result<(), HookError> {
    if s.created {
        Err(HookError::AccountAlreadyInUse)
    } else {
        Ok(())
    }
}

/// The initialization routine: allocate the fixed extra account meta list
/// account and write the required list — exactly one additional account —
/// into it. Allocating an already-allocated slot fails and changes nothing.
pub fn initialize_extra_account(slot: &mut MetaListAccount) -> (r: Result<(), HookError>)
    ensures
        final(slot)@ == state_after_initialize(old(slot)@),
        r == initialize_result(old(slot)@),
{
    if slot.created {
        return Err(HookError::AccountAlreadyInUse);
    }
    let metas = required_extra_account_metas();
    let size = meta_list_size_of(metas.len());
    let mut data = zeroed_vec(size);
    init_meta_list_data(&mut data, &metas);
    proof {
        lemma_whale_meta_list_data(metas@);
    }
    slot.data = data;
    slot.created = true;
    proof {
        assert(final(slot)@ =~= state_after_initialize(old(slot)@));
    }
    Ok(())
}

/// The meta list for the single whale record meta serializes to the
/// initialized contents.
proof fn lemma_whale_meta_list_data(metas: Seq<AccountMetaConfig>)
    requires
        metas.len() == 1,
        is_whale_record_meta(metas[0]),
    ensures
        meta_list_data(metas) == initialized_meta_list_data(),
{
    assert(metas.drop_first().len() == 0);
    assert(metas_bytes(metas.drop_first()) == Seq::<u8>::empty());
    assert(meta_bytes(metas.first()) =~= seq![1u8] + literal_seed_config(whale_seed()) + seq![
        0u8,
        1u8,
    ]);
    assert(meta_list_data(metas) =~= initialized_meta_list_data());
}

/// A vector of the given length holding only zeroes.
fn zeroed_vec(n: usize) -> (v: Vec<u8>)
    ensures
        v@.len() == n,
        forall|i: int| 0 <= i < n ==> v@[i] == 0u8,
{
    let mut v: Vec<u8> = Vec::new();
    while v.len() < n
        invariant
            v@.len() <= n,
            forall|i: int| 0 <= i < v@.len() ==> v@[i] == 0u8,
        decreases n - v@.len(),
    {
        v.push(0u8);
    }
    v
}

/// The initialization routine is not idempotent, by construction: it
/// allocates a fixed account. On the state a successful run produces, a
/// second run must fail and leave that state unchanged.
pub proof fn lemma_second_initialize_fails(s: MetaListState)
    requires
        !s.created,
    ensures
        initialize_result(s) is Ok,
        initialize_result(state_after_initialize(s)) == Err::<(), HookError>(
            HookError::AccountAlreadyInUse,
        ),
        state_after_initialize(state_after_initialize(s)) == state_after_initialize(s),
{
}

} // verus!
