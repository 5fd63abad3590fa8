use vstd::prelude::*;
use crate::constant::{FARM_FEE, KEY_LEN};
use crate::error::FarmError;
use crate::instruction::{spec_parse_instruction, parse_instruction, FarmInstruction, PAY_FARM_FEE_TAG};
use crate::keys::{copy_key, keys_equal};
use crate::state::{spec_parse_farm, spec_pack_farm, unpack_farm, pack_farm, Farm, FarmView};

verus! {

/// The result of deriving a program-bound signing authority from a program
/// id, a seed address and a nonce byte, as the ledger runtime computes it:
/// a fresh 32-byte address, or nothing where the derivation fails. The
/// derivation reads its arguments alone, so two derivations from the same
/// inputs agree.
pub uninterp spec fn program_address(program_id: Seq<u8>, seed_key: Seq<u8>, nonce: u8) -> Option<
    Seq<u8>,
>;

/// Relies on `solana_program::pubkey::Pubkey::create_program_address`: the
/// derivation is a pure function of the seed bytes and the program id, here
/// named `program_address`; a derived address is 32 bytes long; the call
/// returns an error exactly where the name holds no value.
#[verifier::external_body]
fn derive_program_address(program_id: &Vec<u8>, seed_key: &Vec<u8>, nonce: u8) -> (r: Option<
    Vec<u8>,
>)
    requires
        program_id@.len() == KEY_LEN,
    ensures
        match r {
            Some(k) => program_address(program_id@, seed_key@, nonce) == Some(k@) && k@.len()
                == KEY_LEN,
            None => program_address(program_id@, seed_key@, nonce) is None,
        },
{
    let pid = solana_program::pubkey::Pubkey::try_from(program_id.as_slice()).unwrap();
    let seeds: &[&[u8]] = &[seed_key.as_slice(), &[nonce]];
    solana_program::pubkey::Pubkey::create_program_address(seeds, &pid).ok().map(
        |k| k.to_bytes().to_vec(),
    )
}

/// The accounts handed to the fee payment, one named field per positional
/// role of the runtime's account list. Each field is the account's 32-byte
/// address.
pub struct PayFeeAccounts {
    /// The farm record's own account, whose slot holds the packed record.
    pub farm_id: Vec<u8>,
    /// The asserted derived authority of the farm.
    pub authority: Vec<u8>,
    /// The asserted owner of the farm.
    pub creator: Vec<u8>,
    /// The delegate authorised to move the payer's tokens.
    pub user_transfer_authority: Vec<u8>,
    /// The payer's token account, the source of the fee.
    pub user_token_account: Vec<u8>,
    /// The fee recipient account.
    pub fee_owner: Vec<u8>,
    /// The token-transfer service.
    pub token_program: Vec<u8>,
}

/// The mathematical image of the account list.
#[verifier::ext_equal]
pub struct PayFeeAccountsView {
    pub farm_id: Seq<u8>,
    pub authority: Seq<u8>,
    pub creator: Seq<u8>,
    pub user_transfer_authority: Seq<u8>,
    pub user_token_account: Seq<u8>,
    pub fee_owner: Seq<u8>,
    pub token_program: Seq<u8>,
}

impl View for PayFeeAccounts {
    type V = PayFeeAccountsView;

    open spec fn view(&self) -> PayFeeAccountsView {
        PayFeeAccountsView {
            farm_id: self.farm_id@,
            authority: self.authority@,
            creator: self.creator@,
            user_transfer_authority: self.user_transfer_authority@,
            user_token_account: self.user_token_account@,
            fee_owner: self.fee_owner@,
            token_program: self.token_program@,
        }
    }
}

/// A fully validated fee transfer, ready for the runtime to perform: which
/// token account pays which, under which authority, signed with the
/// capability derived from the seed address and nonce.
#[derive(Debug)]
pub struct TransferAction {
    /// The token-transfer service to invoke.
    pub token_program: Vec<u8>,
    /// The token account the fee leaves.
    pub source: Vec<u8>,
    /// The token account the fee reaches.
    pub destination: Vec<u8>,
    /// The account authorising the movement.
    pub authority: Vec<u8>,
    /// The first signing seed: the farm record's address.
    pub seed_key: Vec<u8>,
    /// The second signing seed: the farm's nonce.
    pub seed_nonce: u8,
    /// The amount moved.
    pub amount: u64,
}

/// The mathematical image of a fee transfer.
#[verifier::ext_equal]
pub struct TransferActionView {
    pub token_program: Seq<u8>,
    pub source: Seq<u8>,
    pub destination: Seq<u8>,
    pub authority: Seq<u8>,
    pub seed_key: Seq<u8>,
    pub seed_nonce: u8,
    pub amount: u64,
}

impl View for TransferAction {
    type V = TransferActionView;

    open spec fn view(&self) -> TransferActionView {
        TransferActionView {
            token_program: self.token_program@,
            source: self.source@,
            destination: self.destination@,
            authority: self.authority@,
            seed_key: self.seed_key@,
            seed_nonce: self.seed_nonce,
            amount: self.amount,
        }
    }
}

/// The transfer the fee payment performs once every check has passed: the
/// fee leaves the payer's token account for the fee recipient, authorised
/// by the payer's delegate, signed with the farm's derived capability.
pub open spec fn spec_fee_transfer(
    acc: PayFeeAccountsView,
    nonce: u8,
    amount: u64,
) -> TransferActionView {
    TransferActionView {
        token_program: acc.token_program,
        source: acc.user_token_account,
        destination: acc.fee_owner,
        authority: acc.user_transfer_authority,
        seed_key: acc.farm_id,
        seed_nonce: nonce,
        amount: amount,
    }
}

/// The whole validation sequence of the fee payment, in its fixed order: a
/// paid farm is rejected first, then a wrong owner, then a wrong or failed
/// authority derivation, then a wrong amount; only a run that passes every
/// check yields the transfer to perform.
pub open spec fn spec_pay_farm_fee(
    program_id: Seq<u8>,
    acc: PayFeeAccountsView,
    farm: FarmView,
    amount: u64,
) -> Result<TransferActionView, FarmError> {
    if farm.paid() {
        Err(FarmError::AlreadyInUse)
    } else if acc.creator != farm.owner {
        Err(FarmError::WrongManager)
    } else if program_address(program_id, acc.farm_id, farm.nonce) != Some(acc.authority) {
        Err(FarmError::InvalidProgramAddress)
    } else if amount != FARM_FEE {
        Err(FarmError::InvalidFarmFee)
    } else {
        Ok(spec_fee_transfer(acc, farm.nonce, amount))
    }
}

/// What processing an instruction buffer against a farm slot yields: a
/// decode failure or an unsupported tag is rejected before the farm slot is
/// even read; a fee payment runs the validation sequence.
pub open spec fn spec_process(
    program_id: Seq<u8>,
    acc: PayFeeAccountsView,
    farm_bytes: Seq<u8>,
    input: Seq<u8>,
) -> Result<TransferActionView, FarmError> {
    match spec_parse_instruction(input) {
        None => Err(FarmError::MalformedInstruction),
        Some(FarmInstruction::Unsupported(_)) => Err(FarmError::NotAllowed),
        Some(FarmInstruction::PayFarmFee(amount)) => match spec_parse_farm(farm_bytes) {
            None => Err(FarmError::MalformedInstruction),
            Some(farm) => spec_pay_farm_fee(program_id, acc, farm, amount),
        },
    }
}

/// The fee-payment processor: it validates, describes the transfer to
/// perform, and commits the paid flag once the runtime reports the transfer
/// done.
pub struct Processor {}

impl Processor {
    /// Decodes the instruction buffer and dispatches it: the fee payment is
    /// processed, every other tag is rejected with `NotAllowed`, and a
    /// buffer that does not decode is rejected with `MalformedInstruction`.
    /// No account is touched on any rejection.
    pub fn process(
        program_id: &Vec<u8>,
        accounts: &PayFeeAccounts,
        farm_data: &[u8],
        input: &[u8],
    ) -> (r: Result<TransferAction, FarmError>)
        requires
            program_id@.len() == KEY_LEN,
        ensures
            match spec_process(program_id@, accounts@, farm_data@, input@) {
                Ok(t) => r is Ok && r->Ok_0@ == t,
                Err(e) => r == Err::<TransferAction, FarmError>(e),
            },
    {
        let instruction = match parse_instruction(input) {
            Ok(i) => i,
            Err(e) => { return Err(e) },
        };
        match instruction {
            FarmInstruction::PayFarmFee(amount) => Self::process_pay_farm_fee(
                program_id,
                accounts,
                farm_data,
                amount,
            ),
            FarmInstruction::Unsupported(_) => Err(FarmError::NotAllowed),
        }
    }

    /// Runs the validation sequence of the fee payment against the farm
    /// record packed in `farm_data` and, where every check passes, returns
    /// the exact transfer the runtime must perform before the paid flag may
    /// be committed. The checks run in their fixed order and the first
    /// failure is returned; nothing is mutated here.
    pub fn process_pay_farm_fee(
        program_id: &Vec<u8>,
        accounts: &PayFeeAccounts,
        farm_data: &[u8],
        amount: u64,
    ) -> (r: Result<TransferAction, FarmError>)
        requires
            program_id@.len() == KEY_LEN,
        ensures
            match spec_parse_farm(farm_data@) {
                None => r == Err::<TransferAction, FarmError>(FarmError::MalformedInstruction),
                Some(farm) => match spec_pay_farm_fee(program_id@, accounts@, farm, amount) {
                    Ok(t) => r is Ok && r->Ok_0@ == t,
                    Err(e) => r == Err::<TransferAction, FarmError>(e),
                },
            },
    {
        let farm = match unpack_farm(farm_data) {
            Ok(f) => f,
            Err(e) => { return Err(e) },
        };
        if farm.is_allowed == 1 {
            return Err(FarmError::AlreadyInUse);
        }
        if !keys_equal(&accounts.creator, &farm.owner) {
            return Err(FarmError::WrongManager);
        }
        let derived = match Self::authority_id(program_id, &accounts.farm_id, farm.nonce) {
            Ok(k) => k,
            Err(e) => { return Err(e) },
        };
        if !keys_equal(&accounts.authority, &derived) {
            return Err(FarmError::InvalidProgramAddress);
        }
        if amount != FARM_FEE {
            return Err(FarmError::InvalidFarmFee);
        }
        let action = Self::token_transfer(
            &accounts.farm_id,
            &accounts.token_program,
            &accounts.user_token_account,
            &accounts.fee_owner,
            &accounts.user_transfer_authority,
            farm.nonce,
            amount,
        );
        Ok(action)
    }

    /// Derives the farm's program-bound signing authority from the program
    /// id, the farm's own address and its nonce. The same derivation both
    /// validates a caller-asserted authority and signs the outbound
    /// transfer. A failed derivation is reported as
    /// `InvalidProgramAddress`.
    pub fn authority_id(program_id: &Vec<u8>, my_info: &Vec<u8>, nonce: u8) -> (r: Result<
        Vec<u8>,
        FarmError,
    >)
        requires
            program_id@.len() == KEY_LEN,
        ensures
            match program_address(program_id@, my_info@, nonce) {
                Some(k) => r is Ok && r->Ok_0@ == k,
                None => r == Err::<Vec<u8>, FarmError>(FarmError::InvalidProgramAddress),
            },
    {
        match derive_program_address(program_id, my_info, nonce) {
            Some(k) => Ok(k),
            None => Err(FarmError::InvalidProgramAddress),
        }
    }

    /// Describes the fee transfer: `amount` moves from `source` to
    /// `destination` through the `token_program` service, authorised by
    /// `authority`, signed with the capability derived from `pool` and
    /// `nonce`.
    pub fn token_transfer(
        pool: &Vec<u8>,
        token_program: &Vec<u8>,
        source: &Vec<u8>,
        destination: &Vec<u8>,
        authority: &Vec<u8>,
        nonce: u8,
        amount: u64,
    ) -> (t: TransferAction)
        ensures
            t@ == (TransferActionView {
                token_program: token_program@,
                source: source@,
                destination: destination@,
                authority: authority@,
                seed_key: pool@,
                seed_nonce: nonce,
                amount: amount,
            }),
    {
        let t = TransferAction {
            token_program: copy_key(token_program),
            source: copy_key(source),
            destination: copy_key(destination),
            authority: copy_key(authority),
            seed_key: copy_key(pool),
            seed_nonce: nonce,
            amount,
        };
        proof {
            assert(t@ =~= (TransferActionView {
                token_program: token_program@,
                source: source@,
                destination: destination@,
                authority: authority@,
                seed_key: pool@,
                seed_nonce: nonce,
                amount: amount,
            }));
        }
        t
    }

    /// Commits the fee payment once the runtime reports the outcome of the
    /// transfer: on success, the farm record with its paid flag set, packed
    /// for its storage slot and otherwise unchanged; on failure, nothing,
    /// so the stored record keeps its unpaid flag.
    pub fn finish_pay_farm_fee(farm: &Farm, transfer_succeeded: bool) -> (r: Option<Vec<u8>>)
        ensures
            transfer_succeeded ==> r is Some && r->0@ == spec_pack_farm(farm@.pay()),
            !transfer_succeeded ==> r is None,
    {
        if !transfer_succeeded {
            return None;
        }
        let paid = Farm { owner: copy_key(&farm.owner), nonce: farm.nonce, is_allowed: 1 };
        proof {
            assert(paid@ =~= farm@.pay());
        }
        Some(pack_farm(&paid))
    }
}

/// A farm whose fee is already paid is rejected with `AlreadyInUse`,
/// whatever the accounts and the claimed amount. No transfer is produced,
/// and since only a produced transfer can lead to a commit, the stored
/// record is left unchanged.
pub proof fn lemma_paid_farm_rejected(
    program_id: Seq<u8>,
    acc: PayFeeAccountsView,
    farm: FarmView,
    amount: u64,
)
    requires
        farm.paid(),
    ensures
        spec_pay_farm_fee(program_id, acc, farm, amount) == Err::<
            TransferActionView,
            FarmError,
        >(FarmError::AlreadyInUse),
{
}

/// The authority derivation is a pure function of the program id, the seed
/// address and the nonce: two derivations from the same inputs agree. The
/// result of `authority_id` is pinned to this function by its contract, so
/// two calls with the same arguments return the same address.
pub proof fn lemma_authority_derivation_deterministic(
    program_id: Seq<u8>,
    seed_key: Seq<u8>,
    nonce: u8,
)
    ensures
        program_address(program_id, seed_key, nonce) == program_address(
            program_id,
            seed_key,
            nonce,
        ),
{
}

/// On an unpaid farm, an asserted owner that differs from the stored owner
/// is rejected with `WrongManager`. No transfer is produced, so the
/// external transfer collaborator is never invoked and nothing is written.
pub proof fn lemma_wrong_manager_rejected(
    program_id: Seq<u8>,
    acc: PayFeeAccountsView,
    farm: FarmView,
    amount: u64,
)
    requires
        !farm.paid(),
        acc.creator != farm.owner,
    ensures
        spec_pay_farm_fee(program_id, acc, farm, amount) == Err::<
            TransferActionView,
            FarmError,
        >(FarmError::WrongManager),
{
}

/// A claimed amount other than the exact farm fee never yields a transfer;
/// and where every earlier check passes, it is rejected with
/// `InvalidFarmFee`.
pub proof fn lemma_wrong_amount_rejected(
    program_id: Seq<u8>,
    acc: PayFeeAccountsView,
    farm: FarmView,
    amount: u64,
)
    requires
        amount != FARM_FEE,
    ensures
        !(spec_pay_farm_fee(program_id, acc, farm, amount) is Ok),
        !farm.paid() && acc.creator == farm.owner && program_address(
            program_id,
            acc.farm_id,
            farm.nonce,
        ) == Some(acc.authority) ==> spec_pay_farm_fee(program_id, acc, farm, amount) == Err::<
            TransferActionView,
            FarmError,
        >(FarmError::InvalidFarmFee),
{
}

/// A transfer is produced exactly when the whole validation sequence
/// passes: the farm is unpaid, the asserted owner is the stored owner, the
/// asserted authority is the derived authority, and the amount is the
/// exact fee. The transfer produced is then the fee transfer itself: the
/// exact amount, from the payer's token account to the fee recipient,
/// signed with the farm's address and nonce.
pub proof fn lemma_transfer_exactly_on_valid_payment(
    program_id: Seq<u8>,
    acc: PayFeeAccountsView,
    farm: FarmView,
    amount: u64,
)
    ensures
        spec_pay_farm_fee(program_id, acc, farm, amount) is Ok <==> (!farm.paid() && acc.creator
            == farm.owner && program_address(program_id, acc.farm_id, farm.nonce) == Some(
            acc.authority,
        ) && amount == FARM_FEE),
        spec_pay_farm_fee(program_id, acc, farm, amount) is Ok ==> spec_pay_farm_fee(
            program_id,
            acc,
            farm,
            amount,
        )->Ok_0 == spec_fee_transfer(acc, farm.nonce, amount),
{
}

/// Every instruction tag other than the fee payment is rejected with
/// `NotAllowed`. The farm slot plays no part in the rejection and no
/// account data is touched.
pub proof fn lemma_unknown_tag_rejected(
    program_id: Seq<u8>,
    acc: PayFeeAccountsView,
    farm_bytes: Seq<u8>,
    input: Seq<u8>,
)
    requires
        input.len() > 0,
        input[0] != PAY_FARM_FEE_TAG,
    ensures
        spec_process(program_id, acc, farm_bytes, input) == Err::<
            TransferActionView,
            FarmError,
        >(FarmError::NotAllowed),
{
}

} // verus!
