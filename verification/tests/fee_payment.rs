use farm_fee::constant::FARM_FEE;
use farm_fee::error::FarmError;
use farm_fee::processor::{PayFeeAccounts, Processor};
use farm_fee::state::{pack_farm, unpack_farm, Farm};
use solana_program::pubkey::Pubkey;

fn key(b: u8) -> Vec<u8> {
    vec![b; 32]
}

fn fee_instruction(amount: u64) -> Vec<u8> {
    let mut bytes = vec![1u8];
    bytes.extend_from_slice(&amount.to_le_bytes());
    bytes
}

/// The first nonce under which the farm's authority derives, with the
/// derived address, as a client would search for it.
fn valid_nonce(program_id: &Vec<u8>, farm_id: &Vec<u8>) -> (u8, Vec<u8>) {
    for nonce in 0..=255u8 {
        if let Ok(authority) = Processor::authority_id(program_id, farm_id, nonce) {
            return (nonce, authority);
        }
    }
    panic!("no nonce derives an authority");
}

/// A nonce under which the derivation fails, if the search finds one.
fn invalid_nonce(program_id: &Vec<u8>, farm_id: &Vec<u8>) -> Option<u8> {
    (0..=255u8).find(|&nonce| Processor::authority_id(program_id, farm_id, nonce).is_err())
}

struct Setup {
    program_id: Vec<u8>,
    accounts: PayFeeAccounts,
    farm_bytes: Vec<u8>,
}

fn valid_setup() -> Setup {
    let program_id = key(11);
    let farm_id = key(22);
    let owner = key(33);
    let (nonce, authority) = valid_nonce(&program_id, &farm_id);
    let farm = Farm { owner: owner.clone(), nonce, is_allowed: 0 };
    Setup {
        program_id,
        accounts: PayFeeAccounts {
            farm_id,
            authority,
            creator: owner,
            user_transfer_authority: key(44),
            user_token_account: key(55),
            fee_owner: key(66),
            token_program: key(77),
        },
        farm_bytes: pack_farm(&farm),
    }
}

#[test]
fn authority_id_matches_the_runtime_derivation() {
    let program_id = key(11);
    let farm_id = key(22);
    let pid = Pubkey::try_from(&program_id[..]).unwrap();
    for nonce in 0..=255u8 {
        let direct =
            Pubkey::create_program_address(&[&farm_id[..], &[nonce]], &pid);
        let ours = Processor::authority_id(&program_id, &farm_id, nonce);
        match direct {
            Ok(k) => assert_eq!(ours.unwrap(), k.to_bytes().to_vec()),
            Err(_) => assert_eq!(ours.unwrap_err(), FarmError::InvalidProgramAddress),
        }
    }
}

#[test]
fn authority_derivation_is_deterministic() {
    let program_id = key(1);
    let farm_id = key(2);
    let (nonce, first) = valid_nonce(&program_id, &farm_id);
    let again = Processor::authority_id(&program_id, &farm_id, nonce).unwrap();
    assert_eq!(first, again);
}

#[test]
fn authority_derivation_depends_on_every_input() {
    let program_id = key(1);
    let farm_id = key(2);
    let (nonce, authority) = valid_nonce(&program_id, &farm_id);
    // Another nonce that derives must derive a different address.
    for other in (nonce + 1)..=255u8 {
        if let Ok(other_authority) = Processor::authority_id(&program_id, &farm_id, other) {
            assert_ne!(authority, other_authority);
            break;
        }
    }
    // A different seed address or program id changes the result too.
    if let Ok(other_authority) = Processor::authority_id(&program_id, &key(3), nonce) {
        assert_ne!(authority, other_authority);
    }
    if let Ok(other_authority) = Processor::authority_id(&key(4), &farm_id, nonce) {
        assert_ne!(authority, other_authority);
    }
}

#[test]
fn failed_derivation_is_reported() {
    let program_id = key(11);
    let farm_id = key(22);
    if let Some(nonce) = invalid_nonce(&program_id, &farm_id) {
        assert_eq!(
            Processor::authority_id(&program_id, &farm_id, nonce),
            Err(FarmError::InvalidProgramAddress)
        );
    }
}

#[test]
fn paid_farm_is_rejected_and_left_unchanged() {
    let mut setup = valid_setup();
    setup.farm_bytes[33] = 1;
    let before = setup.farm_bytes.clone();
    let r = Processor::process(
        &setup.program_id,
        &setup.accounts,
        &setup.farm_bytes,
        &fee_instruction(FARM_FEE),
    );
    assert_eq!(r.unwrap_err(), FarmError::AlreadyInUse);
    assert_eq!(setup.farm_bytes, before);
}

#[test]
fn wrong_owner_is_rejected_without_a_transfer() {
    let mut setup = valid_setup();
    setup.accounts.creator = key(99);
    let r = Processor::process(
        &setup.program_id,
        &setup.accounts,
        &setup.farm_bytes,
        &fee_instruction(FARM_FEE),
    );
    assert_eq!(r.unwrap_err(), FarmError::WrongManager);
}

#[test]
fn wrong_authority_is_rejected() {
    let mut setup = valid_setup();
    setup.accounts.authority = key(98);
    let r = Processor::process(
        &setup.program_id,
        &setup.accounts,
        &setup.farm_bytes,
        &fee_instruction(FARM_FEE),
    );
    assert_eq!(r.unwrap_err(), FarmError::InvalidProgramAddress);
}

#[test]
fn amount_below_the_fee_is_rejected() {
    let setup = valid_setup();
    let r = Processor::process(
        &setup.program_id,
        &setup.accounts,
        &setup.farm_bytes,
        &fee_instruction(FARM_FEE - 1),
    );
    assert_eq!(r.unwrap_err(), FarmError::InvalidFarmFee);
}

#[test]
fn amount_above_the_fee_is_rejected() {
    let setup = valid_setup();
    let r = Processor::process(
        &setup.program_id,
        &setup.accounts,
        &setup.farm_bytes,
        &fee_instruction(FARM_FEE + 1),
    );
    assert_eq!(r.unwrap_err(), FarmError::InvalidFarmFee);
}

#[test]
fn malformed_farm_slot_is_rejected() {
    let setup = valid_setup();
    let r = Processor::process(
        &setup.program_id,
        &setup.accounts,
        &setup.farm_bytes[..10],
        &fee_instruction(FARM_FEE),
    );
    assert_eq!(r.unwrap_err(), FarmError::MalformedInstruction);
}

#[test]
fn unknown_tags_are_rejected() {
    let setup = valid_setup();
    for tag in [0u8, 2, 3, 200, 255] {
        let r = Processor::process(
            &setup.program_id,
            &setup.accounts,
            &setup.farm_bytes,
            &[tag, 1, 2, 3],
        );
        assert_eq!(r.unwrap_err(), FarmError::NotAllowed);
    }
}

#[test]
fn exact_payment_yields_the_fee_transfer_and_commits() {
    let setup = valid_setup();
    let farm = unpack_farm(&setup.farm_bytes).unwrap();
    let action = Processor::process(
        &setup.program_id,
        &setup.accounts,
        &setup.farm_bytes,
        &fee_instruction(FARM_FEE),
    )
    .unwrap();
    assert_eq!(action.token_program, setup.accounts.token_program);
    assert_eq!(action.source, setup.accounts.user_token_account);
    assert_eq!(action.destination, setup.accounts.fee_owner);
    assert_eq!(action.authority, setup.accounts.user_transfer_authority);
    assert_eq!(action.seed_key, setup.accounts.farm_id);
    assert_eq!(action.seed_nonce, farm.nonce);
    assert_eq!(action.amount, FARM_FEE);

    // The runtime reports the transfer done: the commit sets the flag and
    // nothing else.
    let committed = Processor::finish_pay_farm_fee(&farm, true).unwrap();
    let paid = unpack_farm(&committed).unwrap();
    assert_eq!(paid.owner, farm.owner);
    assert_eq!(paid.nonce, farm.nonce);
    assert_eq!(paid.is_allowed, 1);

    // A replay against the committed record fails.
    let replay = Processor::process(
        &setup.program_id,
        &setup.accounts,
        &committed,
        &fee_instruction(FARM_FEE),
    );
    assert_eq!(replay.unwrap_err(), FarmError::AlreadyInUse);
}

#[test]
fn failed_transfer_commits_nothing() {
    let setup = valid_setup();
    let farm = unpack_farm(&setup.farm_bytes).unwrap();
    assert!(Processor::finish_pay_farm_fee(&farm, false).is_none());
    // The slot keeps its unpaid record.
    assert_eq!(unpack_farm(&setup.farm_bytes).unwrap().is_allowed, 0);
}

#[test]
fn token_transfer_describes_its_arguments() {
    let t = Processor::token_transfer(&key(1), &key(2), &key(3), &key(4), &key(5), 9, 1234);
    assert_eq!(t.seed_key, key(1));
    assert_eq!(t.token_program, key(2));
    assert_eq!(t.source, key(3));
    assert_eq!(t.destination, key(4));
    assert_eq!(t.authority, key(5));
    assert_eq!(t.seed_nonce, 9);
    assert_eq!(t.amount, 1234);
}
