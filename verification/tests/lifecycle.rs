//! The raffle lifecycle end to end: registration, participation and
//! finalization on concrete accounts, amounts and windows.
use raffle_dapp::FinalizeAction;
use raffle_dapp::RaffleDapp;
use raffle_dapp::RaffleError;
use raffle_dapp::ONE_NEAR;
use raffle_dapp::TO_FROM_NANOSECONDS;

fn contract_account() -> String {
    "raffle-dapp.testnet".to_string()
}

fn alice() -> String {
    "alice.testnet".to_string()
}

fn bob() -> String {
    "bob.testnet".to_string()
}

fn jacob() -> String {
    "jacob.testnet".to_string()
}

fn mike() -> String {
    "mike.testnet".to_string()
}

fn jack() -> String {
    "jack.testnet".to_string()
}

fn new_dapp() -> RaffleDapp {
    RaffleDapp::new(contract_account(), contract_account()).unwrap()
}

fn seed() -> Vec<u8> {
    vec![
        150, 255, 1, 8, 45, 32, 101, 50, 123, 221, 58, 3, 127, 202, 56, 16, 32, 9, 111, 255, 49,
        45, 77, 17, 25, 26, 37, 79, 210, 159, 31, 56,
    ]
}

#[test]
fn check_initialization_by_contract() {
    assert!(RaffleDapp::new(contract_account(), contract_account()).is_ok());
    assert_eq!(
        RaffleDapp::new(alice(), contract_account()).err(),
        Some(RaffleError::UnauthorizedInit)
    );
}

#[test]
fn check_register_raffles() {
    let mut dapp = new_dapp();
    let r = dapp.register_raffle(alice(), 3 * ONE_NEAR, 1644353705121, 1644353705130);
    assert_eq!(r, Ok(()));
}

#[test]
fn register_stores_prize_and_window() {
    let mut dapp = new_dapp();
    dapp.register_raffle(alice(), 3 * ONE_NEAR, 1644353705121, 1644353705130)
        .unwrap();
    let rec = dapp.get_raffle(&alice()).unwrap();
    assert_eq!(rec.prize, 1 * ONE_NEAR);
    assert_eq!(rec.start, 1644353705121 * TO_FROM_NANOSECONDS);
    assert_eq!(rec.end, 1644353705130 * TO_FROM_NANOSECONDS);
    assert!(rec.end > rec.start);
    assert_eq!(rec.participants.len(), 0);
    assert_eq!(rec.attempts, 0);
}

#[test]
fn register_twice_rejected() {
    let mut dapp = new_dapp();
    dapp.register_raffle(alice(), 3 * ONE_NEAR, 1644353705121, 1644353705130)
        .unwrap();
    let again = dapp.register_raffle(alice(), 3 * ONE_NEAR, 1644353705128, 1644353705140);
    assert_eq!(again, Err(RaffleError::AlreadyRegistered));
}

#[test]
fn register_insufficient_deposit_rejected() {
    let mut dapp = new_dapp();
    let r = dapp.register_raffle(alice(), 1 * ONE_NEAR, 1644353705121, 1644353705130);
    assert_eq!(r, Err(RaffleError::InsufficientDeposit));
    let exactly_fee = dapp.register_raffle(alice(), 2 * ONE_NEAR, 1644353705121, 1644353705130);
    assert_eq!(exactly_fee, Err(RaffleError::InsufficientDeposit));
}

#[test]
fn register_invalid_window_rejected() {
    let mut dapp = new_dapp();
    let r = dapp.register_raffle(alice(), 3 * ONE_NEAR, 1644353705130, 1644353705130);
    assert_eq!(r, Err(RaffleError::InvalidWindow));
}

#[test]
fn check_participate() {
    let mut dapp = new_dapp();
    dapp.register_raffle(alice(), 17 * ONE_NEAR, 1644353705121, 1644353705130)
        .unwrap();
    let now = 1644353705125 * TO_FROM_NANOSECONDS;
    let r = dapp.participate(bob(), 2 * ONE_NEAR, now, alice());
    assert_eq!(r, Ok(()));
    let rec = dapp.get_raffle(&alice()).unwrap();
    assert_eq!(rec.participants.len(), 1);
    assert_eq!(rec.participants[0], (bob(), 2 * ONE_NEAR));
}

#[test]
fn participate_count_grows_by_one_and_no_duplicates() {
    let mut dapp = new_dapp();
    dapp.register_raffle(alice(), 17 * ONE_NEAR, 1644353705121, 1644353705130)
        .unwrap();
    let now = 1644353705125 * TO_FROM_NANOSECONDS;
    assert_eq!(dapp.get_raffle(&alice()).unwrap().participants.len(), 0);
    dapp.participate(bob(), 2 * ONE_NEAR, now, alice()).unwrap();
    assert_eq!(dapp.get_raffle(&alice()).unwrap().participants.len(), 1);
    dapp.participate(jacob(), 2 * ONE_NEAR, now, alice()).unwrap();
    assert_eq!(dapp.get_raffle(&alice()).unwrap().participants.len(), 2);
    let again = dapp.participate(bob(), 5 * ONE_NEAR, now, alice());
    assert_eq!(again, Err(RaffleError::AlreadyParticipated));
    assert_eq!(dapp.get_raffle(&alice()).unwrap().participants.len(), 2);
}

#[test]
fn participate_rejections() {
    let mut dapp = new_dapp();
    dapp.register_raffle(alice(), 17 * ONE_NEAR, 1644353705121, 1644353705130)
        .unwrap();
    let now = 1644353705125 * TO_FROM_NANOSECONDS;
    assert_eq!(
        dapp.participate(bob(), ONE_NEAR / 2, now, alice()),
        Err(RaffleError::InsufficientStake)
    );
    assert_eq!(
        dapp.participate(contract_account(), 2 * ONE_NEAR, now, alice()),
        Err(RaffleError::ContractParticipation)
    );
    assert_eq!(
        dapp.participate(bob(), 2 * ONE_NEAR, now, jacob()),
        Err(RaffleError::UnknownRaffle)
    );
    // before the window opens, and after it closes (both boundaries exclusive)
    assert_eq!(
        dapp.participate(bob(), 2 * ONE_NEAR, 1644353705121 * TO_FROM_NANOSECONDS, alice()),
        Err(RaffleError::OutsideWindow)
    );
    assert_eq!(
        dapp.participate(bob(), 2 * ONE_NEAR, 1644353705130 * TO_FROM_NANOSECONDS, alice()),
        Err(RaffleError::OutsideWindow)
    );
}

#[test]
fn self_participation_always_rejected() {
    let mut dapp = new_dapp();
    dapp.register_raffle(alice(), 17 * ONE_NEAR, 1644353705121, 1644353705130)
        .unwrap();
    // inside the window, generous stake: still rejected
    let inside = 1644353705125 * TO_FROM_NANOSECONDS;
    assert_eq!(
        dapp.participate(alice(), 5 * ONE_NEAR, inside, alice()),
        Err(RaffleError::SelfParticipation)
    );
    // outside the window and with a too-small stake: still rejected
    assert!(dapp.participate(alice(), 5 * ONE_NEAR, 0, alice()).is_err());
    assert!(dapp.participate(alice(), 1, inside, alice()).is_err());
}

#[test]
fn participant_capacity_is_256() {
    let mut dapp = new_dapp();
    dapp.register_raffle(alice(), 17 * ONE_NEAR, 1644353705121, 1644353705130)
        .unwrap();
    let now = 1644353705125 * TO_FROM_NANOSECONDS;
    for i in 0..256 {
        let who = format!("guest{}.testnet", i);
        assert_eq!(dapp.participate(who, ONE_NEAR, now, alice()), Ok(()));
    }
    assert_eq!(dapp.get_raffle(&alice()).unwrap().participants.len(), 256);
    let overflowing = dapp.participate("guest256.testnet".to_string(), ONE_NEAR, now, alice());
    assert_eq!(overflowing, Err(RaffleError::RaffleFull));
    assert_eq!(dapp.get_raffle(&alice()).unwrap().participants.len(), 256);
}

#[test]
fn finalize_before_end_rejected() {
    let mut dapp = new_dapp();
    dapp.register_raffle(alice(), 3 * ONE_NEAR, 1644353705121, 1644353705130)
        .unwrap();
    let end = 1644353705130 * TO_FROM_NANOSECONDS;
    // strictly inside the window, and exactly at the end: both rejected
    let r = dapp.finalize_raffle(alice(), end - 1, &seed(), alice());
    assert_eq!(r.err(), Some(RaffleError::RaffleNotOver));
    let at_end = dapp.finalize_raffle(alice(), end, &seed(), alice());
    assert_eq!(at_end.err(), Some(RaffleError::RaffleNotOver));
    assert!(dapp.get_raffle(&alice()).is_some());
}

#[test]
fn finalize_authorization() {
    let mut dapp = new_dapp();
    dapp.register_raffle(alice(), 3 * ONE_NEAR, 1644353705121, 1644353705130)
        .unwrap();
    let after = 1644353705600 * TO_FROM_NANOSECONDS;
    let r = dapp.finalize_raffle(bob(), after, &seed(), alice());
    assert_eq!(r.err(), Some(RaffleError::UnauthorizedFinalize));
    let unknown = dapp.finalize_raffle(bob(), after, &seed(), bob());
    assert_eq!(unknown.err(), Some(RaffleError::UnknownRaffle));
    // the contract's own identity may finalize on the owner's behalf
    let by_contract = dapp.finalize_raffle(contract_account(), after, &seed(), alice());
    assert!(by_contract.is_ok());
}

#[test]
fn finalize_no_participants_refunds_owner() {
    let mut dapp = new_dapp();
    dapp.register_raffle(alice(), 3 * ONE_NEAR, 1644353705121, 1644353705130)
        .unwrap();
    let after = 1644353705600 * TO_FROM_NANOSECONDS;
    let r = dapp.finalize_raffle(alice(), after, &seed(), alice()).unwrap();
    match r {
        FinalizeAction::RefundOwner { owner, amount } => {
            assert_eq!(owner, alice());
            assert_eq!(amount, 1 * ONE_NEAR);
        }
        other => panic!("expected a refund to the owner, got {:?}", other),
    }
    assert!(dapp.get_raffle(&alice()).is_none());
}

#[test]
fn check_finalize_raffle() {
    let mut dapp = new_dapp();
    dapp.register_raffle(alice(), 17 * ONE_NEAR, 1644353705121, 1644353705521)
        .unwrap();
    dapp.participate(bob(), 2 * ONE_NEAR, 1644353705125 * TO_FROM_NANOSECONDS, alice())
        .unwrap();
    dapp.participate(jacob(), 10 * ONE_NEAR, 1644353705135 * TO_FROM_NANOSECONDS, alice())
        .unwrap();
    dapp.participate(mike(), 15 * ONE_NEAR, 1644353705145 * TO_FROM_NANOSECONDS, alice())
        .unwrap();
    dapp.participate(jack(), 27 * ONE_NEAR, 1644353705150 * TO_FROM_NANOSECONDS, alice())
        .unwrap();
    let after = 1644353705600 * TO_FROM_NANOSECONDS;
    let r = dapp.finalize_raffle(alice(), after, &seed(), alice()).unwrap();
    match r {
        FinalizeAction::Settle { transfers } => {
            // the first byte below the count 4 is 1: the second-joined
            // participant wins the 15-unit prize plus their own 10-unit stake
            assert_eq!(
                transfers,
                vec![
                    (jacob(), 25 * ONE_NEAR),
                    (bob(), 2 * ONE_NEAR),
                    (mike(), 15 * ONE_NEAR),
                    (jack(), 27 * ONE_NEAR),
                ]
            );
            // settlement is conservative: prize plus every stake, exactly
            let total: u128 = transfers.iter().map(|t| t.1).sum();
            assert_eq!(total, (15 + 2 + 10 + 15 + 27) * ONE_NEAR);
        }
        other => panic!("expected a settlement, got {:?}", other),
    }
    assert!(dapp.get_raffle(&alice()).is_none());
}

#[test]
fn finalize_unresolved_schedules_retry() {
    let mut dapp = new_dapp();
    dapp.register_raffle(alice(), 17 * ONE_NEAR, 1644353705121, 1644353705130)
        .unwrap();
    dapp.participate(bob(), 2 * ONE_NEAR, 1644353705125 * TO_FROM_NANOSECONDS, alice())
        .unwrap();
    let after = 1644353705600 * TO_FROM_NANOSECONDS;
    // with one participant only a zero byte resolves; this seed has none
    let high = vec![255u8; 32];
    let r = dapp.finalize_raffle(alice(), after, &high, alice()).unwrap();
    match r {
        FinalizeAction::Retry { raffle_id, attempts } => {
            assert_eq!(raffle_id, alice());
            assert_eq!(attempts, 1);
        }
        other => panic!("expected a retry, got {:?}", other),
    }
    let rec = dapp.get_raffle(&alice()).unwrap();
    assert_eq!(rec.attempts, 1);
    assert_eq!(rec.participants.len(), 1);
    // a later step with a usable byte settles the raffle
    let fresh = vec![255u8, 0u8];
    let again = dapp.finalize_raffle(alice(), after, &fresh, alice()).unwrap();
    match again {
        FinalizeAction::Settle { transfers } => {
            assert_eq!(transfers, vec![(bob(), 17 * ONE_NEAR)]);
        }
        other => panic!("expected a settlement, got {:?}", other),
    }
    assert!(dapp.get_raffle(&alice()).is_none());
}
