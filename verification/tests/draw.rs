//! The winner selector and the settlement plan on concrete inputs.
use raffle_dapp::select_winner;
use raffle_dapp::settle;
use raffle_dapp::DrawOutcome;
use raffle_dapp::ONE_NEAR;

fn seed() -> Vec<u8> {
    vec![
        150, 255, 1, 8, 45, 32, 101, 50, 123, 221, 58, 3, 127, 202, 56, 16, 32, 9, 111, 255, 49,
        45, 77, 17, 25, 26, 37, 79, 210, 159, 31, 56,
    ]
}

#[test]
fn check_randomness() {
    // among ten entries, the first byte below 10 is the third one, value 1
    let r = select_winner(&seed(), 10);
    assert_eq!(r, DrawOutcome::Resolved(1));
}

#[test]
fn draw_is_deterministic() {
    let a = select_winner(&seed(), 4);
    let b = select_winner(&seed(), 4);
    assert_eq!(a, b);
    assert_eq!(a, DrawOutcome::Resolved(1));
}

#[test]
fn draw_with_no_low_byte_is_unresolved() {
    // every byte is at or above the participant count: never resolves
    let high = vec![200u8, 255u8, 201u8, 4u8, 7u8];
    assert_eq!(select_winner(&high, 4), DrawOutcome::Unresolved);
    assert_eq!(select_winner(&vec![255u8; 32], 1), DrawOutcome::Unresolved);
}

#[test]
fn draw_takes_first_acceptable_byte() {
    let bytes = vec![9u8, 2u8, 0u8];
    assert_eq!(select_winner(&bytes, 10), DrawOutcome::Resolved(9));
    assert_eq!(select_winner(&bytes, 4), DrawOutcome::Resolved(2));
    assert_eq!(select_winner(&bytes, 1), DrawOutcome::Resolved(0));
}

#[test]
fn draw_accepts_every_byte_at_count_256() {
    assert_eq!(select_winner(&vec![255u8], 256), DrawOutcome::Resolved(255));
}

#[test]
fn settlement_pays_winner_then_refunds_in_order() {
    let parts = vec![
        ("bob.testnet".to_string(), 2 * ONE_NEAR),
        ("jacob.testnet".to_string(), 10 * ONE_NEAR),
        ("mike.testnet".to_string(), 15 * ONE_NEAR),
        ("jack.testnet".to_string(), 27 * ONE_NEAR),
    ];
    let transfers = settle(15 * ONE_NEAR, &parts, 1);
    assert_eq!(
        transfers,
        vec![
            ("jacob.testnet".to_string(), 25 * ONE_NEAR),
            ("bob.testnet".to_string(), 2 * ONE_NEAR),
            ("mike.testnet".to_string(), 15 * ONE_NEAR),
            ("jack.testnet".to_string(), 27 * ONE_NEAR),
        ]
    );
    let total: u128 = transfers.iter().map(|t| t.1).sum();
    let stakes: u128 = parts.iter().map(|p| p.1).sum();
    assert_eq!(total, 15 * ONE_NEAR + stakes);
}

#[test]
fn settlement_of_a_single_participant() {
    let parts = vec![("bob.testnet".to_string(), 2 * ONE_NEAR)];
    let transfers = settle(1 * ONE_NEAR, &parts, 0);
    assert_eq!(transfers, vec![("bob.testnet".to_string(), 3 * ONE_NEAR)]);
}
