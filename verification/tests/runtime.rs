use state_machine::balances;
use state_machine::proof_of_existence;
use state_machine::runtime::{ExtrinsicError, BLOCK_NUMBER_MISMATCH};
use state_machine::support::Dispatch;
use state_machine::system::SystemError;
use state_machine::types::{Block, Extrinsic, Header};
use state_machine::{Runtime, RuntimeCall};

fn transfer(from: &str, to: &str, amount: u128) -> Extrinsic {
    Extrinsic {
        caller: from.to_string(),
        call: RuntimeCall::Balances(balances::Call::Transfer {
            to: to.to_string(),
            amount,
        }),
    }
}

fn claim(from: &str, content: &str) -> Extrinsic {
    Extrinsic {
        caller: from.to_string(),
        call: RuntimeCall::ProofOfExistence(proof_of_existence::Call::CreateClaim {
            claim: content.to_string(),
        }),
    }
}

fn block(number: u32, extrinsics: Vec<Extrinsic>) -> Block {
    Block {
        header: Header {
            block_number: number,
        },
        extrinsics,
    }
}

fn run(runtime: &mut Runtime, b: Block) -> Result<Vec<ExtrinsicError>, &'static str> {
    assert_eq!(runtime.check_room_for(&b), Ok(()));
    runtime.execute_block(b)
}

fn balance(runtime: &Runtime, who: &str) -> u128 {
    runtime.balances.balance(&who.to_string())
}

fn nonce(runtime: &Runtime, who: &str) -> u32 {
    runtime.system.nonce(&who.to_string())
}

#[test]
fn new_runtime_is_empty() {
    let runtime = Runtime::new();
    assert_eq!(runtime.system.block_number(), 0);
    assert_eq!(nonce(&runtime, "alice"), 0);
    assert_eq!(balance(&runtime, "alice"), 0);
    assert_eq!(runtime.system.get_nonce(&"alice".to_string()), None);
    assert!(runtime
        .proof_of_existence
        .get_claim(&"I did that".to_string())
        .is_none());
}

#[test]
fn block_with_two_transfers() {
    let mut runtime = Runtime::new();
    runtime.balances.set_balance(&"alice".to_string(), 100);

    let reports = run(
        &mut runtime,
        block(
            1,
            vec![transfer("alice", "bob", 30), transfer("alice", "charlie", 30)],
        ),
    )
    .unwrap();

    assert!(reports.is_empty());
    assert_eq!(balance(&runtime, "alice"), 40);
    assert_eq!(balance(&runtime, "bob"), 30);
    assert_eq!(balance(&runtime, "charlie"), 30);
    assert_eq!(nonce(&runtime, "alice"), 2);
    assert_eq!(nonce(&runtime, "bob"), 0);
    assert_eq!(nonce(&runtime, "charlie"), 0);
    assert_eq!(runtime.system.block_number(), 1);
}

#[test]
fn refused_transfer_still_advances_nonce() {
    let mut runtime = Runtime::new();
    runtime.balances.set_balance(&"alice".to_string(), 50);

    let reports = run(&mut runtime, block(1, vec![transfer("alice", "bob", 60)])).unwrap();

    assert_eq!(reports.len(), 1);
    assert_eq!(reports[0].block_number, 1);
    assert_eq!(reports[0].extrinsic_number, 0);
    assert_eq!(reports[0].error, balances::INSUFFICIENT_BALANCE);
    assert_eq!(balance(&runtime, "alice"), 50);
    assert_eq!(balance(&runtime, "bob"), 0);
    assert_eq!(nonce(&runtime, "alice"), 1);
    assert_eq!(runtime.system.block_number(), 1);
}

#[test]
fn block_with_wrong_number_is_rejected() {
    let mut runtime = Runtime::new();
    runtime.balances.set_balance(&"alice".to_string(), 100);

    let result = run(&mut runtime, block(5, vec![transfer("alice", "bob", 30)]));

    assert_eq!(result.err(), Some(BLOCK_NUMBER_MISMATCH));
    assert_eq!(
        BLOCK_NUMBER_MISMATCH,
        "block number does not match what is expected"
    );
    assert_eq!(balance(&runtime, "alice"), 100);
    assert_eq!(balance(&runtime, "bob"), 0);
    assert_eq!(nonce(&runtime, "alice"), 0);
    assert_eq!(runtime.system.get_nonce(&"alice".to_string()), None);
}

#[test]
fn rejected_block_keeps_the_advanced_number() {
    let mut runtime = Runtime::new();

    assert!(run(&mut runtime, block(5, vec![])).is_err());
    assert_eq!(runtime.system.block_number(), 1);

    // The counter moved on, so the block that follows is number 2.
    assert!(run(&mut runtime, block(1, vec![])).is_err());
    assert_eq!(runtime.system.block_number(), 2);
    assert!(run(&mut runtime, block(3, vec![])).is_ok());
    assert_eq!(runtime.system.block_number(), 3);
}

#[test]
fn block_number_zero_is_never_accepted() {
    let mut runtime = Runtime::new();
    assert!(run(&mut runtime, block(0, vec![])).is_err());
}

#[test]
fn failures_do_not_stop_the_block() {
    let mut runtime = Runtime::new();
    runtime.balances.set_balance(&"alice".to_string(), 100);

    let reports = run(
        &mut runtime,
        block(
            1,
            vec![
                transfer("bob", "alice", 1),
                transfer("alice", "bob", 30),
                transfer("charlie", "alice", 5),
                transfer("bob", "charlie", 10),
            ],
        ),
    )
    .unwrap();

    assert_eq!(reports.len(), 2);
    assert_eq!(reports[0].extrinsic_number, 0);
    assert_eq!(reports[0].error, "insufficient balance");
    assert_eq!(reports[1].extrinsic_number, 2);
    assert_eq!(reports[1].block_number, 1);
    assert_eq!(balance(&runtime, "alice"), 70);
    assert_eq!(balance(&runtime, "bob"), 20);
    assert_eq!(balance(&runtime, "charlie"), 10);
    assert_eq!(nonce(&runtime, "alice"), 1);
    assert_eq!(nonce(&runtime, "bob"), 2);
    assert_eq!(nonce(&runtime, "charlie"), 1);
}

#[test]
fn nonces_count_over_several_blocks() {
    let mut runtime = Runtime::new();
    runtime.balances.set_balance(&"alice".to_string(), 10);

    run(
        &mut runtime,
        block(1, vec![transfer("alice", "bob", 4), transfer("alice", "bob", 40)]),
    )
    .unwrap();
    // Rejected: none of its extrinsics is originated.
    assert!(run(&mut runtime, block(7, vec![transfer("alice", "bob", 1)])).is_err());
    run(
        &mut runtime,
        block(3, vec![transfer("bob", "alice", 1), transfer("alice", "bob", 100)]),
    )
    .unwrap();

    assert_eq!(nonce(&runtime, "alice"), 3);
    assert_eq!(nonce(&runtime, "bob"), 1);
    assert_eq!(balance(&runtime, "alice"), 7);
    assert_eq!(balance(&runtime, "bob"), 3);
    assert_eq!(runtime.system.block_number(), 3);
}

#[test]
fn dispatch_routes_to_the_owning_pallet() {
    let mut runtime = Runtime::new();
    runtime.balances.set_balance(&"alice".to_string(), 10);

    let moved = runtime.dispatch(
        "alice".to_string(),
        RuntimeCall::Balances(balances::Call::Transfer {
            to: "bob".to_string(),
            amount: 3,
        }),
    );
    assert_eq!(moved, Ok(()));
    assert_eq!(balance(&runtime, "alice"), 7);
    assert_eq!(balance(&runtime, "bob"), 3);
    // Dispatch alone advances no nonce.
    assert_eq!(nonce(&runtime, "alice"), 0);

    let claimed = runtime.dispatch(
        "bob".to_string(),
        RuntimeCall::ProofOfExistence(proof_of_existence::Call::CreateClaim {
            claim: "I did that".to_string(),
        }),
    );
    assert_eq!(claimed, Ok(()));
    assert_eq!(
        runtime
            .proof_of_existence
            .get_claim(&"I did that".to_string()),
        Some(&"bob".to_string())
    );
    assert_eq!(balance(&runtime, "bob"), 3);
}

#[test]
fn content_is_claimed_once() {
    let mut runtime = Runtime::new();

    let reports = run(
        &mut runtime,
        block(
            1,
            vec![claim("charlie", "I did that"), claim("alice", "I did that")],
        ),
    )
    .unwrap();

    assert_eq!(reports.len(), 1);
    assert_eq!(reports[0].extrinsic_number, 1);
    assert_eq!(reports[0].error, proof_of_existence::ALREADY_CLAIMED);
    assert_eq!(reports[0].error, "this content is already claimed");
    assert_eq!(
        runtime
            .proof_of_existence
            .get_claim(&"I did that".to_string()),
        Some(&"charlie".to_string())
    );
    assert_eq!(nonce(&runtime, "alice"), 1);
    assert_eq!(nonce(&runtime, "charlie"), 1);
}

#[test]
fn counters_far_from_their_limit_have_room() {
    let mut runtime = Runtime::new();
    for _ in 0..3 {
        runtime.system.inc_block_number();
    }
    assert_eq!(runtime.check_room_for(&block(4, vec![])), Ok(()));
    assert_eq!(runtime.check_room_for(&block(9, vec![])), Ok(()));
    assert_eq!(
        runtime.check_room_for(&block(
            4,
            vec![transfer("alice", "bob", 1), transfer("alice", "bob", 1)]
        )),
        Ok(())
    );
    assert_ne!(
        runtime.check_room_for(&block(4, vec![])),
        Err(SystemError::BlockOverflow)
    );
    // The test changes nothing.
    assert_eq!(runtime.system.block_number(), 3);
    assert_eq!(nonce(&runtime, "alice"), 0);
}

#[test]
fn try_execute_block_executes_where_there_is_room() {
    let mut runtime = Runtime::new();
    runtime.balances.set_balance(&"alice".to_string(), 100);

    let outcome = runtime
        .try_execute_block(block(
            1,
            vec![transfer("alice", "bob", 30), transfer("bob", "alice", 40)],
        ))
        .unwrap();
    let reports = outcome.unwrap();

    assert_eq!(reports.len(), 1);
    assert_eq!(reports[0].extrinsic_number, 1);
    assert_eq!(reports[0].error, "insufficient balance");
    assert_eq!(balance(&runtime, "alice"), 70);
    assert_eq!(balance(&runtime, "bob"), 30);
    assert_eq!(nonce(&runtime, "alice"), 1);
    assert_eq!(nonce(&runtime, "bob"), 1);
    assert_eq!(runtime.system.block_number(), 1);
}

#[test]
fn try_execute_block_rejects_a_wrong_number() {
    let mut runtime = Runtime::new();
    runtime.balances.set_balance(&"alice".to_string(), 100);

    let outcome = runtime
        .try_execute_block(block(5, vec![transfer("alice", "bob", 30)]))
        .unwrap();

    assert_eq!(outcome.err(), Some(BLOCK_NUMBER_MISMATCH));
    assert_eq!(balance(&runtime, "alice"), 100);
    assert_eq!(balance(&runtime, "bob"), 0);
    assert_eq!(nonce(&runtime, "alice"), 0);
    assert_eq!(runtime.system.block_number(), 1);

    // The advance was kept, so the next accepted block declares 2.
    assert!(runtime.try_execute_block(block(1, vec![])).unwrap().is_err());
    assert_eq!(runtime.system.block_number(), 2);
    assert!(runtime.try_execute_block(block(3, vec![])).unwrap().is_ok());
    assert_eq!(runtime.system.block_number(), 3);
}

#[test]
fn block_with_a_transfer_to_oneself_creates_nothing() {
    let mut runtime = Runtime::new();
    runtime.balances.set_balance(&"alice".to_string(), 100);

    let reports = run(&mut runtime, block(1, vec![transfer("alice", "alice", 30)])).unwrap();

    assert!(reports.is_empty());
    assert_eq!(balance(&runtime, "alice"), 100);
    assert_eq!(nonce(&runtime, "alice"), 1);
    assert_eq!(runtime.system.block_number(), 1);
}

#[test]
fn empty_block_advances_only_the_number() {
    let mut runtime = Runtime::new();
    runtime.balances.set_balance(&"alice".to_string(), 100);

    let reports = run(&mut runtime, block(1, vec![])).unwrap();

    assert!(reports.is_empty());
    assert_eq!(runtime.system.block_number(), 1);
    assert_eq!(balance(&runtime, "alice"), 100);
    assert_eq!(nonce(&runtime, "alice"), 0);
}

#[test]
fn transfers_then_a_claim_in_the_next_block() {
    let mut runtime = Runtime::new();
    runtime.balances.set_balance(&"alice".to_string(), 100);

    let first = run(
        &mut runtime,
        block(
            1,
            vec![transfer("alice", "bob", 30), transfer("alice", "charlie", 30)],
        ),
    )
    .unwrap();
    let second = run(&mut runtime, block(2, vec![claim("charlie", "I did that")])).unwrap();

    assert!(first.is_empty());
    assert!(second.is_empty());
    assert_eq!(runtime.system.block_number(), 2);
    assert_eq!(balance(&runtime, "alice"), 40);
    assert_eq!(balance(&runtime, "bob"), 30);
    assert_eq!(balance(&runtime, "charlie"), 30);
    assert_eq!(nonce(&runtime, "alice"), 2);
    assert_eq!(nonce(&runtime, "charlie"), 1);
    assert_eq!(
        runtime
            .proof_of_existence
            .get_claim(&"I did that".to_string()),
        Some(&"charlie".to_string())
    );
}

#[test]
fn total_of_balances_is_kept_by_a_block() {
    let mut runtime = Runtime::new();
    runtime.balances.set_balance(&"alice".to_string(), 100);
    runtime.balances.set_balance(&"bob".to_string(), 7);

    run(
        &mut runtime,
        block(
            1,
            vec![
                transfer("alice", "bob", 30),
                transfer("bob", "charlie", 37),
                transfer("charlie", "alice", 40),
                transfer("charlie", "charlie", 3),
                transfer("charlie", "dave", 1),
            ],
        ),
    )
    .unwrap();

    let total: u128 = ["alice", "bob", "charlie", "dave"]
        .iter()
        .map(|who| balance(&runtime, who))
        .sum();
    assert_eq!(total, 107);
    assert_eq!(balance(&runtime, "alice"), 70);
    assert_eq!(balance(&runtime, "bob"), 0);
    assert_eq!(balance(&runtime, "charlie"), 36);
    assert_eq!(balance(&runtime, "dave"), 1);
}
