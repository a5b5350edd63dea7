use sol_exec::flow::{
    submit_config, Action, Commitment, Encoding, Failure, PollPolicy, Reply, Stage, TransferFlow,
};
use sol_exec::transfer::{TransferOrder, TransferRequest};
use sol_exec::Error;

const ORDER: TransferOrder = TransferOrder { destination: [9u8; 32], lamports: 42 };
const BLOCKHASH: [u8; 32] = [3u8; 32];

fn policy(max_polls: u32) -> PollPolicy {
    PollPolicy { max_polls, first_wait_ms: 100, max_wait_ms: 1_000 }
}

fn poll(signature: &str, wait_ms: u64) -> Action {
    Action::Poll { signature: signature.to_string(), commitment: Commitment::Finalized, wait_ms }
}

fn submitted(max_polls: u32) -> TransferFlow {
    let (flow, _) = TransferFlow::begin(ORDER, policy(max_polls));
    let (flow, _) = flow.step(Reply::Blockhash(BLOCKHASH));
    flow
}

#[test]
fn transfer_runs_from_blockhash_to_finality() {
    let (flow, action) = TransferFlow::begin(ORDER, policy(5));
    assert_eq!(action, Action::FetchBlockhash);
    assert_eq!(flow.stage, Stage::AwaitingBlockhash);
    assert!(!flow.is_settled());

    let (flow, action) = flow.step(Reply::Blockhash(BLOCKHASH));
    assert_eq!(
        action,
        Action::Submit { order: ORDER, blockhash: BLOCKHASH, config: submit_config() }
    );
    assert_eq!(flow.stage, Stage::AwaitingSignature);

    let (flow, action) = flow.step(Reply::Signature("sig".to_string()));
    assert_eq!(action, poll("sig", 100));
    assert_eq!(flow.stage, Stage::AwaitingFinality { signature: "sig".to_string(), polls: 1 });

    let (flow, action) = flow.step(Reply::Confirmation(false));
    assert_eq!(action, poll("sig", 200));
    assert_eq!(flow.stage, Stage::AwaitingFinality { signature: "sig".to_string(), polls: 2 });

    let (flow, action) = flow.step(Reply::Confirmation(true));
    assert_eq!(action, Action::Finish);
    assert!(flow.is_settled());
    assert_eq!(flow.stage, Stage::Settled(Ok("sig".to_string())));
    assert_eq!(flow.order, ORDER);
    assert_eq!(flow.policy, policy(5));
    assert_eq!(flow.into_outcome(), Some(Ok("sig".to_string())));
}

#[test]
fn outcome_is_open_until_the_transfer_settles() {
    let (flow, _) = TransferFlow::begin(ORDER, policy(5));
    assert_eq!(flow.into_outcome(), None);
    assert_eq!(submitted(5).into_outcome(), None);
    let (flow, _) = submitted(5).step(Reply::Signature("sig".to_string()));
    assert_eq!(flow.into_outcome(), None);
}

#[test]
fn no_blockhash_means_no_submission() {
    let (flow, _) = TransferFlow::begin(ORDER, policy(5));
    let (mut flow, action) = flow.step(Reply::Failed);
    assert_eq!(action, Action::Finish);
    assert_eq!(flow.stage, Stage::Settled(Err(Failure::NoBlockhash)));
    let later = [
        Reply::Blockhash(BLOCKHASH),
        Reply::Signature("sig".to_string()),
        Reply::Confirmation(true),
        Reply::Failed,
    ];
    for reply in later {
        let (next, action) = flow.step(reply);
        assert_eq!(action, Action::Finish);
        assert_eq!(next.stage, Stage::Settled(Err(Failure::NoBlockhash)));
        flow = next;
    }
    assert_eq!(flow.into_outcome(), Some(Err(Error::FetchBlockhashError)));
}

#[test]
fn refused_submission_is_a_transaction_error() {
    let (flow, action) = submitted(5).step(Reply::Failed);
    assert_eq!(action, Action::Finish);
    assert_eq!(flow.stage, Stage::Settled(Err(Failure::NotSubmitted)));
    assert_eq!(flow.into_outcome(), Some(Err(Error::TransactionError)));
}

#[test]
fn failed_confirmation_is_a_transaction_error() {
    let (flow, _) = submitted(5).step(Reply::Signature("sig".to_string()));
    let (flow, _) = flow.step(Reply::Confirmation(false));
    let (flow, action) = flow.step(Reply::Failed);
    assert_eq!(action, Action::Finish);
    assert_eq!(flow.stage, Stage::Settled(Err(Failure::NoConfirmation)));
    assert_eq!(flow.into_outcome(), Some(Err(Error::TransactionError)));
}

#[test]
fn unconfirmed_transfer_times_out() {
    let (mut flow, first) = submitted(3).step(Reply::Signature("sig".to_string()));
    assert_eq!(first, poll("sig", 100));
    let mut polls = 1;
    let mut replies = 0;
    while !flow.is_settled() {
        let (next, action) = flow.step(Reply::Confirmation(false));
        replies += 1;
        if let Action::Poll { .. } = action {
            polls += 1;
        }
        flow = next;
        assert!(replies <= 3);
    }
    assert_eq!(polls, 3);
    assert_eq!(replies, 3);
    assert_eq!(flow.stage, Stage::Settled(Err(Failure::TimedOut)));
    assert_eq!(flow.into_outcome(), Some(Err(Error::TransactionError)));
}

#[test]
fn no_polls_allowed_times_out_at_once() {
    let (flow, action) = submitted(0).step(Reply::Signature("sig".to_string()));
    assert_eq!(action, Action::Finish);
    assert_eq!(flow.stage, Stage::Settled(Err(Failure::TimedOut)));
}

#[test]
fn last_allowed_poll_may_still_confirm() {
    let (flow, _) = submitted(2).step(Reply::Signature("sig".to_string()));
    let (flow, action) = flow.step(Reply::Confirmation(false));
    assert_eq!(action, poll("sig", 200));
    let (flow, action) = flow.step(Reply::Confirmation(true));
    assert_eq!(action, Action::Finish);
    assert_eq!(flow.into_outcome(), Some(Ok("sig".to_string())));
}

#[test]
fn unexpected_reply_fails_the_stage() {
    let (flow, _) = TransferFlow::begin(ORDER, policy(5));
    let (flow, _) = flow.step(Reply::Signature("sig".to_string()));
    assert_eq!(flow.stage, Stage::Settled(Err(Failure::NoBlockhash)));

    let (flow, _) = submitted(5).step(Reply::Confirmation(true));
    assert_eq!(flow.stage, Stage::Settled(Err(Failure::NotSubmitted)));

    let (flow, _) = submitted(5).step(Reply::Signature("sig".to_string()));
    let (flow, _) = flow.step(Reply::Blockhash(BLOCKHASH));
    assert_eq!(flow.stage, Stage::Settled(Err(Failure::NoConfirmation)));
}

#[test]
fn waits_double_up_to_the_longest() {
    let policy = policy(10);
    let waits: Vec<u64> = (0..7).map(|poll| policy.wait_ms(poll)).collect();
    assert_eq!(waits, vec![100, 200, 400, 800, 1_000, 1_000, 1_000]);
    assert_eq!(policy.wait_ms(u32::MAX), 1_000);
}

#[test]
fn waits_at_the_edges() {
    let hasty = PollPolicy { max_polls: 3, first_wait_ms: 0, max_wait_ms: 1_000 };
    assert_eq!(hasty.wait_ms(0), 0);
    assert_eq!(hasty.wait_ms(u32::MAX), 0);

    let capped = PollPolicy { max_polls: 3, first_wait_ms: 5_000, max_wait_ms: 1_000 };
    assert_eq!(capped.wait_ms(0), 1_000);
    assert_eq!(capped.wait_ms(9), 1_000);

    let still = PollPolicy { max_polls: 3, first_wait_ms: 7, max_wait_ms: 0 };
    assert_eq!(still.wait_ms(0), 0);
    assert_eq!(still.wait_ms(4), 0);

    let wide = PollPolicy { max_polls: 3, first_wait_ms: 1 << 62, max_wait_ms: u64::MAX };
    assert_eq!(wide.wait_ms(0), 1 << 62);
    assert_eq!(wide.wait_ms(1), 1 << 63);
    assert_eq!(wide.wait_ms(2), u64::MAX);
    assert_eq!(wide.wait_ms(3), u64::MAX);
}

#[test]
fn submission_settings_are_fixed() {
    let config = submit_config();
    assert!(config.skip_preflight);
    assert_eq!(config.preflight_commitment, Some(Commitment::Confirmed));
    assert_eq!(config.encoding, Some(Encoding::Base64));
    assert_eq!(config.max_retries, Some(3));
    assert_eq!(config.min_context_slot, None);
}

#[test]
fn failures_are_reported_as_errors() {
    assert_eq!(Failure::NoBlockhash.error(), Error::FetchBlockhashError);
    assert_eq!(Failure::NotSubmitted.error(), Error::TransactionError);
    assert_eq!(Failure::NoConfirmation.error(), Error::TransactionError);
    assert_eq!(Failure::TimedOut.error(), Error::TransactionError);
}

#[test]
fn default_policy_waits_some_minutes() {
    let policy = PollPolicy::default();
    assert_eq!(policy, PollPolicy { max_polls: 120, first_wait_ms: 500, max_wait_ms: 2_000 });
    let total: u64 = (0..policy.max_polls).map(|poll| policy.wait_ms(poll)).sum();
    assert_eq!(total, 500 + 1_000 + 118 * 2_000);
}

#[test]
fn open_starts_only_what_passes_the_checks() {
    let asked = |destination: &str, amount_text: &str, known_balance: Option<u64>| TransferRequest {
        destination: destination.to_string(),
        amount_text: amount_text.to_string(),
        known_balance,
    };
    let system_program = "11111111111111111111111111111111";

    let (flow, action) =
        TransferFlow::open(&asked(system_program, "0.0000001", Some(100)), policy(4)).unwrap();
    assert_eq!(action, Action::FetchBlockhash);
    assert_eq!(flow.stage, Stage::AwaitingBlockhash);
    assert_eq!(flow.order, TransferOrder { destination: [0u8; 32], lamports: 100 });
    assert_eq!(flow.policy, policy(4));

    assert_eq!(
        TransferFlow::open(&asked("short", "1", Some(u64::MAX)), policy(4)),
        Err(Error::InvalidPubKeyLen)
    );
    assert_eq!(
        TransferFlow::open(&asked(system_program, "0", Some(u64::MAX)), policy(4)),
        Err(Error::InvalidAmount)
    );
    assert_eq!(
        TransferFlow::open(&asked(system_program, "0.000000101", Some(100)), policy(4)),
        Err(Error::InsufficientBalance)
    );
}
