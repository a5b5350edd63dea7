//! Steering an accepted transfer from blockhash to finality.
//!
//! The crate talks to no node. A `TransferFlow` says what to ask the node
//! next, is told what the node replied, and settles on an outcome after a
//! bounded number of questions. Whoever holds the connection and the signing
//! key carries the actions out.

use vstd::arithmetic::power2::{lemma2_to64, lemma_pow2_pos, lemma_pow2_unfold, pow2};
use vstd::prelude::*;
use crate::address::decoded_address;
use crate::errors::Error;
use crate::transfer::{transfer_decision, validate_transfer, TransferOrder, TransferRequest};

verus! {

/// How settled the node must consider a transaction to be.
#[derive(Debug, Clone, Copy, PartialEq, Eq, Structural)]
pub enum Commitment {
    Processed,
    Confirmed,
    Finalized,
}

/// How a transaction is encoded on its way to the node.
#[derive(Debug, Clone, Copy, PartialEq, Eq, Structural)]
pub enum Encoding {
    Binary,
    Base64,
    Base58,
    Json,
    JsonParsed,
}

/// The settings a transaction is submitted with.
#[derive(Debug, Clone, Copy, PartialEq, Eq)]
pub struct SubmitConfig {
    /// Whether the node skips its checks before accepting.
    pub skip_preflight: bool,
    /// The commitment the node's checks go by.
    pub preflight_commitment: Option<Commitment>,
    /// The encoding of the transaction.
    pub encoding: Option<Encoding>,
    /// How often the node retries sending to the leader.
    pub max_retries: Option<usize>,
    /// The earliest slot the request may be served at.
    pub min_context_slot: Option<u64>,
}

/// The settings every transfer is submitted with: no preflight checks,
/// `Confirmed` as their commitment, base 64, three retries.
pub open spec fn fixed_submit_config() -> SubmitConfig {
    SubmitConfig {
        skip_preflight: true,
        preflight_commitment: Some(Commitment::Confirmed),
        encoding: Some(Encoding::Base64),
        max_retries: Some(3usize),
        min_context_slot: None,
    }
}

/// The settings every transfer is submitted with.
pub fn submit_config() -> (config: SubmitConfig)
    ensures
        config == fixed_submit_config(),
{
    SubmitConfig {
        skip_preflight: true,
        preflight_commitment: Some(Commitment::Confirmed),
        encoding: Some(Encoding::Base64),
        max_retries: Some(3),
        min_context_slot: None,
    }
}

/// How long to keep asking whether a transaction is final.
#[derive(Debug, Clone, Copy, PartialEq, Eq)]
pub struct PollPolicy {
    /// The most questions to ask before giving up.
    pub max_polls: u32,
    /// The wait before the first question, in milliseconds.
    pub first_wait_ms: u64,
    /// The longest wait before any question, in milliseconds.
    pub max_wait_ms: u64,
}

/// The number of questions asked by default before giving up.
pub const DEFAULT_MAX_POLLS: u32 = 120;

/// The default wait before the first question, in milliseconds.
pub const DEFAULT_FIRST_WAIT_MS: u64 = 500;

/// The default longest wait before any question, in milliseconds.
pub const DEFAULT_MAX_WAIT_MS: u64 = 2_000;

impl Default for PollPolicy {
    /// Half a second at first, two seconds at most, and up to a hundred and
    /// twenty questions: some four minutes in all.
    fn default() -> (policy: PollPolicy)
        ensures
            policy.max_polls == DEFAULT_MAX_POLLS,
            policy.first_wait_ms == DEFAULT_FIRST_WAIT_MS,
            policy.max_wait_ms == DEFAULT_MAX_WAIT_MS,
    {
        PollPolicy {
            max_polls: DEFAULT_MAX_POLLS,
            first_wait_ms: DEFAULT_FIRST_WAIT_MS,
            max_wait_ms: DEFAULT_MAX_WAIT_MS,
        }
    }
}

impl PollPolicy {
    /// The wait before question number `poll`, counting from zero: the first
    /// wait, doubled with each question, and never more than the longest.
    pub open spec fn wait_before(self, poll: nat) -> nat
        decreases poll,
    {
        let uncapped = if poll == 0 {
            self.first_wait_ms as nat
        } else {
            2 * self.wait_before((poll - 1) as nat)
        };
        if uncapped < self.max_wait_ms {
            uncapped
        } else {
            self.max_wait_ms as nat
        }
    }

    /// Waits never shrink and never pass the longest wait.
    pub proof fn lemma_wait_grows(self, poll: nat)
        ensures
            self.wait_before(poll) <= self.wait_before(poll + 1) <= self.max_wait_ms,
    {
    }

    /// Waits double until they are capped: the wait before question number
    /// `poll` is the first wait times two to the `poll`, or the longest wait
    /// where that is less.
    pub proof fn lemma_wait_doubles(self, poll: nat)
        ensures
            self.wait_before(poll) == if self.first_wait_ms * pow2(poll) < self.max_wait_ms {
                self.first_wait_ms * pow2(poll)
            } else {
                self.max_wait_ms as int
            },
        decreases poll,
    {
        if poll == 0 {
            lemma2_to64();
            assert(self.first_wait_ms * 1 == self.first_wait_ms);
        } else {
            let before = (poll - 1) as nat;
            self.lemma_wait_doubles(before);
            lemma_pow2_unfold(poll);
            lemma_pow2_pos(before);
            assert(self.first_wait_ms * (2 * pow2(before)) == 2 * (self.first_wait_ms * pow2(
                before,
            ))) by (nonlinear_arith);
        }
    }

    /// A wait that has reached zero or the longest wait stays there.
    pub proof fn lemma_wait_settles(self, reached: nat, later: nat)
        requires
            reached <= later,
            self.wait_before(reached) == 0 || self.wait_before(reached) == self.max_wait_ms,
        ensures
            self.wait_before(later) == self.wait_before(reached),
        decreases later,
    {
        if reached < later {
            self.lemma_wait_settles(reached, (later - 1) as nat);
        }
    }

    /// The wait before question number `poll`, in milliseconds.
    pub fn wait_ms(&self, poll: u32) -> (wait: u64)
        ensures
            wait == self.wait_before(poll as nat),
    {
        let mut wait: u64 = if self.first_wait_ms < self.max_wait_ms {
            self.first_wait_ms
        } else {
            self.max_wait_ms
        };
        let mut at: u32 = 0;
        while at < poll && 0 < wait && wait < self.max_wait_ms
            invariant
                at <= poll,
                wait == self.wait_before(at as nat),
            decreases poll - at,
        {
            wait = match wait.checked_mul(2) {
                Some(doubled) if doubled < self.max_wait_ms => doubled,
                _ => self.max_wait_ms,
            };
            at += 1;
        }
        proof {
            if at < poll {
                self.lemma_wait_settles(at as nat, poll as nat);
            }
        }
        wait
    }
}

/// Why a transfer came to nothing.
#[derive(Debug, Clone, Copy, PartialEq, Eq, Structural)]
pub enum Failure {
    /// The node handed out no blockhash.
    NoBlockhash,
    /// The node did not take the transaction.
    NotSubmitted,
    /// The node did not say whether the transaction is final.
    NoConfirmation,
    /// The transaction was still not final when the questions ran out.
    TimedOut,
}

impl Failure {
    /// The error that a failure is reported as.
    pub open spec fn as_error(self) -> Error {
        match self {
            Failure::NoBlockhash => Error::FetchBlockhashError,
            Failure::NotSubmitted => Error::TransactionError,
            Failure::NoConfirmation => Error::TransactionError,
            Failure::TimedOut => Error::TransactionError,
        }
    }

    /// The error that this failure is reported as.
    pub fn error(self) -> (error: Error)
        ensures
            error == self.as_error(),
    {
        match self {
            Failure::NoBlockhash => Error::FetchBlockhashError,
            Failure::NotSubmitted => Error::TransactionError,
            Failure::NoConfirmation => Error::TransactionError,
            Failure::TimedOut => Error::TransactionError,
        }
    }
}

/// What the node said to the last question.
#[derive(Debug, PartialEq, Eq)]
pub enum Reply {
    /// A recent blockhash.
    Blockhash([u8; 32]),
    /// The signature under which the transaction was taken.
    Signature(String),
    /// Whether the transaction is final.
    Confirmation(bool),
    /// No answer, or an error.
    Failed,
}

/// What to do next.
#[derive(Debug, PartialEq, Eq)]
pub enum Action {
    /// Ask the node for a recent blockhash, at the connection's own
    /// commitment.
    FetchBlockhash,
    /// Build the transfer with the signer as payer, sign it over the
    /// blockhash, and submit it.
    Submit { order: TransferOrder, blockhash: [u8; 32], config: SubmitConfig },
    /// Wait, then ask the node whether the transaction is final.
    Poll { signature: String, commitment: Commitment, wait_ms: u64 },
    /// Nothing: the transfer has settled.
    Finish,
}

/// How far a transfer has come.
#[derive(Debug, PartialEq, Eq)]
pub enum Stage {
    /// A blockhash has been asked for.
    AwaitingBlockhash,
    /// The transaction has been handed over for signing and submission.
    AwaitingSignature,
    /// The node has been asked `polls` times whether the transaction is
    /// final, the last question still being open.
    AwaitingFinality { signature: String, polls: u32 },
    /// The transfer is over: with the transaction's signature, or with the
    /// reason it failed.
    Settled(Result<String, Failure>),
}

/// One transfer on its way.
#[derive(Debug, PartialEq, Eq)]
pub struct TransferFlow {
    /// What is being sent, and where.
    pub order: TransferOrder,
    /// How long to wait for finality.
    pub policy: PollPolicy,
    /// How far the transfer has come.
    pub stage: Stage,
}

impl TransferFlow {
    /// A transfer at its start.
    pub open spec fn started(order: TransferOrder, policy: PollPolicy) -> TransferFlow {
        TransferFlow { order, policy, stage: Stage::AwaitingBlockhash }
    }

    /// The flow with another stage.
    pub open spec fn at(self, stage: Stage) -> TransferFlow {
        TransferFlow { order: self.order, policy: self.policy, stage }
    }

    /// The question that asks for finality for the `poll`-th time, counting
    /// from zero.
    pub open spec fn poll_action(self, signature: String, poll: nat) -> Action {
        Action::Poll {
            signature,
            commitment: Commitment::Finalized,
            wait_ms: self.policy.wait_before(poll) as u64,
        }
    }

    /// Where a reply takes the flow, and what is to be done then.
    ///
    /// A reply other than the one awaited counts as the failure of what was
    /// asked. A settled flow stays as it is.
    pub open spec fn next(self, reply: Reply) -> (TransferFlow, Action) {
        match self.stage {
            Stage::AwaitingBlockhash => match reply {
                Reply::Blockhash(blockhash) => (
                    self.at(Stage::AwaitingSignature),
                    Action::Submit { order: self.order, blockhash, config: fixed_submit_config() },
                ),
                _ => (self.at(Stage::Settled(Err(Failure::NoBlockhash))), Action::Finish),
            },
            Stage::AwaitingSignature => match reply {
                Reply::Signature(signature) => if self.policy.max_polls == 0 {
                    (self.at(Stage::Settled(Err(Failure::TimedOut))), Action::Finish)
                } else {
                    (
                        self.at(Stage::AwaitingFinality { signature, polls: 1 }),
                        self.poll_action(signature, 0),
                    )
                },
                _ => (self.at(Stage::Settled(Err(Failure::NotSubmitted))), Action::Finish),
            },
            Stage::AwaitingFinality { signature, polls } => match reply {
                Reply::Confirmation(true) => (
                    self.at(Stage::Settled(Ok(signature))),
                    Action::Finish,
                ),
                Reply::Confirmation(false) => if polls >= self.policy.max_polls {
                    (self.at(Stage::Settled(Err(Failure::TimedOut))), Action::Finish)
                } else {
                    (
                        self.at(Stage::AwaitingFinality { signature, polls: (polls + 1) as u32 }),
                        self.poll_action(signature, polls as nat),
                    )
                },
                _ => (self.at(Stage::Settled(Err(Failure::NoConfirmation))), Action::Finish),
            },
            Stage::Settled(_) => (self, Action::Finish),
        }
    }

    /// Starts a transfer: the first thing to do is to fetch a blockhash.
    pub fn begin(order: TransferOrder, policy: PollPolicy) -> (r: (TransferFlow, Action))
        ensures
            r.0 == TransferFlow::started(order, policy),
            r.1 == Action::FetchBlockhash,
    {
        (TransferFlow { order, policy, stage: Stage::AwaitingBlockhash }, Action::FetchBlockhash)
    }

    /// Checks a request and, where it passes, starts the transfer. Where it
    /// does not, nothing is started and nothing is to be asked of the node.
    pub fn open(request: &TransferRequest, policy: PollPolicy) -> (r: Result<
        (TransferFlow, Action),
        Error,
    >)
        ensures
            r == match transfer_decision(
                request.destination@,
                decoded_address(request.destination@),
                request.amount_text@,
                request.known_balance,
            ) {
                Ok(order) => Ok::<(TransferFlow, Action), Error>(
                    (TransferFlow::started(order, policy), Action::FetchBlockhash),
                ),
                Err(error) => Err(error),
            },
    {
        match validate_transfer(request) {
            Ok(order) => Ok(TransferFlow::begin(order, policy)),
            Err(error) => Err(error),
        }
    }

    /// Takes the node's reply to the last action and says what to do next.
    pub fn step(self, reply: Reply) -> (r: (TransferFlow, Action))
        ensures
            r == self.next(reply),
    {
        let order = self.order;
        let policy = self.policy;
        let (stage, action) = match self.stage {
            Stage::AwaitingBlockhash => match reply {
                Reply::Blockhash(blockhash) => (
                    Stage::AwaitingSignature,
                    Action::Submit { order, blockhash, config: submit_config() },
                ),
                _ => (Stage::Settled(Err(Failure::NoBlockhash)), Action::Finish),
            },
            Stage::AwaitingSignature => match reply {
                Reply::Signature(signature) => {
                    if policy.max_polls == 0 {
                        (Stage::Settled(Err(Failure::TimedOut)), Action::Finish)
                    } else {
                        let wait_ms = policy.wait_ms(0);
                        let asked = signature.clone();
                        (
                            Stage::AwaitingFinality { signature, polls: 1 },
                            Action::Poll {
                                signature: asked,
                                commitment: Commitment::Finalized,
                                wait_ms,
                            },
                        )
                    }
                },
                _ => (Stage::Settled(Err(Failure::NotSubmitted)), Action::Finish),
            },
            Stage::AwaitingFinality { signature, polls } => match reply {
                Reply::Confirmation(confirmed) => {
                    if confirmed {
                        (Stage::Settled(Ok(signature)), Action::Finish)
                    } else if polls >= policy.max_polls {
                        (Stage::Settled(Err(Failure::TimedOut)), Action::Finish)
                    } else {
                        let wait_ms = policy.wait_ms(polls);
                        let asked = signature.clone();
                        (
                            Stage::AwaitingFinality { signature, polls: polls + 1 },
                            Action::Poll {
                                signature: asked,
                                commitment: Commitment::Finalized,
                                wait_ms,
                            },
                        )
                    }
                },
                _ => (Stage::Settled(Err(Failure::NoConfirmation)), Action::Finish),
            },
            Stage::Settled(outcome) => (Stage::Settled(outcome), Action::Finish),
        };
        (TransferFlow { order, policy, stage }, action)
    }

    /// Whether the transfer is over.
    pub fn is_settled(&self) -> (settled: bool)
        ensures
            settled == (self.stage is Settled),
    {
        match &self.stage {
            Stage::Settled(_) => true,
            _ => false,
        }
    }

    /// The result of the transfer: the transaction's signature or the error
    /// to report. `None` while the transfer is still on its way.
    pub fn into_outcome(self) -> (outcome: Option<Result<String, Error>>)
        ensures
            outcome == self.outcome(),
    {
        match self.stage {
            Stage::Settled(Ok(signature)) => Some(Ok(signature)),
            Stage::Settled(Err(failure)) => Some(Err(failure.error())),
            _ => None,
        }
    }

    /// The result of the transfer, once it has settled.
    pub open spec fn outcome(self) -> Option<Result<String, Error>> {
        match self.stage {
            Stage::Settled(Ok(signature)) => Some(Ok(signature)),
            Stage::Settled(Err(failure)) => Some(Err(failure.as_error())),
            _ => None,
        }
    }
}

} // verus!
