//! The wallet window: what it remembers, and what each message does to it.
//!
//! The window itself, the file dialog and the node are somebody else's. Here
//! is only the bookkeeping: a state, the messages that reach it, and for each
//! message the new state and the one thing to set going. A path is whatever
//! the caller takes it to be.

use vstd::prelude::*;
use crate::errors::Error;
use crate::text::same_text;
use crate::transfer::TransferRequest;

verus! {

/// The number of frames in the loader animation.
pub const LOADER_FRAMES: usize = 21;

/// How long a frame of the loader animation stays, in milliseconds.
pub const FRAME_MILLIS: u64 = 75;

/// How long an error stays on display, in seconds.
pub const ERROR_SHOWN_SECS: u64 = 5;

/// The extension of a keypair file.
pub const KEYPAIR_EXTENSION: &'static str = "json";

/// Where the keypair file is looked for by default, below the home
/// directory.
pub const DEFAULT_LOCATION: &'static str = ".config/solana/id.json";

/// What the window remembers.
#[derive(Debug, PartialEq, Eq)]
pub struct WalletState<P> {
    /// The keypair file in use.
    pub path: Option<P>,
    /// The error on display.
    pub error: Option<Error>,
    /// The balance in lamports, once the node has told it.
    pub balance: Option<u64>,
    /// The destination and the amount, as typed so far.
    pub receiver_value: (String, String),
    /// The signature of the last transfer that went through.
    pub signature: Option<String>,
    /// Whether a transfer is on its way.
    pub is_loading: bool,
    /// The frame of the loader animation on display.
    pub current_frame: usize,
}

/// What can happen to the window.
#[derive(Debug, PartialEq, Eq)]
pub enum Message<P> {
    /// The file dialog came back.
    FileOpened(Result<P, Error>),
    /// The user wants to pick a keypair file.
    Open,
    /// The node told the balance, or failed to.
    BalanceLoaded(Result<u64, Error>),
    /// The error has been on display long enough.
    ErrorCleared,
    /// The user typed: the destination and the amount as they now stand.
    TxValuesHandler((String, String)),
    /// The user wants the transfer made.
    ExecuteTransaction,
    /// The transfer ended.
    TransactionExecuted(Result<String, Error>),
    /// The loader animation moves on.
    NextFrame,
}

/// What to set going after a message.
#[derive(Debug, PartialEq, Eq)]
pub enum Command {
    /// Nothing.
    Idle,
    /// Show the file dialog; its result comes back as `FileOpened`.
    PickFile,
    /// Load the keypair at the state's path and ask the node for its
    /// balance, which comes back as `BalanceLoaded`.
    LoadWallet,
    /// Ask the node for the balance of the keypair at the state's path, or
    /// at the default location where the state has none.
    RefreshBalance,
    /// Send `ErrorCleared` after `ERROR_SHOWN_SECS`.
    ClearErrorLater,
    /// Make the transfer; its result comes back as `TransactionExecuted`.
    Transfer(TransferRequest),
}

/// The frame that follows `frame` in the loader animation.
pub open spec fn frame_after(frame: usize) -> usize {
    ((frame + 1) % (LOADER_FRAMES as int)) as usize
}

/// The number of the picture that a frame of the loader animation shows.
pub open spec fn loader_picture(frame: usize) -> u8 {
    if frame <= 5 {
        (frame + 1) as u8
    } else if frame <= 9 {
        7
    } else if frame <= 15 {
        (frame + 1) as u8
    } else if frame <= 20 {
        7
    } else {
        1
    }
}

/// The number of the picture to show for a frame of the loader animation:
/// the first six pictures, a pause on the seventh, pictures eleven to
/// sixteen, and the seventh again.
pub fn loader_image(frame: usize) -> (picture: u8)
    ensures
        picture == loader_picture(frame),
        1 <= picture <= 16,
{
    if frame <= 5 {
        (frame + 1) as u8
    } else if frame <= 9 {
        7
    } else if frame <= 15 {
        (frame + 1) as u8
    } else if frame <= 20 {
        7
    } else {
        1
    }
}

/// Takes what the file dialog came back with: nothing where it was
/// dismissed, else the chosen path and its extension, where it has one that
/// is text. Only a file with the keypair extension is accepted.
pub fn accept_pick<P>(pick: Option<(P, Option<String>)>) -> (r: Result<P, Error>)
    ensures
        r == match pick {
            None => Err::<P, Error>(Error::DialogClosed),
            Some((path, Some(extension))) if extension@ == KEYPAIR_EXTENSION@ => Ok(path),
            Some(_) => Err(Error::InvalidFileType),
        },
{
    match pick {
        None => Err(Error::DialogClosed),
        Some((path, Some(extension))) => {
            if same_text(extension.as_str(), KEYPAIR_EXTENSION) {
                Ok(path)
            } else {
                Err(Error::InvalidFileType)
            }
        },
        Some((_, None)) => Err(Error::InvalidFileType),
    }
}

impl<P> WalletState<P> {
    /// The state the window opens with: a keypair file to look at, nothing
    /// typed, nothing known and nothing on its way.
    pub fn new(path: P) -> (state: WalletState<P>)
        ensures
            state.path == Some(path),
            state.error is None,
            state.balance is None,
            state.receiver_value.0@.len() == 0,
            state.receiver_value.1@.len() == 0,
            state.signature is None,
            !state.is_loading,
            state.current_frame == 0,
    {
        WalletState {
            path: Some(path),
            error: None,
            balance: None,
            receiver_value: (String::new(), String::new()),
            signature: None,
            is_loading: false,
            current_frame: 0,
        }
    }

    /// The transfer that the state asks for as it stands.
    pub open spec fn request(self) -> TransferRequest {
        TransferRequest {
            destination: self.receiver_value.0,
            amount_text: self.receiver_value.1,
            known_balance: self.balance,
        }
    }

    /// The state after a message, and what to set going.
    pub open spec fn after(self, message: Message<P>) -> (WalletState<P>, Command) {
        match message {
            Message::Open => (self, Command::PickFile),
            Message::FileOpened(Ok(path)) => (
                WalletState { path: Some(path), ..self },
                Command::LoadWallet,
            ),
            Message::FileOpened(Err(error)) => (
                WalletState { error: Some(error), ..self },
                Command::ClearErrorLater,
            ),
            Message::BalanceLoaded(Ok(balance)) => (
                WalletState { balance: Some(balance), ..self },
                Command::Idle,
            ),
            Message::BalanceLoaded(Err(error)) => (
                WalletState { error: Some(error), ..self },
                Command::Idle,
            ),
            Message::ExecuteTransaction => (
                WalletState { signature: None, is_loading: true, ..self },
                Command::Transfer(self.request()),
            ),
            Message::TransactionExecuted(Ok(signature)) => (
                WalletState { signature: Some(signature), is_loading: false, ..self },
                Command::RefreshBalance,
            ),
            Message::TransactionExecuted(Err(error)) => (
                WalletState { error: Some(error), is_loading: false, ..self },
                Command::ClearErrorLater,
            ),
            Message::TxValuesHandler(typed) => (
                WalletState { receiver_value: typed, ..self },
                Command::Idle,
            ),
            Message::ErrorCleared => (WalletState { error: None, ..self }, Command::Idle),
            Message::NextFrame => (
                WalletState { current_frame: frame_after(self.current_frame), ..self },
                Command::Idle,
            ),
        }
    }

    /// Takes a message: changes the state and says what to set going.
    pub fn update(&mut self, message: Message<P>) -> (command: Command)
        ensures
            (*final(self), command) == old(self).after(message),
    {
        match message {
            Message::Open => Command::PickFile,
            Message::FileOpened(Ok(path)) => {
                self.path = Some(path);
                Command::LoadWallet
            },
            Message::FileOpened(Err(error)) => {
                self.error = Some(error);
                Command::ClearErrorLater
            },
            Message::BalanceLoaded(Ok(balance)) => {
                self.balance = Some(balance);
                Command::Idle
            },
            Message::BalanceLoaded(Err(error)) => {
                self.error = Some(error);
                Command::Idle
            },
            Message::ExecuteTransaction => {
                self.signature = None;
                self.is_loading = true;
                Command::Transfer(
                    TransferRequest {
                        destination: self.receiver_value.0.clone(),
                        amount_text: self.receiver_value.1.clone(),
                        known_balance: self.balance,
                    },
                )
            },
            Message::TransactionExecuted(Ok(signature)) => {
                self.signature = Some(signature);
                self.is_loading = false;
                Command::RefreshBalance
            },
            Message::TransactionExecuted(Err(error)) => {
                self.error = Some(error);
                self.is_loading = false;
                Command::ClearErrorLater
            },
            Message::TxValuesHandler(typed) => {
                self.receiver_value = typed;
                Command::Idle
            },
            Message::ErrorCleared => {
                self.error = None;
                Command::Idle
            },
            Message::NextFrame => {
                self.current_frame = (self.current_frame % LOADER_FRAMES + 1) % LOADER_FRAMES;
                Command::Idle
            },
        }
    }
}

/// The loader animation never leaves its frames: whatever frame the state
/// held, after `NextFrame` it holds one of the twenty-one, and from a frame
/// among them it is the next, the first following the last.
pub proof fn lemma_frames_go_round<P>(state: WalletState<P>)
    ensures
        state.after(Message::NextFrame).0.current_frame < LOADER_FRAMES,
        state.current_frame + 1 < LOADER_FRAMES ==> state.after(
            Message::NextFrame,
        ).0.current_frame == state.current_frame + 1,
        state.current_frame + 1 == LOADER_FRAMES ==> state.after(
            Message::NextFrame,
        ).0.current_frame == 0,
{
}

/// The loader shows from the moment a transfer is asked for until it ends,
/// whichever way it ends.
pub proof fn lemma_loading_spans_the_transfer<P>(
    state: WalletState<P>,
    result: Result<String, Error>,
)
    ensures
        state.after(Message::ExecuteTransaction).0.is_loading,
        state.after(Message::ExecuteTransaction).1 == Command::Transfer(state.request()),
        !state.after(Message::TransactionExecuted(result)).0.is_loading,
{
}

} // verus!
