//! The screen that shows an address to receive at.

use vstd::prelude::*;
use crate::store::{Address, AddressKind};

verus! {

/// What the screen holds: which of the two addresses is shown.
#[derive(Clone, Copy, Debug, PartialEq, Eq, Structural)]
pub struct State {
    pub coin_address: bool,
}

#[derive(Clone, Debug)]
pub enum Message {
    AddressKindToggle(bool),
    CopyPress(String),
}

/// What the screen asks for.
#[derive(Clone, Debug)]
pub enum Task {
    Nothing,
    WriteClipboard(String),
}

/// A task as plain values.
pub enum TaskModel {
    Nothing,
    WriteClipboard(Seq<char>),
}

impl Task {
    pub open spec fn model(&self) -> TaskModel {
        match self {
            Task::Nothing => TaskModel::Nothing,
            Task::WriteClipboard(text) => TaskModel::WriteClipboard(text@),
        }
    }
}

/// The state after a message: the toggle sets which address is shown.
pub open spec fn next_state(s: State, message: Message) -> State {
    match message {
        Message::AddressKindToggle(coin_address) => State { coin_address },
        Message::CopyPress(_) => s,
    }
}

/// The task that a message gives: the copy button hands its text to the
/// clipboard.
pub open spec fn next_task(message: Message) -> TaskModel {
    match message {
        Message::AddressKindToggle(_) => TaskModel::Nothing,
        Message::CopyPress(text) => TaskModel::WriteClipboard(text@),
    }
}

impl State {
    /// A screen that was just opened; it shows the address for spaces.
    pub fn new() -> (s: State)
        ensures
            s == (State { coin_address: false }),
    {
        State { coin_address: false }
    }

    /// The kind of address that is shown.
    pub fn kind(&self) -> (kind: AddressKind)
        ensures
            kind == (if self.coin_address {
                AddressKind::Coin
            } else {
                AddressKind::Space
            }),
    {
        if self.coin_address {
            AddressKind::Coin
        } else {
            AddressKind::Space
        }
    }

    /// Applies a message to the screen.
    pub fn update(&mut self, message: Message) -> (task: Task)
        ensures
            *final(self) == next_state(*old(self), message),
            task.model() == next_task(message),
    {
        match message {
            Message::AddressKindToggle(coin_address) => {
                self.coin_address = coin_address;
                Task::Nothing
            },
            Message::CopyPress(text) => Task::WriteClipboard(text),
        }
    }

    /// The address to show, of the two that the wallet may have by now;
    /// nothing while the one that is asked for is still awaited.
    pub fn view<'a>(
        self,
        coin_address: Option<&'a Address>,
        space_address: Option<&'a Address>,
    ) -> (shown: Option<&'a Address>)
        ensures
            shown == (if self.coin_address {
                coin_address
            } else {
                space_address
            }),
    {
        if self.coin_address {
            coin_address
        } else {
            space_address
        }
    }
}

impl Default for State {
    fn default() -> (s: State)
        ensures
            s == (State { coin_address: false }),
    {
        State::new()
    }
}

} // verus!
