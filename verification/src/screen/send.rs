//! The screen that sends coins.

use vstd::prelude::*;
use crate::text::opt_text;
use crate::types::{
    all_digits, all_recipient_chars, amount_from_str, amount_of_text, is_amount_input,
    is_recipient_input, Amount,
};

verus! {

/// What the screen holds: the two fields as they were typed, and the error of
/// the last attempt, if the daemon refused it.
#[derive(Clone, Debug)]
pub struct State {
    recipient: String,
    amount: String,
    error: Option<String>,
}

/// The screen's state as plain values.
pub struct StateModel {
    pub recipient: Seq<char>,
    pub amount: Seq<char>,
    pub error: Option<Seq<char>>,
}

/// A screen that was just opened: empty fields, no error.
pub open spec fn blank() -> StateModel {
    StateModel { recipient: Seq::empty(), amount: Seq::empty(), error: None }
}

#[derive(Clone, Debug)]
pub enum Message {
    RecipientInput(String),
    AmountInput(String),
    SendPress,
}

/// What the screen asks for.
#[derive(Clone, Debug)]
pub enum Task {
    Nothing,
    SendCoins { recipient: String, amount: Amount },
}

/// A task as plain values.
pub enum TaskModel {
    Nothing,
    SendCoins { recipient: Seq<char>, amount: Amount },
}

impl Task {
    pub open spec fn model(&self) -> TaskModel {
        match self {
            Task::Nothing => TaskModel::Nothing,
            Task::SendCoins { recipient, amount } => TaskModel::SendCoins {
                recipient: recipient@,
                amount: *amount,
            },
        }
    }
}

/// What can be sent from the two fields: the recipient, which must not be
/// empty, and the amount that the amount field stands for.
pub open spec fn valid_send(recipient: Seq<char>, amount: Seq<char>) -> Option<
    (Seq<char>, Amount),
> {
    if recipient.len() == 0 {
        None
    } else {
        match amount_of_text(amount) {
            Some(amount) => Some((recipient, amount)),
            None => None,
        }
    }
}

/// The state after a message. An input replaces its field where the field's
/// filter lets it pass, and is dropped otherwise. Every message clears the
/// error.
pub open spec fn next_state(s: StateModel, message: Message) -> StateModel {
    match message {
        Message::RecipientInput(recipient) => StateModel {
            recipient: if all_recipient_chars(recipient@) {
                recipient@
            } else {
                s.recipient
            },
            error: None,
            ..s
        },
        Message::AmountInput(amount) => StateModel {
            amount: if all_digits(amount@) {
                amount@
            } else {
                s.amount
            },
            error: None,
            ..s
        },
        Message::SendPress => StateModel { error: None, ..s },
    }
}

/// The task that a message gives: pressing Send with valid fields sends, and
/// nothing else does anything.
pub open spec fn next_task(s: StateModel, message: Message) -> TaskModel {
    match message {
        Message::SendPress => match valid_send(s.recipient, s.amount) {
            Some((recipient, amount)) => TaskModel::SendCoins { recipient, amount },
            None => TaskModel::Nothing,
        },
        _ => TaskModel::Nothing,
    }
}

/// Whether both fields hold what their filters let pass.
pub open spec fn is_filtered(s: StateModel) -> bool {
    all_recipient_chars(s.recipient) && all_digits(s.amount)
}

/// The fields of a screen that was just opened pass their filters, and no
/// message puts anything into a field that its filter would refuse.
pub proof fn lemma_fields_stay_filtered(s: StateModel, message: Message)
    ensures
        is_filtered(blank()),
        is_filtered(s) ==> is_filtered(next_state(s, message)),
{
}

/// Whatever is sent names a recipient, and the amount that the amount field
/// stands for.
pub proof fn lemma_nothing_is_sent_to_nobody(s: StateModel, message: Message)
    ensures
        next_task(s, message) matches TaskModel::SendCoins { recipient, amount } ==> {
            &&& message is SendPress
            &&& recipient.len() > 0
            &&& recipient == s.recipient
            &&& amount_of_text(s.amount) == Some(amount)
        },
{
}

impl State {
    pub closed spec fn model(&self) -> StateModel {
        StateModel { recipient: self.recipient@, amount: self.amount@, error: opt_text(self.error) }
    }

    pub fn new() -> (s: State)
        ensures
            s.model() == blank(),
    {
        State { recipient: String::new(), amount: String::new(), error: None }
    }

    /// Shows `error` beside the form.
    pub fn set_error(&mut self, error: String)
        ensures
            final(self).model() == (StateModel { error: Some(error@), ..old(self).model() }),
    {
        self.error = Some(error)
    }

    pub fn recipient(&self) -> (s: &str)
        ensures
            s@ == self.model().recipient,
    {
        self.recipient.as_str()
    }

    pub fn amount(&self) -> (s: &str)
        ensures
            s@ == self.model().amount,
    {
        self.amount.as_str()
    }

    pub fn error(&self) -> (e: Option<&str>)
        ensures
            e is Some <==> self.model().error is Some,
            e matches Some(text) ==> text@ == self.model().error->0,
    {
        match &self.error {
            Some(text) => Some(text.as_str()),
            None => None,
        }
    }

    /// Whether Send can be pressed.
    pub fn can_send(&self) -> (ok: bool)
        ensures
            ok == valid_send(self.model().recipient, self.model().amount) is Some,
    {
        validate(&self.recipient, &self.amount).is_some()
    }
}

impl Default for State {
    fn default() -> (s: State)
        ensures
            s.model() == blank(),
    {
        State::new()
    }
}

/// The recipient and the amount to send, where both fields are valid.
pub fn validate(recipient: &String, amount: &String) -> (r: Option<(String, Amount)>)
    ensures
        r is Some <==> valid_send(recipient@, amount@) is Some,
        r matches Some(pair) ==> (pair.0@, pair.1) == valid_send(recipient@, amount@)->0,
{
    if recipient.as_str().is_empty() {
        return None;
    }
    match amount_from_str(amount.as_str()) {
        Some(amount) => Some((recipient.clone(), amount)),
        None => None,
    }
}

/// Applies a message to the screen.
pub fn update(state: &mut State, message: Message) -> (task: Task)
    ensures
        final(state).model() == next_state(old(state).model(), message),
        task.model() == next_task(old(state).model(), message),
{
    state.error = None;
    match message {
        Message::RecipientInput(recipient) => {
            if is_recipient_input(recipient.as_str()) {
                state.recipient = recipient;
            }
            Task::Nothing
        },
        Message::AmountInput(amount) => {
            if is_amount_input(amount.as_str()) {
                state.amount = amount;
            }
            Task::Nothing
        },
        Message::SendPress => {
            match validate(&state.recipient, &state.amount) {
                Some((recipient, amount)) => Task::SendCoins { recipient, amount },
                None => Task::Nothing,
            }
        },
    }
}

} // verus!
