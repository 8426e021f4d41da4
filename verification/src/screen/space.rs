//! The screen of one space: where it stands in its auction, and the form for
//! what can be done about it.

use vstd::prelude::*;
use crate::helpers::{estimate_text, height_to_est};
use crate::text::opt_text;
use crate::types::{
    all_digits, all_fee_rate_chars, all_slabel_chars, amount_from_str, amount_of_text,
    fee_rate_from_str, fee_rate_of_text, is_amount_input, is_fee_rate_input, is_slabel_input,
    is_space_label, slabel_from_str, Amount, Covenant, FeeRate, SLabel,
};

verus! {

/// The phase of a space, as far as the wallet can tell.
#[derive(Clone, Copy, Debug, PartialEq, Eq, Structural)]
pub enum Phase {
    /// The daemon has not answered yet.
    Loading,
    /// The space does not exist and can be opened.
    OpenEligible,
    /// The name is reserved.
    Reserved,
    /// Opened; no bid has started the auction yet.
    PreAuction,
    /// The auction runs.
    AuctionActive,
    /// The auction is over and this wallet has won it.
    Claimable,
    /// The auction is over and another wallet leads; it can still be outbid.
    ClaimableByOther,
    /// Registered to this wallet.
    Owned,
    /// Registered to another wallet.
    RegisteredByOther,
}

/// What a wallet may submit for a space.
#[derive(Clone, Copy, Debug, PartialEq, Eq, Structural)]
pub enum Action {
    /// Nothing.
    Wait,
    /// To open the space, with an amount.
    Open,
    /// To bid, with an amount.
    Bid,
    /// To register the space.
    Register,
}

/// The phase of a space, from what is known of it, the height of the tip and
/// whether the wallet lists it. Of `observation`, `None` says that nothing is
/// known yet, `Some(None)` that the space does not exist. An auction is over
/// once the tip has reached the claim height: at that very height the space
/// can be claimed.
pub open spec fn phase_of(
    observation: Option<Option<Covenant>>,
    tip_height: u32,
    is_owned: bool,
) -> Phase {
    match observation {
        None => Phase::Loading,
        Some(None) => Phase::OpenEligible,
        Some(Some(Covenant::Reserved)) => Phase::Reserved,
        Some(Some(Covenant::Bid { claim_height: None, .. })) => Phase::PreAuction,
        Some(Some(Covenant::Bid { claim_height: Some(height), .. })) => if height > tip_height {
            Phase::AuctionActive
        } else if is_owned {
            Phase::Claimable
        } else {
            Phase::ClaimableByOther
        },
        Some(Some(Covenant::Transfer { .. })) => if is_owned {
            Phase::Owned
        } else {
            Phase::RegisteredByOther
        },
    }
}

/// What may be submitted in a phase.
pub open spec fn action_in(phase: Phase) -> Action {
    match phase {
        Phase::OpenEligible => Action::Open,
        Phase::PreAuction | Phase::AuctionActive | Phase::ClaimableByOther => Action::Bid,
        Phase::Claimable => Action::Register,
        Phase::Loading | Phase::Reserved | Phase::Owned | Phase::RegisteredByOther => Action::Wait,
    }
}

/// Tells the phase of a space.
pub fn classify(observation: Option<Option<Covenant>>, tip_height: u32, is_owned: bool) -> (phase:
    Phase)
    ensures
        phase == phase_of(observation, tip_height, is_owned),
{
    match observation {
        None => Phase::Loading,
        Some(None) => Phase::OpenEligible,
        Some(Some(Covenant::Reserved)) => Phase::Reserved,
        Some(Some(Covenant::Bid { total_burned: _, claim_height })) => match claim_height {
            None => Phase::PreAuction,
            Some(height) => if height > tip_height {
                Phase::AuctionActive
            } else if is_owned {
                Phase::Claimable
            } else {
                Phase::ClaimableByOther
            },
        },
        Some(Some(Covenant::Transfer { expire_height: _ })) => if is_owned {
            Phase::Owned
        } else {
            Phase::RegisteredByOther
        },
    }
}

impl Phase {
    /// What may be submitted in this phase.
    pub fn action(self) -> (action: Action)
        ensures
            action == action_in(self),
    {
        match self {
            Phase::OpenEligible => Action::Open,
            Phase::PreAuction => Action::Bid,
            Phase::AuctionActive => Action::Bid,
            Phase::ClaimableByOther => Action::Bid,
            Phase::Claimable => Action::Register,
            Phase::Loading => Action::Wait,
            Phase::Reserved => Action::Wait,
            Phase::Owned => Action::Wait,
            Phase::RegisteredByOther => Action::Wait,
        }
    }
}

/// While nothing is known of a space it is loading, whatever the tip and
/// whoever owns it.
pub proof fn lemma_unknown_is_loading(tip_height: u32, is_owned: bool)
    ensures
        phase_of(None, tip_height, is_owned) == Phase::Loading,
        action_in(phase_of(None, tip_height, is_owned)) == Action::Wait,
{
}

/// At the claim height itself the auction is over: the wallet that owns the
/// space can claim it.
pub proof fn lemma_claimable_at_claim_height(total_burned: Amount, height: u32)
    ensures
        phase_of(
            Some(Some(Covenant::Bid { total_burned, claim_height: Some(height) })),
            height,
            true,
        ) == Phase::Claimable,
{
}

/// A space with a claim height is in auction exactly while the tip is below
/// that height, and from then on can be claimed by the wallet that owns it and
/// by no other.
pub proof fn lemma_claim_boundary(
    total_burned: Amount,
    height: u32,
    tip_height: u32,
    is_owned: bool,
)
    ensures
        ({
            let phase = phase_of(
                Some(Some(Covenant::Bid { total_burned, claim_height: Some(height) })),
                tip_height,
                is_owned,
            );
            &&& phase == Phase::AuctionActive <==> tip_height < height
            &&& phase == Phase::Claimable <==> height <= tip_height && is_owned
            &&& phase == Phase::ClaimableByOther <==> height <= tip_height && !is_owned
        }),
{
}

/// A space can be opened only once the daemon has said that it does not
/// exist, and registered only by the wallet that owns it.
pub proof fn lemma_actions_need_answers(
    observation: Option<Option<Covenant>>,
    tip_height: u32,
    is_owned: bool,
)
    ensures
        action_in(phase_of(observation, tip_height, is_owned)) == Action::Open <==> observation
            == Some(None::<Covenant>),
        action_in(phase_of(observation, tip_height, is_owned)) == Action::Register ==> is_owned,
        observation is None ==> action_in(phase_of(observation, tip_height, is_owned))
            == Action::Wait,
{
}

/// What the screen holds: the three fields as they were typed, and the error
/// of the last attempt, if the daemon refused it.
#[derive(Clone, Debug)]
pub struct State {
    slabel: String,
    amount: String,
    fee_rate: String,
    error: Option<String>,
}

/// The screen's state as plain values.
pub struct StateModel {
    pub slabel: Seq<char>,
    pub amount: Seq<char>,
    pub fee_rate: Seq<char>,
    pub error: Option<Seq<char>>,
}

/// A screen that was just opened on `slabel`.
pub open spec fn opened_on(slabel: Seq<char>) -> StateModel {
    StateModel { slabel, amount: Seq::empty(), fee_rate: Seq::empty(), error: None }
}

#[derive(Clone, Debug)]
pub enum Message {
    SlabelInput(String),
    AmountInput(String),
    FeeRateInput(String),
    OpenSubmit,
    BidSubmit,
    ClaimSubmit,
}

/// What the screen asks for.
#[derive(Clone, Debug)]
pub enum Task {
    Nothing,
    GetSpaceInfo { slabel: SLabel },
    OpenSpace { slabel: SLabel, amount: Amount, fee_rate: Option<FeeRate> },
    BidSpace { slabel: SLabel, amount: Amount, fee_rate: Option<FeeRate> },
    ClaimSpace { slabel: SLabel, fee_rate: Option<FeeRate> },
}

/// A task as plain values.
pub enum TaskModel {
    Nothing,
    GetSpaceInfo { slabel: Seq<char> },
    OpenSpace { slabel: Seq<char>, amount: Amount, fee_rate: Option<FeeRate> },
    BidSpace { slabel: Seq<char>, amount: Amount, fee_rate: Option<FeeRate> },
    ClaimSpace { slabel: Seq<char>, fee_rate: Option<FeeRate> },
}

impl Task {
    pub open spec fn model(&self) -> TaskModel {
        match self {
            Task::Nothing => TaskModel::Nothing,
            Task::GetSpaceInfo { slabel } => TaskModel::GetSpaceInfo { slabel: slabel@ },
            Task::OpenSpace { slabel, amount, fee_rate } => TaskModel::OpenSpace {
                slabel: slabel@,
                amount: *amount,
                fee_rate: *fee_rate,
            },
            Task::BidSpace { slabel, amount, fee_rate } => TaskModel::BidSpace {
                slabel: slabel@,
                amount: *amount,
                fee_rate: *fee_rate,
            },
            Task::ClaimSpace { slabel, fee_rate } => TaskModel::ClaimSpace {
                slabel: slabel@,
                fee_rate: *fee_rate,
            },
        }
    }
}

/// The state after a message. An input replaces its field where the field's
/// filter lets it pass, and is dropped otherwise. Every message clears the
/// error.
pub open spec fn next_state(s: StateModel, message: Message) -> StateModel {
    match message {
        Message::SlabelInput(slabel) => StateModel {
            slabel: if all_slabel_chars(slabel@) {
                slabel@
            } else {
                s.slabel
            },
            error: None,
            ..s
        },
        Message::AmountInput(amount) => StateModel {
            amount: if all_digits(amount@) {
                amount@
            } else {
                s.amount
            },
            error: None,
            ..s
        },
        Message::FeeRateInput(fee_rate) => StateModel {
            fee_rate: if all_fee_rate_chars(fee_rate@) {
                fee_rate@
            } else {
                s.fee_rate
            },
            error: None,
            ..s
        },
        _ => StateModel { error: None, ..s },
    }
}

/// The task that a message gives. A label that was typed is looked up as
/// soon as it is a valid one. A form is submitted where every field that it
/// sends is valid: the label, the fee rate and, to open or to bid, the
/// amount; where one is not, nothing is asked for.
pub open spec fn next_task(s: StateModel, message: Message) -> TaskModel {
    match message {
        Message::SlabelInput(slabel) => if is_space_label(slabel@) {
            TaskModel::GetSpaceInfo { slabel: slabel@ }
        } else {
            TaskModel::Nothing
        },
        Message::AmountInput(_) => TaskModel::Nothing,
        Message::FeeRateInput(_) => TaskModel::Nothing,
        Message::OpenSubmit => if is_space_label(s.slabel) && amount_of_text(s.amount) is Some
            && fee_rate_of_text(s.fee_rate) is Some {
            TaskModel::OpenSpace {
                slabel: s.slabel,
                amount: amount_of_text(s.amount)->0,
                fee_rate: fee_rate_of_text(s.fee_rate)->0,
            }
        } else {
            TaskModel::Nothing
        },
        Message::BidSubmit => if is_space_label(s.slabel) && amount_of_text(s.amount) is Some
            && fee_rate_of_text(s.fee_rate) is Some {
            TaskModel::BidSpace {
                slabel: s.slabel,
                amount: amount_of_text(s.amount)->0,
                fee_rate: fee_rate_of_text(s.fee_rate)->0,
            }
        } else {
            TaskModel::Nothing
        },
        Message::ClaimSubmit => if is_space_label(s.slabel) && fee_rate_of_text(s.fee_rate)
            is Some {
            TaskModel::ClaimSpace { slabel: s.slabel, fee_rate: fee_rate_of_text(s.fee_rate)->0 }
        } else {
            TaskModel::Nothing
        },
    }
}

/// The forms of the screen.
#[derive(Clone, Copy, Debug, PartialEq, Eq, Structural)]
pub enum FormKind {
    /// Amount and fee rate, to open.
    Open,
    /// Amount and fee rate, to bid.
    Bid,
    /// Fee rate, to claim.
    Claim,
    /// No field yet, to send the space on.
    Send,
}

/// A form, and whether it can be submitted as its fields stand.
#[derive(Clone, Copy, Debug, PartialEq, Eq, Structural)]
pub struct Form {
    pub kind: FormKind,
    pub ready: bool,
}

/// What the screen shows below the label field.
#[derive(Clone, Debug)]
pub enum Panel {
    /// The request to enter a valid name.
    Prompt,
    /// Nothing, while the answer is awaited.
    Blank,
    /// The way of the space, with the step it has reached (see the timeline),
    /// the note on it, the highest bid where it is worth showing, and the
    /// form, if the wallet can do something.
    Progress { step: u8, note: String, current_bid: Option<Amount>, form: Option<Form> },
}

/// A panel as plain values.
pub enum PanelModel {
    Prompt,
    Blank,
    Progress { step: u8, note: Seq<char>, current_bid: Option<Amount>, form: Option<Form> },
}

impl Panel {
    pub open spec fn model(&self) -> PanelModel {
        match self {
            Panel::Prompt => PanelModel::Prompt,
            Panel::Blank => PanelModel::Blank,
            Panel::Progress { step, note, current_bid, form } => PanelModel::Progress {
                step: *step,
                note: note@,
                current_bid: *current_bid,
                form: *form,
            },
        }
    }
}

/// Whether the amount and the fee rate that were typed are both valid.
pub open spec fn funds_ready(s: StateModel) -> bool {
    amount_of_text(s.amount) is Some && fee_rate_of_text(s.fee_rate) is Some
}

/// What the screen shows. `covenant` is `None` while the label field holds no
/// valid label; otherwise it holds what is known of the label's space. The
/// step, the note and the form follow from the space's phase.
pub open spec fn panel_of(
    s: StateModel,
    tip_height: u32,
    covenant: Option<Option<Option<Covenant>>>,
    is_owned: bool,
) -> PanelModel {
    match covenant {
        None => PanelModel::Prompt,
        Some(observation) => match phase_of(observation, tip_height, is_owned) {
            Phase::Loading => PanelModel::Blank,
            Phase::Reserved => PanelModel::Prompt,
            Phase::OpenEligible => PanelModel::Progress {
                step: 0,
                note: "Make an open to propose the space for auction"@,
                current_bid: None,
                form: Some(Form { kind: FormKind::Open, ready: funds_ready(s) }),
            },
            Phase::PreAuction => PanelModel::Progress {
                step: 1,
                note: "Make a bid to improve the chance of moving the space to auction"@,
                current_bid: None,
                form: Some(Form { kind: FormKind::Bid, ready: funds_ready(s) }),
            },
            Phase::AuctionActive => PanelModel::Progress {
                step: 2,
                note: "Auction ends "@ + estimate_text(
                    observation->0->0->claim_height->0,
                    tip_height,
                ),
                current_bid: None,
                form: Some(Form { kind: FormKind::Bid, ready: funds_ready(s) }),
            },
            Phase::Claimable => PanelModel::Progress {
                step: 3,
                note: "You can claim the space"@,
                current_bid: None,
                form: Some(
                    Form { kind: FormKind::Claim, ready: fee_rate_of_text(s.fee_rate) is Some },
                ),
            },
            Phase::ClaimableByOther => PanelModel::Progress {
                step: 3,
                note: "The auction is ended, but you still can outbid"@,
                current_bid: Some(observation->0->0->total_burned),
                form: Some(Form { kind: FormKind::Bid, ready: funds_ready(s) }),
            },
            Phase::Owned => PanelModel::Progress {
                step: 4,
                note: "The space registration expires "@ + estimate_text(
                    observation->0->0->expire_height,
                    tip_height,
                ),
                current_bid: None,
                form: Some(Form { kind: FormKind::Send, ready: false }),
            },
            Phase::RegisteredByOther => PanelModel::Progress {
                step: 4,
                note: "The space registration expires "@ + estimate_text(
                    observation->0->0->expire_height,
                    tip_height,
                ),
                current_bid: None,
                form: None,
            },
        },
    }
}

/// Whether the amount and the fee rate hold what their filters let pass.
pub open spec fn is_filtered(s: StateModel) -> bool {
    all_digits(s.amount) && all_fee_rate_chars(s.fee_rate)
}

/// The fields of a screen that was just opened pass their filters, and no
/// message puts anything into a field that its filter would refuse. The label
/// field passes its filter from the first time that a label is typed.
pub proof fn lemma_fields_stay_filtered(s: StateModel, message: Message, slabel: Seq<char>)
    ensures
        is_filtered(opened_on(slabel)),
        is_filtered(s) ==> is_filtered(next_state(s, message)),
        all_slabel_chars(s.slabel) ==> all_slabel_chars(next_state(s, message).slabel),
        message matches Message::SlabelInput(typed) ==> (next_state(s, message).slabel
            != s.slabel ==> all_slabel_chars(next_state(s, message).slabel)),
{
}

/// A form is shown exactly where the wallet may do something, and it is the
/// form of what it may do; the form to send a space on, which cannot be
/// submitted yet, is shown to its owner.
pub proof fn lemma_form_follows_phase(
    s: StateModel,
    tip_height: u32,
    observation: Option<Option<Covenant>>,
    is_owned: bool,
)
    ensures
        ({
            let phase = phase_of(observation, tip_height, is_owned);
            let panel = panel_of(s, tip_height, Some(observation), is_owned);
            match action_in(phase) {
                Action::Open => panel matches PanelModel::Progress { form: Some(form), .. }
                    && form.kind == FormKind::Open,
                Action::Bid => panel matches PanelModel::Progress { form: Some(form), .. }
                    && form.kind == FormKind::Bid,
                Action::Register => panel matches PanelModel::Progress { form: Some(form), .. }
                    && form.kind == FormKind::Claim,
                Action::Wait => match panel {
                    PanelModel::Progress { form: Some(form), .. } => phase == Phase::Owned
                        && form.kind == FormKind::Send && !form.ready,
                    _ => true,
                },
            }
        }),
{
}

/// The form to open a space is shown only once the daemon has said that the
/// space does not exist.
pub proof fn lemma_open_form_needs_an_answer(
    s: StateModel,
    tip_height: u32,
    covenant: Option<Option<Option<Covenant>>>,
    is_owned: bool,
)
    ensures
        (panel_of(s, tip_height, covenant, is_owned) matches PanelModel::Progress {
            form: Some(form),
            ..
        } && form.kind == FormKind::Open) <==> covenant == Some(Some(None::<Covenant>)),
{
}

/// A form can be submitted only if submitting it asks for something: while
/// the label field holds a label, a form that is ready gives a task.
pub proof fn lemma_ready_forms_submit(
    s: StateModel,
    tip_height: u32,
    observation: Option<Option<Covenant>>,
    is_owned: bool,
)
    requires
        is_space_label(s.slabel),
    ensures
        match panel_of(s, tip_height, Some(observation), is_owned) {
            PanelModel::Progress { form: Some(form), .. } => form.ready ==> match form.kind {
                FormKind::Open => next_task(s, Message::OpenSubmit) is OpenSpace,
                FormKind::Bid => next_task(s, Message::BidSubmit) is BidSpace,
                FormKind::Claim => next_task(s, Message::ClaimSubmit) is ClaimSpace,
                FormKind::Send => false,
            },
            _ => true,
        },
{
}

impl State {
    pub closed spec fn model(&self) -> StateModel {
        StateModel {
            slabel: self.slabel@,
            amount: self.amount@,
            fee_rate: self.fee_rate@,
            error: opt_text(self.error),
        }
    }

    /// A screen opened on the label `slabel`, which need not be a valid one.
    pub fn new(slabel: String) -> (s: State)
        ensures
            s.model() == opened_on(slabel@),
    {
        State { slabel, amount: String::new(), fee_rate: String::new(), error: None }
    }

    /// Shows `error` beside the form.
    pub fn set_error(&mut self, error: String)
        ensures
            final(self).model() == (StateModel { error: Some(error@), ..old(self).model() }),
    {
        self.error = Some(error)
    }

    /// The label that the label field holds, if it holds a valid one.
    pub fn get_slabel(&self) -> (r: Option<SLabel>)
        ensures
            r is Some <==> is_space_label(self.model().slabel),
            r matches Some(label) ==> label@ == self.model().slabel,
    {
        slabel_from_str(self.slabel.as_str())
    }

    pub fn slabel(&self) -> (s: &str)
        ensures
            s@ == self.model().slabel,
    {
        self.slabel.as_str()
    }

    pub fn amount(&self) -> (s: &str)
        ensures
            s@ == self.model().amount,
    {
        self.amount.as_str()
    }

    pub fn fee_rate(&self) -> (s: &str)
        ensures
            s@ == self.model().fee_rate,
    {
        self.fee_rate.as_str()
    }

    pub fn error(&self) -> (e: Option<&str>)
        ensures
            e is Some <==> self.model().error is Some,
            e matches Some(text) ==> text@ == self.model().error->0,
    {
        match &self.error {
            Some(text) => Some(text.as_str()),
            None => None,
        }
    }

    /// Applies a message to the screen.
    pub fn update(&mut self, message: Message) -> (task: Task)
        ensures
            final(self).model() == next_state(old(self).model(), message),
            task.model() == next_task(old(self).model(), message),
    {
        self.error = None;
        match message {
            Message::SlabelInput(slabel) => {
                if is_slabel_input(slabel.as_str()) {
                    self.slabel = slabel;
                    match self.get_slabel() {
                        Some(slabel) => Task::GetSpaceInfo { slabel },
                        None => Task::Nothing,
                    }
                } else {
                    Task::Nothing
                }
            },
            Message::AmountInput(amount) => {
                if is_amount_input(amount.as_str()) {
                    self.amount = amount;
                }
                Task::Nothing
            },
            Message::FeeRateInput(fee_rate) => {
                if is_fee_rate_input(fee_rate.as_str()) {
                    self.fee_rate = fee_rate;
                }
                Task::Nothing
            },
            Message::OpenSubmit => {
                match (
                    self.get_slabel(),
                    amount_from_str(self.amount.as_str()),
                    fee_rate_from_str(self.fee_rate.as_str()),
                ) {
                    (Some(slabel), Some(amount), Some(fee_rate)) => Task::OpenSpace {
                        slabel,
                        amount,
                        fee_rate,
                    },
                    _ => Task::Nothing,
                }
            },
            Message::BidSubmit => {
                match (
                    self.get_slabel(),
                    amount_from_str(self.amount.as_str()),
                    fee_rate_from_str(self.fee_rate.as_str()),
                ) {
                    (Some(slabel), Some(amount), Some(fee_rate)) => Task::BidSpace {
                        slabel,
                        amount,
                        fee_rate,
                    },
                    _ => Task::Nothing,
                }
            },
            Message::ClaimSubmit => {
                match (self.get_slabel(), fee_rate_from_str(self.fee_rate.as_str())) {
                    (Some(slabel), Some(fee_rate)) => Task::ClaimSpace { slabel, fee_rate },
                    _ => Task::Nothing,
                }
            },
        }
    }

    fn funds_ready(&self) -> (ready: bool)
        ensures
            ready == funds_ready(self.model()),
    {
        amount_from_str(self.amount.as_str()).is_some() && fee_rate_from_str(
            self.fee_rate.as_str(),
        ).is_some()
    }

    /// Decides what the screen shows below the label field.
    pub fn view(
        &self,
        tip_height: u32,
        covenant: Option<Option<Option<Covenant>>>,
        is_owned: bool,
    ) -> (panel: Panel)
        ensures
            panel.model() == panel_of(self.model(), tip_height, covenant, is_owned),
    {
        let observation = match covenant {
            None => {
                return Panel::Prompt;
            },
            Some(observation) => observation,
        };
        match classify(observation, tip_height, is_owned) {
            Phase::Loading => Panel::Blank,
            Phase::Reserved => Panel::Prompt,
            Phase::OpenEligible => Panel::Progress {
                step: 0,
                note: String::from_str("Make an open to propose the space for auction"),
                current_bid: None,
                form: Some(Form { kind: FormKind::Open, ready: self.funds_ready() }),
            },
            Phase::PreAuction => Panel::Progress {
                step: 1,
                note: String::from_str(
                    "Make a bid to improve the chance of moving the space to auction",
                ),
                current_bid: None,
                form: Some(Form { kind: FormKind::Bid, ready: self.funds_ready() }),
            },
            Phase::AuctionActive => {
                let height = match observation {
                    Some(Some(Covenant::Bid { total_burned: _, claim_height: Some(height) })) => height,
                    _ => 0,
                };
                let mut note = String::from_str("Auction ends ");
                let est = height_to_est(height, tip_height);
                note.append(est.as_str());
                Panel::Progress {
                    step: 2,
                    note,
                    current_bid: None,
                    form: Some(Form { kind: FormKind::Bid, ready: self.funds_ready() }),
                }
            },
            Phase::Claimable => Panel::Progress {
                step: 3,
                note: String::from_str("You can claim the space"),
                current_bid: None,
                form: Some(
                    Form {
                        kind: FormKind::Claim,
                        ready: fee_rate_from_str(self.fee_rate.as_str()).is_some(),
                    },
                ),
            },
            Phase::ClaimableByOther => {
                let total_burned = match observation {
                    Some(Some(Covenant::Bid { total_burned, claim_height: _ })) => total_burned,
                    _ => Amount { sat: 0 },
                };
                Panel::Progress {
                    step: 3,
                    note: String::from_str("The auction is ended, but you still can outbid"),
                    current_bid: Some(total_burned),
                    form: Some(Form { kind: FormKind::Bid, ready: self.funds_ready() }),
                }
            },
            Phase::Owned => {
                let note = expiry_note(observation, tip_height);
                Panel::Progress {
                    step: 4,
                    note,
                    current_bid: None,
                    form: Some(Form { kind: FormKind::Send, ready: false }),
                }
            },
            Phase::RegisteredByOther => {
                let note = expiry_note(observation, tip_height);
                Panel::Progress { step: 4, note, current_bid: None, form: None }
            },
        }
    }
}

fn expiry_note(observation: Option<Option<Covenant>>, tip_height: u32) -> (note: String)
    requires
        observation matches Some(Some(Covenant::Transfer { .. })),
    ensures
        note@ == "The space registration expires "@ + estimate_text(
            observation->0->0->expire_height,
            tip_height,
        ),
{
    let height = match observation {
        Some(Some(Covenant::Transfer { expire_height })) => expire_height,
        _ => 0,
    };
    let mut note = String::from_str("The space registration expires ");
    let est = height_to_est(height, tip_height);
    note.append(est.as_str());
    note
}

} // verus!
