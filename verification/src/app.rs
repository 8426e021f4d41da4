//! The application as a state machine: a message comes in, the state changes,
//! and commands come out for whoever runs the machine to carry out. A call of
//! the daemon is such a command; its answer comes back as a message.

use vstd::prelude::*;
use crate::rpc::{
    call_for, call_of, RpcCall, RpcCallModel, RpcError, RpcErrorModel, RpcRequest,
    RpcRequestModel, RpcResponse,
};
use crate::screen::{home, receive, send, space, transactions};
use crate::store::{
    labels_of, observation_of, observe_each, owned_projection, space_views, tx_views,
    fresh_wallet, Address, AddressKind, Store, StoreModel, Wallet, WalletModel,
};
use crate::text::{opt_text, same_text};
use crate::types::{is_space_label, Covenant};
use crate::widget::icon::Icon;

verus! {

/// Seconds between two polls of the daemon.
pub const POLL_SECONDS: u64 = 5;

/// Where the user can go.
#[derive(Clone, Debug)]
pub enum Route {
    Home,
    Send,
    Receive,
    /// The screen of a space, opened on the given name, which may be empty.
    Space(String),
    Transactions,
}

pub enum RouteModel {
    Home,
    Send,
    Receive,
    Space(Seq<char>),
    Transactions,
}

impl Route {
    pub open spec fn model(&self) -> RouteModel {
        match self {
            Route::Home => RouteModel::Home,
            Route::Send => RouteModel::Send,
            Route::Receive => RouteModel::Receive,
            Route::Space(name) => RouteModel::Space(name@),
            Route::Transactions => RouteModel::Transactions,
        }
    }
}

#[derive(Debug)]
pub enum Message {
    RpcRequest(RpcRequest),
    RpcResponse(RpcResponse),
    NavigateTo(Route),
    ScreenHome(home::Message),
    ScreenSend(send::Message),
    ScreenReceive(receive::Message),
    ScreenSpace(space::Message),
    ScreenTransactions(transactions::Message),
}

/// The screen that is shown, with what it holds.
#[derive(Clone, Debug)]
pub enum Screen {
    Home,
    Send(send::State),
    Receive(receive::State),
    Space(space::State),
    Transactions,
}

pub enum ScreenModel {
    Home,
    Send(send::StateModel),
    Receive(receive::State),
    Space(space::StateModel),
    Transactions,
}

impl Screen {
    pub open spec fn model(&self) -> ScreenModel {
        match self {
            Screen::Home => ScreenModel::Home,
            Screen::Send(state) => ScreenModel::Send(state.model()),
            Screen::Receive(state) => ScreenModel::Receive(*state),
            Screen::Space(state) => ScreenModel::Space(state.model()),
            Screen::Transactions => ScreenModel::Transactions,
        }
    }
}

/// What is to be done after a message.
#[derive(Clone, Debug)]
pub enum Command {
    /// Go to a route: hand `Message::NavigateTo` back.
    Navigate(Route),
    /// Ask the daemon: hand `Message::RpcRequest` back.
    Request(RpcRequest),
    /// Call the daemon, and hand its answer back as `Message::RpcResponse`.
    Call(RpcCall),
    /// Put a text on the clipboard.
    WriteClipboard(String),
}

pub enum CommandModel {
    Navigate(RouteModel),
    Request(RpcRequestModel),
    Call(RpcCallModel),
    WriteClipboard(Seq<char>),
}

impl Command {
    pub open spec fn model(&self) -> CommandModel {
        match self {
            Command::Navigate(route) => CommandModel::Navigate(route.model()),
            Command::Request(request) => CommandModel::Request(request.model()),
            Command::Call(call) => CommandModel::Call(call.model()),
            Command::WriteClipboard(text) => CommandModel::WriteClipboard(text@),
        }
    }
}

/// A list of commands as plain values.
pub open spec fn command_models(commands: Seq<Command>) -> Seq<CommandModel> {
    Seq::new(commands.len(), |i: int| commands[i].model())
}

/// The application: the error of the session, if there is one, the cache, and
/// the screen.
#[derive(Clone, Debug)]
pub struct App {
    pub rpc_error: Option<String>,
    pub store: Store,
    pub screen: Screen,
}

pub struct AppModel {
    pub rpc_error: Option<Seq<char>>,
    pub store: StoreModel,
    pub screen: ScreenModel,
}

/// The application as it starts: no error, nothing cached, the first screen.
pub open spec fn initial() -> AppModel {
    AppModel {
        rpc_error: None,
        store: StoreModel {
            tip_height: 0,
            wallet: None,
            spaces: crate::store::nothing_observed(),
        },
        screen: ScreenModel::Home,
    }
}

/// The name of the loaded wallet.
pub open spec fn wallet_name(store: StoreModel) -> Option<Seq<char>> {
    match store.wallet {
        Some(wallet) => Some(wallet.name),
        None => None,
    }
}

/// Whether the loaded wallet is the one called `name`.
pub open spec fn is_current(store: StoreModel, name: Seq<char>) -> bool {
    store.wallet is Some && store.wallet->0.name == name
}

/// The state with the session's error set to the words of `error`.
pub open spec fn with_banner(s: AppModel, error: RpcErrorModel) -> AppModel {
    AppModel { rpc_error: Some(error.message()), ..s }
}

/// The state with the loaded wallet replaced by `wallet`.
pub open spec fn with_wallet(s: AppModel, wallet: WalletModel) -> AppModel {
    AppModel { store: StoreModel { wallet: Some(wallet), ..s.store }, ..s }
}

/// The screens that submit a form to the daemon.
#[derive(Clone, Copy, Debug, PartialEq, Eq, Structural)]
pub enum FormScreen {
    Send,
    Space,
}

/// The screen with `message` shown beside its form, where it is the screen
/// that the form belongs to; any other screen is left as it is.
pub open spec fn with_form_error(screen: ScreenModel, form: FormScreen, message: Seq<char>) -> ScreenModel {
    match screen {
        ScreenModel::Send(state) => if form == FormScreen::Send {
            ScreenModel::Send(send::StateModel { error: Some(message), ..state })
        } else {
            screen
        },
        ScreenModel::Space(state) => if form == FormScreen::Space {
            ScreenModel::Space(space::StateModel { error: Some(message), ..state })
        } else {
            screen
        },
        _ => screen,
    }
}

/// The state after the answer to a submitted form. An error that the user
/// can correct goes beside the form; any other error becomes the session's.
pub open spec fn after_submit(s: AppModel, result: Result<(), RpcError>, form: FormScreen) -> AppModel {
    match result {
        Ok(_) => s,
        Err(error) => if error.model().is_local() {
            AppModel { screen: with_form_error(s.screen, form, error.model().message()), ..s }
        } else {
            with_banner(s, error.model())
        },
    }
}

/// The commands after the answer to a submitted form: once it went through,
/// the transactions are shown.
pub open spec fn commands_after_submit(result: Result<(), RpcError>) -> Seq<CommandModel> {
    match result {
        Ok(_) => seq![CommandModel::Navigate(RouteModel::Transactions)],
        Err(_) => Seq::empty(),
    }
}

/// The state after an answer of the daemon. Every answer clears the error of
/// the session; an answer that is an error sets it anew, unless it belongs
/// beside a form. What an answer brings replaces what the cache held: the
/// tip's height, the observation of a space, or one part of the wallet. An
/// answer that names a wallet is taken only while that wallet is still the
/// loaded one; otherwise it is dropped as a whole. The wallet's spaces are
/// recorded with their covenants as they replace the wallet's list.
pub open spec fn after_response(s: AppModel, response: RpcResponse) -> AppModel {
    let s = AppModel { rpc_error: None, ..s };
    match response {
        RpcResponse::GetServerInfo { result } => match result {
            Ok(height) => AppModel { store: StoreModel { tip_height: height, ..s.store }, ..s },
            Err(error) => with_banner(s, error.model()),
        },
        RpcResponse::GetSpaceInfo { slabel, result } => match result {
            Ok(covenant) => AppModel {
                store: StoreModel { spaces: s.store.spaces.insert(slabel@, covenant), ..s.store },
                ..s
            },
            Err(error) => with_banner(s, error.model()),
        },
        RpcResponse::LoadWallet { wallet, result } => match result {
            Ok(_) => with_wallet(s, fresh_wallet(wallet@)),
            Err(error) => with_banner(s, error.model()),
        },
        RpcResponse::GetBalance { wallet, result } => match result {
            Ok(balance) => if is_current(s.store, wallet@) {
                with_wallet(s, WalletModel { balance, ..s.store.wallet->0 })
            } else {
                s
            },
            Err(error) => with_banner(s, error.model()),
        },
        RpcResponse::GetTransactions { wallet, result } => match result {
            Ok(transactions) => if is_current(s.store, wallet@) {
                with_wallet(
                    s,
                    WalletModel { transactions: tx_views(transactions@), ..s.store.wallet->0 },
                )
            } else {
                s
            },
            Err(error) => with_banner(s, error.model()),
        },
        RpcResponse::GetWalletSpaces { wallet, result } => match result {
            Ok(spaces) => {
                let list = space_views(spaces@);
                if is_current(s.store, wallet@) {
                    AppModel {
                        store: StoreModel {
                            wallet: Some(
                                WalletModel { spaces: labels_of(list), ..s.store.wallet->0 },
                            ),
                            spaces: observe_each(s.store.spaces, list),
                            ..s.store
                        },
                        ..s
                    }
                } else {
                    s
                }
            },
            Err(error) => with_banner(s, error.model()),
        },
        RpcResponse::GetAddress { wallet, address_kind, result } => match result {
            Ok(address) => if is_current(s.store, wallet@) {
                match address_kind {
                    AddressKind::Coin => with_wallet(
                        s,
                        WalletModel { coin_address: Some(address@), ..s.store.wallet->0 },
                    ),
                    AddressKind::Space => with_wallet(
                        s,
                        WalletModel { space_address: Some(address@), ..s.store.wallet->0 },
                    ),
                }
            } else {
                s
            },
            Err(error) => with_banner(s, error.model()),
        },
        RpcResponse::SendCoins { result } => after_submit(s, result, FormScreen::Send),
        RpcResponse::OpenSpace { result } => after_submit(s, result, FormScreen::Space),
        RpcResponse::BidSpace { result } => after_submit(s, result, FormScreen::Space),
        RpcResponse::RegisterSpace { result } => after_submit(s, result, FormScreen::Space),
    }
}

/// The commands after an answer of the daemon: a wallet that was loaded is
/// shown on the first screen, a form that went through leads to the
/// transactions, and nothing else follows.
pub open spec fn commands_after_response(response: RpcResponse) -> Seq<CommandModel> {
    match response {
        RpcResponse::LoadWallet { wallet, result } => match result {
            Ok(_) => seq![CommandModel::Navigate(RouteModel::Home)],
            Err(_) => Seq::empty(),
        },
        RpcResponse::SendCoins { result } => commands_after_submit(result),
        RpcResponse::OpenSpace { result } => commands_after_submit(result),
        RpcResponse::BidSpace { result } => commands_after_submit(result),
        RpcResponse::RegisterSpace { result } => commands_after_submit(result),
        _ => Seq::empty(),
    }
}

/// The screen that a route opens. Whatever the screen before held is gone.
pub open spec fn screen_of(route: RouteModel) -> ScreenModel {
    match route {
        RouteModel::Home => ScreenModel::Home,
        RouteModel::Send => ScreenModel::Send(send::blank()),
        RouteModel::Receive => ScreenModel::Receive(receive::State { coin_address: false }),
        RouteModel::Space(name) => ScreenModel::Space(space::opened_on(name)),
        RouteModel::Transactions => ScreenModel::Transactions,
    }
}

/// What a route asks of the daemon as it opens its screen: the first screen
/// the balance and the wallet's spaces, the receive screen an address of each
/// kind, the transactions screen the transactions, and the screen of a space
/// what is known of the space, where the name is a valid label.
pub open spec fn requests_of(route: RouteModel) -> Seq<CommandModel> {
    match route {
        RouteModel::Home => seq![
            CommandModel::Request(RpcRequestModel::GetBalance),
            CommandModel::Request(RpcRequestModel::GetWalletSpaces),
        ],
        RouteModel::Send => Seq::empty(),
        RouteModel::Receive => seq![
            CommandModel::Request(RpcRequestModel::GetAddress { address_kind: AddressKind::Coin }),
            CommandModel::Request(
                RpcRequestModel::GetAddress { address_kind: AddressKind::Space },
            ),
        ],
        RouteModel::Space(name) => if is_space_label(name) {
            seq![CommandModel::Request(RpcRequestModel::GetSpaceInfo { slabel: name })]
        } else {
            Seq::empty()
        },
        RouteModel::Transactions => seq![CommandModel::Request(RpcRequestModel::GetTransactions)],
    }
}

/// The request that a task of the send screen becomes.
pub open spec fn commands_of_send(task: send::TaskModel) -> Seq<CommandModel> {
    match task {
        send::TaskModel::Nothing => Seq::empty(),
        send::TaskModel::SendCoins { recipient, amount } => seq![
            CommandModel::Request(RpcRequestModel::SendCoins { recipient, amount }),
        ],
    }
}

/// The command that a task of the receive screen becomes.
pub open spec fn commands_of_receive(task: receive::TaskModel) -> Seq<CommandModel> {
    match task {
        receive::TaskModel::Nothing => Seq::empty(),
        receive::TaskModel::WriteClipboard(text) => seq![CommandModel::WriteClipboard(text)],
    }
}

/// The request that a task of the space screen becomes. The fee is left to
/// the daemon, whatever the screen's field held.
pub open spec fn commands_of_space(task: space::TaskModel) -> Seq<CommandModel> {
    match task {
        space::TaskModel::Nothing => Seq::empty(),
        space::TaskModel::GetSpaceInfo { slabel } => seq![
            CommandModel::Request(RpcRequestModel::GetSpaceInfo { slabel }),
        ],
        space::TaskModel::OpenSpace { slabel, amount, fee_rate } => seq![
            CommandModel::Request(RpcRequestModel::OpenSpace { slabel, amount }),
        ],
        space::TaskModel::BidSpace { slabel, amount, fee_rate } => seq![
            CommandModel::Request(RpcRequestModel::BidSpace { slabel, amount }),
        ],
        space::TaskModel::ClaimSpace { slabel, fee_rate } => seq![
            CommandModel::Request(RpcRequestModel::RegisterSpace { slabel }),
        ],
    }
}

/// The state after a message. A request changes nothing. An answer changes
/// the cache or sets an error. A route replaces the screen. A message of a
/// screen reaches it only while it is the screen that is shown.
pub open spec fn next_state(s: AppModel, message: Message) -> AppModel {
    match message {
        Message::RpcRequest(_) => s,
        Message::RpcResponse(response) => after_response(s, response),
        Message::NavigateTo(route) => AppModel { screen: screen_of(route.model()), ..s },
        Message::ScreenHome(_) => s,
        Message::ScreenSend(m) => match s.screen {
            ScreenModel::Send(state) => AppModel {
                screen: ScreenModel::Send(send::next_state(state, m)),
                ..s
            },
            _ => s,
        },
        Message::ScreenReceive(m) => match s.screen {
            ScreenModel::Receive(state) => AppModel {
                screen: ScreenModel::Receive(receive::next_state(state, m)),
                ..s
            },
            _ => s,
        },
        Message::ScreenSpace(m) => match s.screen {
            ScreenModel::Space(state) => AppModel {
                screen: ScreenModel::Space(space::next_state(state, m)),
                ..s
            },
            _ => s,
        },
        Message::ScreenTransactions(_) => s,
    }
}

/// The commands after a message.
pub open spec fn next_commands(s: AppModel, message: Message) -> Seq<CommandModel> {
    match message {
        Message::RpcRequest(request) => match call_for(wallet_name(s.store), request.model()) {
            Some(call) => seq![CommandModel::Call(call)],
            None => Seq::empty(),
        },
        Message::RpcResponse(response) => commands_after_response(response),
        Message::NavigateTo(route) => requests_of(route.model()),
        Message::ScreenHome(m) => match m {
            home::Message::SpaceClicked { space_name } => seq![
                CommandModel::Navigate(RouteModel::Space(space_name@)),
            ],
        },
        Message::ScreenSend(m) => match s.screen {
            ScreenModel::Send(state) => commands_of_send(send::next_task(state, m)),
            _ => Seq::empty(),
        },
        Message::ScreenReceive(m) => match s.screen {
            ScreenModel::Receive(_) => commands_of_receive(receive::next_task(m)),
            _ => Seq::empty(),
        },
        Message::ScreenSpace(m) => match s.screen {
            ScreenModel::Space(state) => commands_of_space(space::next_task(state, m)),
            _ => Seq::empty(),
        },
        Message::ScreenTransactions(m) => match m {
            transactions::Message::TxidCopyPress { txid } => seq![
                CommandModel::WriteClipboard(txid@),
            ],
        },
    }
}

/// What is asked of the daemon every `POLL_SECONDS`: nothing while no wallet
/// is loaded or an error of the session is shown; otherwise the transactions
/// on their screen, and the server's state on any other.
pub open spec fn poll_of(s: AppModel) -> Option<RpcRequestModel> {
    if s.store.wallet is Some && s.rpc_error is None {
        match s.screen {
            ScreenModel::Transactions => Some(RpcRequestModel::GetTransactions),
            _ => Some(RpcRequestModel::GetServerInfo),
        }
    } else {
        None
    }
}

/// The tabs of the navigation bar, from top to bottom.
#[derive(Clone, Copy, Debug, PartialEq, Eq, Structural)]
pub enum Tab {
    Home,
    Send,
    Receive,
    Space,
    Transactions,
}

/// A button of the navigation bar, and whether it is the one of the screen
/// that is shown.
#[derive(Clone, Copy, Debug, PartialEq, Eq, Structural)]
pub struct NavButton {
    pub tab: Tab,
    pub is_current: bool,
}

/// The tab that a screen belongs to.
pub open spec fn tab_of(screen: ScreenModel) -> Tab {
    match screen {
        ScreenModel::Home => Tab::Home,
        ScreenModel::Send(_) => Tab::Send,
        ScreenModel::Receive(_) => Tab::Receive,
        ScreenModel::Space(_) => Tab::Space,
        ScreenModel::Transactions => Tab::Transactions,
    }
}

/// The button of `tab` while `screen` is shown.
pub open spec fn button_of(tab: Tab, screen: ScreenModel) -> NavButton {
    NavButton { tab, is_current: tab == tab_of(screen) }
}

/// The route that a tab leads to; the tab of the spaces opens the screen of a
/// space on no name.
pub open spec fn route_of(tab: Tab) -> RouteModel {
    match tab {
        Tab::Home => RouteModel::Home,
        Tab::Send => RouteModel::Send,
        Tab::Receive => RouteModel::Receive,
        Tab::Space => RouteModel::Space(Seq::empty()),
        Tab::Transactions => RouteModel::Transactions,
    }
}

impl Tab {
    /// The words on the tab's button.
    pub fn label(self) -> (label: &'static str)
        ensures
            label@ == (match self {
                Tab::Home => "Home"@,
                Tab::Send => "Send"@,
                Tab::Receive => "Receive"@,
                Tab::Space => "Space"@,
                Tab::Transactions => "Transactions"@,
            }),
    {
        match self {
            Tab::Home => "Home",
            Tab::Send => "Send",
            Tab::Receive => "Receive",
            Tab::Space => "Space",
            Tab::Transactions => "Transactions",
        }
    }

    /// The icon on the tab's button.
    pub fn icon(self) -> (icon: Icon)
        ensures
            icon == (match self {
                Tab::Home => Icon::Artboard,
                Tab::Send => Icon::ArrowDownFromArc,
                Tab::Receive => Icon::ArrowDownToArc,
                Tab::Space => Icon::At,
                Tab::Transactions => Icon::ArrowsExchange,
            }),
    {
        match self {
            Tab::Home => Icon::Artboard,
            Tab::Send => Icon::ArrowDownFromArc,
            Tab::Receive => Icon::ArrowDownToArc,
            Tab::Space => Icon::At,
            Tab::Transactions => Icon::ArrowsExchange,
        }
    }

    /// Where the tab's button leads.
    pub fn route(self) -> (route: Route)
        ensures
            route.model() == route_of(self),
    {
        match self {
            Tab::Home => Route::Home,
            Tab::Send => Route::Send,
            Tab::Receive => Route::Receive,
            Tab::Space => Route::Space(String::new()),
            Tab::Transactions => Route::Transactions,
        }
    }
}

impl Screen {
    /// The tab that this screen belongs to.
    pub fn tab(&self) -> (tab: Tab)
        ensures
            tab == tab_of(self.model()),
    {
        match self {
            Screen::Home => Tab::Home,
            Screen::Send(_) => Tab::Send,
            Screen::Receive(_) => Tab::Receive,
            Screen::Space(_) => Tab::Space,
            Screen::Transactions => Tab::Transactions,
        }
    }
}

/// Lays out the navigation bar: the five tabs, of which the one of the screen
/// that is shown is marked.
pub fn navbar(screen: &Screen) -> (buttons: Vec<NavButton>)
    ensures
        buttons@ == seq![
            button_of(Tab::Home, screen.model()),
            button_of(Tab::Send, screen.model()),
            button_of(Tab::Receive, screen.model()),
            button_of(Tab::Space, screen.model()),
            button_of(Tab::Transactions, screen.model()),
        ],
{
    let current = screen.tab();
    let mut buttons: Vec<NavButton> = Vec::new();
    buttons.push(NavButton { tab: Tab::Home, is_current: current == Tab::Home });
    buttons.push(NavButton { tab: Tab::Send, is_current: current == Tab::Send });
    buttons.push(NavButton { tab: Tab::Receive, is_current: current == Tab::Receive });
    buttons.push(NavButton { tab: Tab::Space, is_current: current == Tab::Space });
    buttons.push(NavButton { tab: Tab::Transactions, is_current: current == Tab::Transactions });
    assert(buttons@ =~= seq![
        button_of(Tab::Home, screen.model()),
        button_of(Tab::Send, screen.model()),
        button_of(Tab::Receive, screen.model()),
        button_of(Tab::Space, screen.model()),
        button_of(Tab::Transactions, screen.model()),
    ]);
    buttons
}

/// What a screen shows of the cache.
#[derive(Clone, Debug)]
pub enum Content {
    Home(home::Home),
    /// The form to send; it shows nothing of the cache.
    Send,
    /// The address to receive at, or nothing while it is awaited.
    Receive(Option<String>),
    Space(space::Panel),
    Transactions(Vec<transactions::Row>),
}

/// The window: the error of the session, if there is one, above the screen.
/// While no wallet is loaded there is no screen, and the window says that it
/// is loading.
#[derive(Clone, Debug)]
pub struct Page {
    pub error: Option<String>,
    pub main: Option<Content>,
}

/// What the screen of a space is told of the space in its label field:
/// nothing where the field holds no valid label, otherwise what the cache
/// knows of the label.
pub open spec fn space_lookup(store: StoreModel, label: Seq<char>) -> Option<
    Option<Option<Covenant>>,
> {
    if is_space_label(label) {
        Some(observation_of(store.spaces, label))
    } else {
        None
    }
}

/// Whether the label field of the space screen holds a label that the wallet
/// lists among its spaces.
pub open spec fn space_is_owned(store: StoreModel, label: Seq<char>) -> bool {
    is_space_label(label) && store.wallet is Some && store.wallet->0.spaces.contains(label)
}

/// Whether `content` is what the screen of `s` shows of the cache of `s`, in
/// which a wallet is loaded.
pub open spec fn shows(content: Content, s: AppModel) -> bool {
    let wallet = s.store.wallet->0;
    match s.screen {
        ScreenModel::Home => content matches Content::Home(shown) && home::shows(
            shown,
            wallet.balance,
            s.store.tip_height,
            owned_projection(wallet.spaces, s.store.spaces),
        ),
        ScreenModel::Send(_) => content is Send,
        ScreenModel::Receive(state) => content matches Content::Receive(address) && opt_text(
            address,
        ) == (if state.coin_address {
            wallet.coin_address
        } else {
            wallet.space_address
        }),
        ScreenModel::Space(state) => content matches Content::Space(panel) && panel.model()
            == space::panel_of(
            state,
            s.store.tip_height,
            space_lookup(s.store, state.slabel),
            space_is_owned(s.store, state.slabel),
        ),
        ScreenModel::Transactions => content matches Content::Transactions(rows)
            && transactions::row_models(rows@) == Seq::new(
            wallet.transactions.len(),
            |i: int| transactions::row_of(wallet.transactions[i]),
        ),
    }
}

fn no_commands() -> (commands: Vec<Command>)
    ensures
        command_models(commands@) == Seq::<CommandModel>::empty(),
{
    let commands: Vec<Command> = Vec::new();
    assert(command_models(commands@) =~= Seq::<CommandModel>::empty());
    commands
}

fn one_command(command: Command) -> (commands: Vec<Command>)
    ensures
        command_models(commands@) == seq![command.model()],
{
    let mut commands: Vec<Command> = Vec::new();
    commands.push(command);
    assert(command_models(commands@) =~= seq![command.model()]);
    commands
}

fn two_commands(first: Command, second: Command) -> (commands: Vec<Command>)
    ensures
        command_models(commands@) == seq![first.model(), second.model()],
{
    let mut commands: Vec<Command> = Vec::new();
    commands.push(first);
    commands.push(second);
    assert(command_models(commands@) =~= seq![first.model(), second.model()]);
    commands
}

impl App {
    pub open spec fn model(&self) -> AppModel {
        AppModel {
            rpc_error: opt_text(self.rpc_error),
            store: self.store@,
            screen: self.screen.model(),
        }
    }

    /// The application as it starts, and the request to load the wallet
    /// called `wallet`.
    pub fn new(wallet: String) -> (r: (App, Vec<Command>))
        ensures
            r.0.model() == initial(),
            command_models(r.1@) == seq![
                CommandModel::Request(RpcRequestModel::LoadWallet { wallet: wallet@ }),
            ],
    {
        let app = App { rpc_error: None, store: Store::new(), screen: Screen::Home };
        (app, one_command(Command::Request(RpcRequest::LoadWallet { wallet })))
    }

    /// The title of the window.
    pub fn title(&self) -> (title: String)
        ensures
            title@ == "Spaces Wallet"@,
    {
        String::from_str("Spaces Wallet")
    }

    fn submitted(&mut self, result: Result<(), RpcError>, form: FormScreen) -> (commands: Vec<
        Command,
    >)
        ensures
            final(self).model() == after_submit(old(self).model(), result, form),
            command_models(commands@) == commands_after_submit(result),
    {
        match result {
            Ok(_) => one_command(Command::Navigate(Route::Transactions)),
            Err(error) => {
                if error.is_local() {
                    let message = error.into_message();
                    match &mut self.screen {
                        Screen::Send(state) => {
                            if form == FormScreen::Send {
                                state.set_error(message);
                            }
                        },
                        Screen::Space(state) => {
                            if form == FormScreen::Space {
                                state.set_error(message);
                            }
                        },
                        _ => {},
                    }
                } else {
                    self.rpc_error = Some(error.into_message());
                }
                no_commands()
            },
        }
    }

    fn respond(&mut self, response: RpcResponse) -> (commands: Vec<Command>)
        ensures
            final(self).model() == after_response(old(self).model(), response),
            command_models(commands@) == commands_after_response(response),
    {
        self.rpc_error = None;
        match response {
            RpcResponse::GetServerInfo { result } => {
                match result {
                    Ok(height) => {
                        self.store.tip_height = height;
                    },
                    Err(error) => {
                        self.rpc_error = Some(error.into_message());
                    },
                }
                no_commands()
            },
            RpcResponse::GetSpaceInfo { slabel, result } => {
                match result {
                    Ok(covenant) => {
                        self.store.observe_space(&slabel, covenant);
                    },
                    Err(error) => {
                        self.rpc_error = Some(error.into_message());
                    },
                }
                no_commands()
            },
            RpcResponse::LoadWallet { wallet, result } => match result {
                Ok(_) => {
                    self.store.wallet = Some(Wallet::new(wallet));
                    one_command(Command::Navigate(Route::Home))
                },
                Err(error) => {
                    self.rpc_error = Some(error.into_message());
                    no_commands()
                },
            },
            RpcResponse::GetBalance { wallet, result } => {
                match result {
                    Ok(balance) => {
                        match &mut self.store.wallet {
                            Some(current) => {
                                if same_text(current.name.as_str(), wallet.as_str()) {
                                    current.balance = balance;
                                }
                            },
                            None => {},
                        }
                    },
                    Err(error) => {
                        self.rpc_error = Some(error.into_message());
                    },
                }
                no_commands()
            },
            RpcResponse::GetTransactions { wallet, result } => {
                match result {
                    Ok(transactions) => {
                        match &mut self.store.wallet {
                            Some(current) => {
                                if same_text(current.name.as_str(), wallet.as_str()) {
                                    current.transactions = transactions;
                                }
                            },
                            None => {},
                        }
                    },
                    Err(error) => {
                        self.rpc_error = Some(error.into_message());
                    },
                }
                no_commands()
            },
            RpcResponse::GetWalletSpaces { wallet, result } => {
                match result {
                    Ok(spaces) => {
                        if self.store.is_current(wallet.as_str()) {
                            let labels = self.store.observe_all(&spaces);
                            match &mut self.store.wallet {
                                Some(current) => {
                                    current.spaces = labels;
                                },
                                None => {},
                            }
                        }
                    },
                    Err(error) => {
                        self.rpc_error = Some(error.into_message());
                    },
                }
                no_commands()
            },
            RpcResponse::GetAddress { wallet, address_kind, result } => {
                match result {
                    Ok(address) => {
                        match &mut self.store.wallet {
                            Some(current) => {
                                if same_text(current.name.as_str(), wallet.as_str()) {
                                    let address = Address::new(address);
                                    match address_kind {
                                        AddressKind::Coin => {
                                            current.coin_address = Some(address);
                                        },
                                        AddressKind::Space => {
                                            current.space_address = Some(address);
                                        },
                                    }
                                }
                            },
                            None => {},
                        }
                    },
                    Err(error) => {
                        self.rpc_error = Some(error.into_message());
                    },
                }
                no_commands()
            },
            RpcResponse::SendCoins { result } => self.submitted(result, FormScreen::Send),
            RpcResponse::OpenSpace { result } => self.submitted(result, FormScreen::Space),
            RpcResponse::BidSpace { result } => self.submitted(result, FormScreen::Space),
            RpcResponse::RegisterSpace { result } => self.submitted(result, FormScreen::Space),
        }
    }

    fn navigate(&mut self, route: Route) -> (commands: Vec<Command>)
        ensures
            final(self).model() == (AppModel {
                screen: screen_of(route.model()),
                ..old(self).model()
            }),
            command_models(commands@) == requests_of(route.model()),
    {
        match route {
            Route::Home => {
                self.screen = Screen::Home;
                two_commands(
                    Command::Request(RpcRequest::GetBalance),
                    Command::Request(RpcRequest::GetWalletSpaces),
                )
            },
            Route::Send => {
                self.screen = Screen::Send(send::State::new());
                no_commands()
            },
            Route::Receive => {
                self.screen = Screen::Receive(receive::State::new());
                two_commands(
                    Command::Request(RpcRequest::GetAddress { address_kind: AddressKind::Coin }),
                    Command::Request(RpcRequest::GetAddress { address_kind: AddressKind::Space }),
                )
            },
            Route::Space(space_name) => {
                let state = space::State::new(space_name);
                let slabel = state.get_slabel();
                self.screen = Screen::Space(state);
                match slabel {
                    Some(slabel) => one_command(
                        Command::Request(RpcRequest::GetSpaceInfo { slabel }),
                    ),
                    None => no_commands(),
                }
            },
            Route::Transactions => {
                self.screen = Screen::Transactions;
                one_command(Command::Request(RpcRequest::GetTransactions))
            },
        }
    }

    /// Applies a message: changes the state, and says what is to be done.
    pub fn update(&mut self, message: Message) -> (commands: Vec<Command>)
        ensures
            final(self).model() == next_state(old(self).model(), message),
            command_models(commands@) == next_commands(old(self).model(), message),
    {
        match message {
            Message::RpcRequest(request) => {
                match call_of(self.store.get_wallet_name(), request) {
                    Some(call) => one_command(Command::Call(call)),
                    None => no_commands(),
                }
            },
            Message::RpcResponse(response) => self.respond(response),
            Message::NavigateTo(route) => self.navigate(route),
            Message::ScreenHome(message) => match message {
                home::Message::SpaceClicked { space_name } => one_command(
                    Command::Navigate(Route::Space(space_name)),
                ),
            },
            Message::ScreenSend(message) => match &mut self.screen {
                Screen::Send(state) => match send::update(state, message) {
                    send::Task::SendCoins { recipient, amount } => one_command(
                        Command::Request(RpcRequest::SendCoins { recipient, amount }),
                    ),
                    send::Task::Nothing => no_commands(),
                },
                _ => no_commands(),
            },
            Message::ScreenReceive(message) => match &mut self.screen {
                Screen::Receive(state) => match state.update(message) {
                    receive::Task::WriteClipboard(text) => one_command(
                        Command::WriteClipboard(text),
                    ),
                    receive::Task::Nothing => no_commands(),
                },
                _ => no_commands(),
            },
            Message::ScreenSpace(message) => match &mut self.screen {
                Screen::Space(state) => match state.update(message) {
                    space::Task::GetSpaceInfo { slabel } => one_command(
                        Command::Request(RpcRequest::GetSpaceInfo { slabel }),
                    ),
                    space::Task::OpenSpace { slabel, amount, fee_rate: _ } => one_command(
                        Command::Request(RpcRequest::OpenSpace { slabel, amount }),
                    ),
                    space::Task::BidSpace { slabel, amount, fee_rate: _ } => one_command(
                        Command::Request(RpcRequest::BidSpace { slabel, amount }),
                    ),
                    space::Task::ClaimSpace { slabel, fee_rate: _ } => one_command(
                        Command::Request(RpcRequest::RegisterSpace { slabel }),
                    ),
                    space::Task::Nothing => no_commands(),
                },
                _ => no_commands(),
            },
            Message::ScreenTransactions(message) => match message {
                transactions::Message::TxidCopyPress { txid } => one_command(
                    Command::WriteClipboard(txid),
                ),
            },
        }
    }

    /// Decides what the window shows.
    pub fn view(&self) -> (page: Page)
        ensures
            opt_text(page.error) == self.model().rpc_error,
            page.main is Some <==> self.model().store.wallet is Some,
            page.main matches Some(content) ==> shows(content, self.model()),
    {
        let error = match &self.rpc_error {
            Some(text) => Some(text.clone()),
            None => None,
        };
        let wallet = match &self.store.wallet {
            Some(wallet) => wallet,
            None => {
                return Page { error, main: None };
            },
        };
        let content = match &self.screen {
            Screen::Home => {
                let spaces = match self.store.get_wallet_spaces() {
                    Some(spaces) => spaces,
                    None => Vec::new(),
                };
                Content::Home(home::view(wallet.balance, self.store.tip_height, &spaces))
            },
            Screen::Send(_) => Content::Send,
            Screen::Receive(state) => {
                match state.view(wallet.coin_address.as_ref(), wallet.space_address.as_ref()) {
                    Some(address) => Content::Receive(Some(address.text.clone())),
                    None => Content::Receive(None),
                }
            },
            Screen::Space(state) => {
                match state.get_slabel() {
                    Some(slabel) => {
                        let observation = self.store.space_observation(&slabel);
                        let is_owned = self.store.owns_space(&slabel);
                        Content::Space(
                            state.view(self.store.tip_height, Some(observation), is_owned),
                        )
                    },
                    None => Content::Space(state.view(self.store.tip_height, None, false)),
                }
            },
            Screen::Transactions => Content::Transactions(
                transactions::view(&wallet.transactions),
            ),
        };
        Page { error, main: Some(content) }
    }

    /// What to ask of the daemon at the next poll, if anything.
    pub fn subscription(&self) -> (request: Option<RpcRequest>)
        ensures
            request is Some <==> poll_of(self.model()) is Some,
            request matches Some(r) ==> r.model() == poll_of(self.model())->0,
    {
        if self.store.wallet.is_some() && self.rpc_error.is_none() {
            match self.screen {
                Screen::Transactions => Some(RpcRequest::GetTransactions),
                _ => Some(RpcRequest::GetServerInfo),
            }
        } else {
            None
        }
    }
}

} // verus!
