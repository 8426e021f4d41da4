use spaces_desktop::app::{navbar, App, Command, Content, Message, Route, Screen, Tab};
use spaces_desktop::rpc::{
    call_of, key_of_digest, space_hash, RpcCall, RpcError, RpcRequest, RpcResponse, WalletRequest,
};
use spaces_desktop::screen::home;
use spaces_desktop::screen::receive;
use spaces_desktop::screen::send;
use spaces_desktop::screen::space;
use spaces_desktop::screen::space::{classify, FormKind, Panel, Phase};
use spaces_desktop::screen::transactions;
use spaces_desktop::store::{AddressKind, Store, TxInfo};
use spaces_desktop::types::{slabel_from_str, Amount, Covenant, SLabel};
use spaces_desktop::widget::icon::Icon;

fn label(s: &str) -> SLabel {
    slabel_from_str(s).unwrap()
}

fn bid(total: u64, claim_height: Option<u32>) -> Covenant {
    Covenant::Bid { total_burned: Amount::from_sat(total), claim_height }
}

/// Runs the machine as a program would: commands that hand a message back
/// are carried out at once; calls and clipboard writes are collected.
fn run(app: &mut App, message: Message) -> Vec<Command> {
    let mut outside = Vec::new();
    let mut queue = vec![message];
    while !queue.is_empty() {
        let next = queue.remove(0);
        for command in app.update(next) {
            match command {
                Command::Navigate(route) => queue.push(Message::NavigateTo(route)),
                Command::Request(request) => queue.push(Message::RpcRequest(request)),
                other => outside.push(other),
            }
        }
    }
    outside
}

fn loaded(name: &str) -> App {
    let (mut app, _) = App::new(name.to_string());
    run(
        &mut app,
        Message::RpcResponse(RpcResponse::LoadWallet { wallet: name.to_string(), result: Ok(()) }),
    );
    app
}

fn call_error(code: i32, message: &str) -> RpcError {
    RpcError::Call { code, message: message.to_string() }
}

#[test]
fn the_application_starts_by_loading_the_wallet() {
    let (app, commands) = App::new("default".to_string());
    assert!(app.rpc_error.is_none());
    assert!(app.store.wallet.is_none());
    assert_eq!(app.store.tip_height, 0);
    assert!(matches!(app.screen, Screen::Home));
    assert_eq!(commands.len(), 1);
    assert!(matches!(
        &commands[0],
        Command::Request(RpcRequest::LoadWallet { wallet }) if wallet == "default"
    ));
    assert!(app.subscription().is_none());
    assert_eq!(app.title(), "Spaces Wallet");
    let page = app.view();
    assert!(page.error.is_none());
    assert!(page.main.is_none());
}

#[test]
fn loading_a_wallet_then_its_balance() {
    let (mut app, commands) = App::new("default".to_string());
    let mut calls = Vec::new();
    for command in commands {
        match command {
            Command::Request(request) => calls.extend(run(&mut app, Message::RpcRequest(request))),
            _ => panic!("unexpected command"),
        }
    }
    assert_eq!(calls.len(), 1);
    assert!(matches!(&calls[0], Command::Call(RpcCall::WalletLoad { wallet }) if wallet == "default"));
    let calls = run(
        &mut app,
        Message::RpcResponse(RpcResponse::LoadWallet {
            wallet: "default".to_string(),
            result: Ok(()),
        }),
    );
    assert!(matches!(app.screen, Screen::Home));
    assert_eq!(app.store.get_wallet_name(), Some("default".to_string()));
    assert_eq!(calls.len(), 2);
    assert!(
        matches!(&calls[0], Command::Call(RpcCall::WalletGetBalance { wallet }) if wallet == "default")
    );
    assert!(
        matches!(&calls[1], Command::Call(RpcCall::WalletListSpaces { wallet }) if wallet == "default")
    );
    let after = run(
        &mut app,
        Message::RpcResponse(RpcResponse::GetBalance {
            wallet: "default".to_string(),
            result: Ok(Amount::from_sat(5000)),
        }),
    );
    assert!(after.is_empty());
    assert_eq!(app.store.wallet.as_ref().unwrap().balance.to_sat(), 5000);
    match app.view().main {
        Some(Content::Home(shown)) => assert_eq!(shown.balance.to_sat(), 5000),
        other => panic!("not the first screen: {:?}", other),
    }
}

#[test]
fn a_space_that_is_not_found_can_be_opened() {
    let mut app = loaded("default");
    let calls = run(&mut app, Message::NavigateTo(Route::Space("alice".to_string())));
    assert_eq!(calls.len(), 1);
    match &calls[0] {
        Command::Call(RpcCall::GetSpace { slabel, space_hash }) => {
            assert_eq!(slabel.as_str(), "alice");
            assert_eq!(
                space_hash,
                "0b8922c1e1391f94e444dfbf07a36c7f4e62806135467ccb6ef4af6bb74f7218"
            );
        }
        other => panic!("not a lookup: {:?}", other),
    }
    assert_eq!(app.store.space_observation(&label("alice")), None);
    assert!(matches!(app.view().main, Some(Content::Space(Panel::Blank))));
    run(
        &mut app,
        Message::RpcResponse(RpcResponse::GetSpaceInfo { slabel: label("alice"), result: Ok(None) }),
    );
    let observation = app.store.space_observation(&label("alice"));
    assert_eq!(observation, Some(None));
    assert_eq!(classify(observation, app.store.tip_height, false), Phase::OpenEligible);
    match app.view().main {
        Some(Content::Space(Panel::Progress { step, form, .. })) => {
            assert_eq!(step, 0);
            assert_eq!(form.map(|f| f.kind), Some(FormKind::Open));
        }
        other => panic!("not the open form: {:?}", other),
    }
}

#[test]
fn a_user_error_on_send_is_shown_beside_the_form() {
    let mut app = loaded("default");
    run(&mut app, Message::NavigateTo(Route::Send));
    run(&mut app, Message::ScreenSend(send::Message::RecipientInput("bob".to_string())));
    run(&mut app, Message::ScreenSend(send::Message::AmountInput("9".to_string())));
    let calls = run(&mut app, Message::ScreenSend(send::Message::SendPress));
    assert_eq!(calls.len(), 1);
    match &calls[0] {
        Command::Call(RpcCall::WalletSendRequest {
            wallet,
            request: WalletRequest::SendCoins { to, amount },
        }) => {
            assert_eq!(wallet, "default");
            assert_eq!(to, "bob");
            assert_eq!(*amount, Amount::from_sat(9));
        }
        other => panic!("not a send: {:?}", other),
    }
    let after = run(
        &mut app,
        Message::RpcResponse(RpcResponse::SendCoins {
            result: Err(call_error(-1, "insufficient funds")),
        }),
    );
    assert!(after.is_empty());
    assert!(app.rpc_error.is_none());
    match &app.screen {
        Screen::Send(state) => {
            assert_eq!(state.error(), Some("insufficient funds"));
            assert_eq!(state.recipient(), "bob");
            assert_eq!(state.amount(), "9");
        }
        other => panic!("not the send screen: {:?}", other),
    }
    assert!(app.view().error.is_none());
}

#[test]
fn a_balance_for_another_wallet_is_dropped() {
    let mut app = loaded("old");
    run(
        &mut app,
        Message::RpcResponse(RpcResponse::GetBalance {
            wallet: "old".to_string(),
            result: Ok(Amount::from_sat(7)),
        }),
    );
    run(
        &mut app,
        Message::RpcResponse(RpcResponse::LoadWallet { wallet: "new".to_string(), result: Ok(()) }),
    );
    assert_eq!(app.store.get_wallet_name(), Some("new".to_string()));
    assert_eq!(app.store.wallet.as_ref().unwrap().balance.to_sat(), 0);
    run(
        &mut app,
        Message::RpcResponse(RpcResponse::GetBalance {
            wallet: "old".to_string(),
            result: Ok(Amount::from_sat(5000)),
        }),
    );
    let wallet = app.store.wallet.as_ref().unwrap();
    assert_eq!(wallet.name, "new");
    assert_eq!(wallet.balance.to_sat(), 0);
    assert!(wallet.spaces.is_empty());
    assert!(wallet.transactions.is_empty());
    assert!(wallet.coin_address.is_none());
    assert!(wallet.space_address.is_none());
    assert!(app.rpc_error.is_none());
}

#[test]
fn other_answers_for_another_wallet_are_dropped_too() {
    let mut app = loaded("new");
    run(
        &mut app,
        Message::RpcResponse(RpcResponse::GetTransactions {
            wallet: "old".to_string(),
            result: Ok(vec![TxInfo {
                txid: "aa".to_string(),
                confirmed: true,
                sent: Amount::from_sat(1),
                received: Amount::from_sat(0),
                fee: None,
            }]),
        }),
    );
    run(
        &mut app,
        Message::RpcResponse(RpcResponse::GetAddress {
            wallet: "old".to_string(),
            address_kind: AddressKind::Coin,
            result: Ok("bc1".to_string()),
        }),
    );
    run(
        &mut app,
        Message::RpcResponse(RpcResponse::GetWalletSpaces {
            wallet: "old".to_string(),
            result: Ok(vec![(label("alice"), Covenant::Transfer { expire_height: 9 })]),
        }),
    );
    let wallet = app.store.wallet.as_ref().unwrap();
    assert!(wallet.transactions.is_empty());
    assert!(wallet.coin_address.is_none());
    assert!(wallet.spaces.is_empty());
    // Nothing of the answer is kept, the covenants that it lists included.
    assert_eq!(app.store.space_observation(&label("alice")), None);
    assert!(!app.store.owns_space(&label("alice")));
    assert_eq!(app.store.tip_height, 0);
    assert!(app.rpc_error.is_none());
}

#[test]
fn answers_for_the_loaded_wallet_replace_its_parts() {
    let mut app = loaded("default");
    run(
        &mut app,
        Message::RpcResponse(RpcResponse::GetAddress {
            wallet: "default".to_string(),
            address_kind: AddressKind::Coin,
            result: Ok("bc1coin".to_string()),
        }),
    );
    run(
        &mut app,
        Message::RpcResponse(RpcResponse::GetAddress {
            wallet: "default".to_string(),
            address_kind: AddressKind::Space,
            result: Ok("bc1space".to_string()),
        }),
    );
    run(
        &mut app,
        Message::RpcResponse(RpcResponse::GetWalletSpaces {
            wallet: "default".to_string(),
            result: Ok(vec![
                (label("bob"), bid(10, Some(50))),
                (label("alice"), Covenant::Transfer { expire_height: 9 }),
                (label("res"), Covenant::Reserved),
            ]),
        }),
    );
    run(
        &mut app,
        Message::RpcResponse(RpcResponse::GetTransactions {
            wallet: "default".to_string(),
            result: Ok(vec![TxInfo {
                txid: "aa".to_string(),
                confirmed: true,
                sent: Amount::from_sat(1),
                received: Amount::from_sat(0),
                fee: None,
            }]),
        }),
    );
    run(&mut app, Message::RpcResponse(RpcResponse::GetServerInfo { result: Ok(44) }));
    assert_eq!(app.store.tip_height, 44);
    let wallet = app.store.wallet.as_ref().unwrap();
    assert_eq!(wallet.coin_address.as_ref().unwrap().text, "bc1coin");
    assert_eq!(wallet.space_address.as_ref().unwrap().text, "bc1space");
    assert_eq!(wallet.transactions.len(), 1);
    let names: Vec<&str> = wallet.spaces.iter().map(|l| l.as_str()).collect();
    assert_eq!(names, vec!["bob", "alice", "res"]);
    assert!(app.store.owns_space(&label("alice")));
    assert!(!app.store.owns_space(&label("carol")));
    assert_eq!(app.store.space_observation(&label("bob")), Some(Some(bid(10, Some(50)))));
    let listed = app.store.get_wallet_spaces().unwrap();
    let listed: Vec<(&str, Covenant)> = listed.iter().map(|(l, c)| (l.as_str(), *c)).collect();
    assert_eq!(
        listed,
        vec![("bob", bid(10, Some(50))), ("alice", Covenant::Transfer { expire_height: 9 })]
    );
    match app.view().main {
        Some(Content::Home(shown)) => {
            assert_eq!(shown.registered.len(), 1);
            assert_eq!(shown.registered[0].label, "@alice");
            assert_eq!(shown.registered[0].expires, "now");
            assert_eq!(shown.bids.len(), 1);
            assert_eq!(shown.bids[0].label, "@bob");
            assert_eq!(shown.bids[0].highest_bid, "10 satoshi");
            assert_eq!(shown.bids[0].claim, "in 1 hours");
        }
        other => panic!("not the first screen: {:?}", other),
    }
    run(&mut app, Message::NavigateTo(Route::Receive));
    match app.view().main {
        Some(Content::Receive(address)) => assert_eq!(address, Some("bc1space".to_string())),
        other => panic!("not the receive screen: {:?}", other),
    }
    run(&mut app, Message::ScreenReceive(receive::Message::AddressKindToggle(true)));
    match app.view().main {
        Some(Content::Receive(address)) => assert_eq!(address, Some("bc1coin".to_string())),
        other => panic!("not the receive screen: {:?}", other),
    }
    run(&mut app, Message::NavigateTo(Route::Transactions));
    match app.view().main {
        Some(Content::Transactions(rows)) => {
            assert_eq!(rows.len(), 1);
            assert_eq!(rows[0].icon, Icon::ArrowDownFromArc);
        }
        other => panic!("not the transactions screen: {:?}", other),
    }
    run(&mut app, Message::NavigateTo(Route::Space("alice".to_string())));
    match app.view().main {
        Some(Content::Space(Panel::Progress { step, note, form, .. })) => {
            assert_eq!(step, 4);
            assert_eq!(note, "The space registration expires now");
            assert_eq!(form.map(|f| f.kind), Some(FormKind::Send));
        }
        other => panic!("not the screen of the space: {:?}", other),
    }
    run(&mut app, Message::NavigateTo(Route::Send));
    assert!(matches!(app.view().main, Some(Content::Send)));
}

#[test]
fn an_observation_is_replaced_as_a_whole() {
    let mut store = Store::new();
    assert_eq!(store.space_observation(&label("alice")), None);
    store.observe_space(&label("alice"), Some(bid(5, Some(900))));
    assert_eq!(store.space_observation(&label("alice")), Some(Some(bid(5, Some(900)))));
    store.observe_space(&label("alice"), Some(bid(6, Some(800))));
    assert_eq!(store.space_observation(&label("alice")), Some(Some(bid(6, Some(800)))));
    store.observe_space(&label("alice"), None);
    assert_eq!(store.space_observation(&label("alice")), Some(None));
    assert_eq!(store.space_observation(&label("bob")), None);
    assert!(store.get_wallet_spaces().is_none());
    assert!(store.get_wallet_name().is_none());
    assert!(!store.is_current("alice"));
    assert!(store.get_wallet_with_name("alice").is_none());
    let fresh = Store::default();
    assert_eq!(fresh.tip_height, 0);
    assert!(fresh.wallet.is_none());
}

#[test]
fn the_wallet_is_handed_out_under_its_own_name_only() {
    let mut app = loaded("default");
    assert!(app.store.is_current("default"));
    assert!(!app.store.is_current("other"));
    assert!(app.store.get_wallet_with_name("other").is_none());
    match app.store.get_wallet_with_name("default") {
        Some(wallet) => wallet.balance = Amount::from_sat(12),
        None => panic!("no wallet"),
    }
    assert_eq!(app.store.wallet.as_ref().unwrap().balance.to_sat(), 12);
}

#[test]
fn any_other_error_goes_to_the_banner() {
    let mut app = loaded("default");
    run(&mut app, Message::NavigateTo(Route::Send));
    run(
        &mut app,
        Message::RpcResponse(RpcResponse::SendCoins { result: Err(call_error(-32000, "boom")) }),
    );
    assert_eq!(app.rpc_error, Some("boom".to_string()));
    assert!(matches!(&app.screen, Screen::Send(state) if state.error().is_none()));
    assert!(app.subscription().is_none());
    assert_eq!(app.view().error, Some("boom".to_string()));
    // The next answer clears it.
    run(&mut app, Message::RpcResponse(RpcResponse::GetServerInfo { result: Ok(1) }));
    assert!(app.rpc_error.is_none());
    assert!(matches!(app.subscription(), Some(RpcRequest::GetServerInfo)));
    run(
        &mut app,
        Message::RpcResponse(RpcResponse::SendCoins {
            result: Err(RpcError::Global { message: "connection refused".to_string() }),
        }),
    );
    assert_eq!(app.rpc_error, Some("connection refused".to_string()));
    run(
        &mut app,
        Message::RpcResponse(RpcResponse::GetBalance {
            wallet: "default".to_string(),
            result: Err(call_error(-1, "no such wallet")),
        }),
    );
    assert_eq!(app.rpc_error, Some("no such wallet".to_string()));
    run(
        &mut app,
        Message::RpcResponse(RpcResponse::LoadWallet {
            wallet: "x".to_string(),
            result: Err(call_error(-1, "cannot load")),
        }),
    );
    assert_eq!(app.rpc_error, Some("cannot load".to_string()));
    assert_eq!(app.store.get_wallet_name(), Some("default".to_string()));
}

#[test]
fn a_user_error_on_a_space_form_is_shown_on_the_space_screen_only() {
    let mut app = loaded("default");
    run(&mut app, Message::NavigateTo(Route::Space("alice".to_string())));
    run(
        &mut app,
        Message::RpcResponse(RpcResponse::BidSpace { result: Err(call_error(-1, "invalid bid")) }),
    );
    assert!(app.rpc_error.is_none());
    assert!(matches!(&app.screen, Screen::Space(state) if state.error() == Some("invalid bid")));
    run(
        &mut app,
        Message::RpcResponse(RpcResponse::SendCoins { result: Err(call_error(-1, "not here")) }),
    );
    assert!(app.rpc_error.is_none());
    assert!(matches!(&app.screen, Screen::Space(state) if state.error() == Some("invalid bid")));
    run(&mut app, Message::NavigateTo(Route::Home));
    run(
        &mut app,
        Message::RpcResponse(RpcResponse::OpenSpace { result: Err(call_error(-1, "late")) }),
    );
    assert!(app.rpc_error.is_none());
    assert!(matches!(app.screen, Screen::Home));
    run(&mut app, Message::NavigateTo(Route::Space("alice".to_string())));
    run(
        &mut app,
        Message::RpcResponse(RpcResponse::RegisterSpace { result: Err(call_error(-1, "no")) }),
    );
    assert!(matches!(&app.screen, Screen::Space(state) if state.error() == Some("no")));
}

#[test]
fn a_form_that_went_through_leads_to_the_transactions() {
    let mut app = loaded("default");
    run(&mut app, Message::NavigateTo(Route::Send));
    let calls = run(&mut app, Message::RpcResponse(RpcResponse::SendCoins { result: Ok(()) }));
    assert!(matches!(app.screen, Screen::Transactions));
    assert_eq!(calls.len(), 1);
    match &calls[0] {
        Command::Call(RpcCall::WalletListTransactions { wallet, count, skip }) => {
            assert_eq!(wallet, "default");
            assert_eq!(*count, 100);
            assert_eq!(*skip, 0);
        }
        other => panic!("not a listing: {:?}", other),
    }
    assert!(matches!(app.subscription(), Some(RpcRequest::GetTransactions)));
    for response in [
        RpcResponse::OpenSpace { result: Ok(()) },
        RpcResponse::BidSpace { result: Ok(()) },
        RpcResponse::RegisterSpace { result: Ok(()) },
    ] {
        run(&mut app, Message::NavigateTo(Route::Home));
        run(&mut app, Message::RpcResponse(response));
        assert!(matches!(app.screen, Screen::Transactions));
    }
}

#[test]
fn navigation_asks_for_what_the_screen_shows() {
    let mut app = loaded("default");
    let calls = run(&mut app, Message::NavigateTo(Route::Receive));
    assert!(matches!(app.screen, Screen::Receive(_)));
    assert_eq!(calls.len(), 2);
    assert!(matches!(
        &calls[0],
        Command::Call(RpcCall::WalletGetNewAddress { wallet, address_kind: AddressKind::Coin })
            if wallet == "default"
    ));
    assert!(matches!(
        &calls[1],
        Command::Call(RpcCall::WalletGetNewAddress { wallet, address_kind: AddressKind::Space })
            if wallet == "default"
    ));
    assert!(run(&mut app, Message::NavigateTo(Route::Send)).is_empty());
    assert!(matches!(app.screen, Screen::Send(_)));
    assert!(run(&mut app, Message::NavigateTo(Route::Space(String::new()))).is_empty());
    assert!(matches!(app.view().main, Some(Content::Space(Panel::Prompt))));
    assert!(run(&mut app, Message::NavigateTo(Route::Space("Not-A-Label".to_string()))).is_empty());
    assert!(matches!(&app.screen, Screen::Space(state) if state.slabel() == "Not-A-Label"));
    let calls = run(
        &mut app,
        Message::ScreenHome(home::Message::SpaceClicked { space_name: "bob".to_string() }),
    );
    assert!(matches!(&app.screen, Screen::Space(state) if state.slabel() == "bob"));
    assert_eq!(calls.len(), 1);
    assert!(matches!(&calls[0], Command::Call(RpcCall::GetSpace { slabel, .. }) if slabel.as_str() == "bob"));
}

#[test]
fn without_a_wallet_nothing_is_asked_in_its_name() {
    let (mut app, _) = App::new("default".to_string());
    assert!(run(&mut app, Message::RpcRequest(RpcRequest::GetBalance)).is_empty());
    assert!(run(&mut app, Message::RpcRequest(RpcRequest::GetWalletSpaces)).is_empty());
    assert!(run(&mut app, Message::RpcRequest(RpcRequest::GetTransactions)).is_empty());
    assert!(run(
        &mut app,
        Message::RpcRequest(RpcRequest::GetAddress { address_kind: AddressKind::Coin })
    )
    .is_empty());
    assert!(run(
        &mut app,
        Message::RpcRequest(RpcRequest::SendCoins {
            recipient: "bob".to_string(),
            amount: Amount::from_sat(1)
        })
    )
    .is_empty());
    assert!(run(&mut app, Message::RpcRequest(RpcRequest::RegisterSpace { slabel: label("a") }))
        .is_empty());
    let calls = run(&mut app, Message::RpcRequest(RpcRequest::GetServerInfo));
    assert!(matches!(&calls[..], [Command::Call(RpcCall::GetServerInfo)]));
    let calls = run(&mut app, Message::RpcRequest(RpcRequest::GetSpaceInfo { slabel: label("a") }));
    assert!(matches!(&calls[..], [Command::Call(RpcCall::GetSpace { .. })]));
    assert!(call_of(None, RpcRequest::GetBalance).is_none());
}

#[test]
fn space_forms_become_requests_to_the_wallet() {
    let mut app = loaded("default");
    run(&mut app, Message::NavigateTo(Route::Space("alice".to_string())));
    run(&mut app, Message::ScreenSpace(space::Message::AmountInput("1000".to_string())));
    run(&mut app, Message::ScreenSpace(space::Message::FeeRateInput("3".to_string())));
    let calls = run(&mut app, Message::ScreenSpace(space::Message::OpenSubmit));
    assert!(matches!(
        &calls[..],
        [Command::Call(RpcCall::WalletSendRequest {
            wallet,
            request: WalletRequest::Open { name, amount: Amount { sat: 1000 } },
        })] if wallet == "default" && name == "@alice"
    ));
    let calls = run(&mut app, Message::ScreenSpace(space::Message::BidSubmit));
    assert!(matches!(
        &calls[..],
        [Command::Call(RpcCall::WalletSendRequest {
            request: WalletRequest::Bid { name, amount: Amount { sat: 1000 } },
            ..
        })] if name == "@alice"
    ));
    let calls = run(&mut app, Message::ScreenSpace(space::Message::ClaimSubmit));
    assert!(matches!(
        &calls[..],
        [Command::Call(RpcCall::WalletSendRequest {
            request: WalletRequest::Register { name },
            ..
        })] if name == "@alice"
    ));
    let calls = run(&mut app, Message::ScreenSpace(space::Message::SlabelInput("bob".to_string())));
    assert!(matches!(
        &calls[..],
        [Command::Call(RpcCall::GetSpace { slabel, .. })] if slabel.as_str() == "bob"
    ));
    // A message for a screen that is not shown does nothing.
    run(&mut app, Message::NavigateTo(Route::Home));
    assert!(run(&mut app, Message::ScreenSpace(space::Message::OpenSubmit)).is_empty());
    assert!(run(&mut app, Message::ScreenSend(send::Message::SendPress)).is_empty());
    assert!(run(&mut app, Message::ScreenReceive(receive::Message::CopyPress("x".to_string())))
        .is_empty());
    assert!(matches!(app.screen, Screen::Home));
}

#[test]
fn copying_goes_to_the_clipboard() {
    let mut app = loaded("default");
    let out = run(
        &mut app,
        Message::ScreenTransactions(transactions::Message::TxidCopyPress {
            txid: "aabb".to_string(),
        }),
    );
    assert!(matches!(&out[..], [Command::WriteClipboard(text)] if text == "aabb"));
    run(&mut app, Message::NavigateTo(Route::Receive));
    let out =
        run(&mut app, Message::ScreenReceive(receive::Message::CopyPress("bc1".to_string())));
    assert!(matches!(&out[..], [Command::WriteClipboard(text)] if text == "bc1"));
}

#[test]
fn the_navigation_bar_marks_the_screen_that_is_shown() {
    let mut app = loaded("default");
    let bar = navbar(&app.screen);
    let tabs: Vec<Tab> = bar.iter().map(|b| b.tab).collect();
    assert_eq!(tabs, vec![Tab::Home, Tab::Send, Tab::Receive, Tab::Space, Tab::Transactions]);
    let current: Vec<bool> = bar.iter().map(|b| b.is_current).collect();
    assert_eq!(current, vec![true, false, false, false, false]);
    run(&mut app, Message::NavigateTo(Tab::Space.route()));
    assert!(matches!(&app.screen, Screen::Space(state) if state.slabel() == ""));
    assert_eq!(app.screen.tab(), Tab::Space);
    let current: Vec<bool> = navbar(&app.screen).iter().map(|b| b.is_current).collect();
    assert_eq!(current, vec![false, false, false, true, false]);
    assert_eq!(Tab::Home.label(), "Home");
    assert_eq!(Tab::Transactions.label(), "Transactions");
    assert_eq!(Tab::Home.icon(), Icon::Artboard);
    assert_eq!(Tab::Send.icon(), Icon::ArrowDownFromArc);
    assert_eq!(Tab::Receive.icon(), Icon::ArrowDownToArc);
    assert_eq!(Tab::Space.icon(), Icon::At);
    assert_eq!(Tab::Transactions.icon(), Icon::ArrowsExchange);
    assert!(matches!(Tab::Send.route(), Route::Send));
}

#[test]
fn space_hashes() {
    assert_eq!(
        space_hash(&label("alice")),
        "0b8922c1e1391f94e444dfbf07a36c7f4e62806135467ccb6ef4af6bb74f7218"
    );
    assert_eq!(
        space_hash(&label("a")),
        "e3254ea61c09ead5a01d3bf07e946a561c6c2cd1c46b8ca1bfa8729d26a7d09f"
    );
    assert_eq!(
        space_hash(&label("example-ok")),
        "f06b6f11601136b4b71491a5320f315c1c0a0e3686179999f7c2fbcc9ba6721f"
    );
}

#[test]
fn digests_are_written_in_lower_case_hexadecimal() {
    assert_eq!(key_of_digest(&[]), "");
    assert_eq!(key_of_digest(&[0x00, 0x0f, 0x10, 0xab, 0xff]), "000f10abff");
    assert_eq!(key_of_digest(&[0x9a, 0xbc, 0xde]), "9abcde");
}

#[test]
fn errors_in_words() {
    let e = call_error(-1, "insufficient funds");
    assert!(e.is_local());
    assert_eq!(e.to_string(), "insufficient funds");
    assert_eq!(e.into_message(), "insufficient funds");
    assert!(!call_error(0, "x").is_local());
    assert!(!call_error(1, "x").is_local());
    assert!(!call_error(i32::MIN, "x").is_local());
    let g = RpcError::Global { message: "timeout".to_string() };
    assert!(!g.is_local());
    assert_eq!(g.to_string(), "timeout");
}
