use spaces_desktop::screen::home;
use spaces_desktop::screen::receive;
use spaces_desktop::screen::send;
use spaces_desktop::screen::space;
use spaces_desktop::screen::space::{classify, Action, FormKind, Panel, Phase};
use spaces_desktop::screen::timeline;
use spaces_desktop::screen::timeline::{Caption, Mark, Station};
use spaces_desktop::screen::transactions;
use spaces_desktop::store::{Address, AddressKind, TxInfo};
use spaces_desktop::types::{slabel_from_str, Amount, Covenant, FeeRate, SLabel};
use spaces_desktop::widget::icon::Icon;

fn label(s: &str) -> SLabel {
    slabel_from_str(s).unwrap()
}

fn bid(total: u64, claim_height: Option<u32>) -> Covenant {
    Covenant::Bid { total_burned: Amount::from_sat(total), claim_height }
}

#[test]
fn classifier_boundary_at_the_claim_height() {
    let c = Some(Some(bid(1000, Some(500))));
    assert_eq!(classify(c, 500, true), Phase::Claimable);
    assert_eq!(classify(c, 500, false), Phase::ClaimableByOther);
    assert_eq!(classify(c, 499, true), Phase::AuctionActive);
    assert_eq!(classify(c, 499, false), Phase::AuctionActive);
    assert_eq!(classify(c, 501, true), Phase::Claimable);
    assert_eq!(classify(c, u32::MAX, false), Phase::ClaimableByOther);
    assert_eq!(classify(Some(Some(bid(0, Some(0)))), 0, true), Phase::Claimable);
}

#[test]
fn classifier_is_loading_until_answered() {
    for tip in [0, 1, 500, u32::MAX] {
        for owned in [false, true] {
            assert_eq!(classify(None, tip, owned), Phase::Loading);
            assert_eq!(classify(None, tip, owned).action(), Action::Wait);
        }
    }
}

#[test]
fn classifier_covers_every_row() {
    assert_eq!(classify(Some(None), 10, false), Phase::OpenEligible);
    assert_eq!(classify(Some(None), 10, true), Phase::OpenEligible);
    assert_eq!(classify(Some(Some(Covenant::Reserved)), 10, true), Phase::Reserved);
    assert_eq!(classify(Some(Some(bid(5, None))), 10, false), Phase::PreAuction);
    assert_eq!(classify(Some(Some(bid(5, None))), 10, true), Phase::PreAuction);
    assert_eq!(classify(Some(Some(bid(5, Some(11)))), 10, true), Phase::AuctionActive);
    let t = Covenant::Transfer { expire_height: 3 };
    assert_eq!(classify(Some(Some(t)), 10, true), Phase::Owned);
    assert_eq!(classify(Some(Some(t)), 10, false), Phase::RegisteredByOther);
}

#[test]
fn legal_actions() {
    assert_eq!(Phase::Loading.action(), Action::Wait);
    assert_eq!(Phase::OpenEligible.action(), Action::Open);
    assert_eq!(Phase::Reserved.action(), Action::Wait);
    assert_eq!(Phase::PreAuction.action(), Action::Bid);
    assert_eq!(Phase::AuctionActive.action(), Action::Bid);
    assert_eq!(Phase::Claimable.action(), Action::Register);
    assert_eq!(Phase::ClaimableByOther.action(), Action::Bid);
    assert_eq!(Phase::Owned.action(), Action::Wait);
    assert_eq!(Phase::RegisteredByOther.action(), Action::Wait);
}

#[test]
fn send_screen_filters_its_fields() {
    let mut s = send::State::default();
    assert_eq!(s.recipient(), "");
    assert_eq!(s.amount(), "");
    assert_eq!(s.error(), None);
    assert!(!s.can_send());
    send::update(&mut s, send::Message::RecipientInput("@bob".to_string()));
    assert_eq!(s.recipient(), "@bob");
    send::update(&mut s, send::Message::RecipientInput("@Bob".to_string()));
    assert_eq!(s.recipient(), "@bob");
    send::update(&mut s, send::Message::AmountInput("12".to_string()));
    assert_eq!(s.amount(), "12");
    send::update(&mut s, send::Message::AmountInput("12.5".to_string()));
    assert_eq!(s.amount(), "12");
    assert!(s.can_send());
}

#[test]
fn send_screen_sends_valid_fields_only() {
    let mut s = send::State::new();
    assert!(matches!(send::update(&mut s, send::Message::SendPress), send::Task::Nothing));
    send::update(&mut s, send::Message::AmountInput("700".to_string()));
    assert!(matches!(send::update(&mut s, send::Message::SendPress), send::Task::Nothing));
    send::update(&mut s, send::Message::RecipientInput("bob".to_string()));
    match send::update(&mut s, send::Message::SendPress) {
        send::Task::SendCoins { recipient, amount } => {
            assert_eq!(recipient, "bob");
            assert_eq!(amount, Amount::from_sat(700));
        }
        send::Task::Nothing => panic!("nothing sent"),
    }
    send::update(&mut s, send::Message::AmountInput("".to_string()));
    assert!(matches!(send::update(&mut s, send::Message::SendPress), send::Task::Nothing));
}

#[test]
fn send_screen_error_is_cleared_by_the_next_message() {
    let mut s = send::State::new();
    s.set_error("insufficient funds".to_string());
    assert_eq!(s.error(), Some("insufficient funds"));
    send::update(&mut s, send::Message::AmountInput("1".to_string()));
    assert_eq!(s.error(), None);
    s.set_error("again".to_string());
    send::update(&mut s, send::Message::SendPress);
    assert_eq!(s.error(), None);
    s.set_error("once more".to_string());
    send::update(&mut s, send::Message::RecipientInput("NO".to_string()));
    assert_eq!(s.error(), None);
    assert_eq!(s.recipient(), "");
}

#[test]
fn send_validate() {
    assert_eq!(send::validate(&"".to_string(), &"5".to_string()), None);
    assert_eq!(send::validate(&"bob".to_string(), &"".to_string()), None);
    assert_eq!(send::validate(&"bob".to_string(), &"1.5".to_string()), None);
    assert_eq!(
        send::validate(&"bob".to_string(), &"5".to_string()),
        Some(("bob".to_string(), Amount::from_sat(5)))
    );
}

#[test]
fn receive_screen() {
    let mut s = receive::State::default();
    assert!(!s.coin_address);
    assert_eq!(s.kind(), AddressKind::Space);
    let coin = Address::new("bc1coin".to_string());
    let space = Address::new("bc1space".to_string());
    assert_eq!(s.view(Some(&coin), Some(&space)).map(|a| a.text.as_str()), Some("bc1space"));
    assert!(s.view(Some(&coin), None).is_none());
    assert!(matches!(s.update(receive::Message::AddressKindToggle(true)), receive::Task::Nothing));
    assert!(s.coin_address);
    assert_eq!(s.kind(), AddressKind::Coin);
    assert_eq!(s.view(Some(&coin), Some(&space)).map(|a| a.text.as_str()), Some("bc1coin"));
    assert!(s.view(None, Some(&space)).is_none());
    match s.update(receive::Message::CopyPress("bc1coin".to_string())) {
        receive::Task::WriteClipboard(text) => assert_eq!(text, "bc1coin"),
        receive::Task::Nothing => panic!("nothing copied"),
    }
    assert!(s.coin_address);
}

#[test]
fn space_screen_looks_a_valid_label_up() {
    let mut s = space::State::new(String::new());
    assert_eq!(s.slabel(), "");
    assert!(s.get_slabel().is_none());
    match s.update(space::Message::SlabelInput("alice".to_string())) {
        space::Task::GetSpaceInfo { slabel } => assert_eq!(slabel.as_str(), "alice"),
        _ => panic!("no lookup"),
    }
    assert_eq!(s.slabel(), "alice");
    assert_eq!(s.get_slabel().unwrap().as_str(), "alice");
    // Admitted by the filter, yet no label.
    assert!(matches!(
        s.update(space::Message::SlabelInput("alice-".to_string())),
        space::Task::Nothing
    ));
    assert_eq!(s.slabel(), "alice-");
    assert!(s.get_slabel().is_none());
    // Refused by the filter.
    assert!(matches!(
        s.update(space::Message::SlabelInput("Alice".to_string())),
        space::Task::Nothing
    ));
    assert_eq!(s.slabel(), "alice-");
    assert!(matches!(s.update(space::Message::SlabelInput(String::new())), space::Task::Nothing));
    assert_eq!(s.slabel(), "");
}

#[test]
fn space_screen_submits_valid_forms_only() {
    let mut s = space::State::new("alice".to_string());
    assert!(matches!(s.update(space::Message::OpenSubmit), space::Task::Nothing));
    assert!(matches!(s.update(space::Message::BidSubmit), space::Task::Nothing));
    match s.update(space::Message::ClaimSubmit) {
        space::Task::ClaimSpace { slabel, fee_rate } => {
            assert_eq!(slabel.as_str(), "alice");
            assert_eq!(fee_rate, None);
        }
        _ => panic!("no claim"),
    }
    s.update(space::Message::AmountInput("1000".to_string()));
    s.update(space::Message::AmountInput("1000x".to_string()));
    assert_eq!(s.amount(), "1000");
    match s.update(space::Message::OpenSubmit) {
        space::Task::OpenSpace { slabel, amount, fee_rate } => {
            assert_eq!(slabel.as_str(), "alice");
            assert_eq!(amount, Amount::from_sat(1000));
            assert_eq!(fee_rate, None);
        }
        _ => panic!("no open"),
    }
    s.update(space::Message::FeeRateInput("2".to_string()));
    s.update(space::Message::FeeRateInput("2x".to_string()));
    assert_eq!(s.fee_rate(), "2");
    match s.update(space::Message::BidSubmit) {
        space::Task::BidSpace { slabel, amount, fee_rate } => {
            assert_eq!(slabel.as_str(), "alice");
            assert_eq!(amount, Amount::from_sat(1000));
            assert_eq!(fee_rate, Some(FeeRate { sat_per_kwu: 500 }));
        }
        _ => panic!("no bid"),
    }
    s.update(space::Message::FeeRateInput("2.5".to_string()));
    assert_eq!(s.fee_rate(), "2.5");
    assert!(matches!(s.update(space::Message::BidSubmit), space::Task::Nothing));
    assert!(matches!(s.update(space::Message::ClaimSubmit), space::Task::Nothing));
    let mut t = space::State::new("not a label".to_string());
    t.update(space::Message::AmountInput("1".to_string()));
    assert!(matches!(t.update(space::Message::OpenSubmit), space::Task::Nothing));
    assert!(matches!(t.update(space::Message::ClaimSubmit), space::Task::Nothing));
}

#[test]
fn space_screen_error_is_cleared_by_the_next_message() {
    let mut s = space::State::new("alice".to_string());
    s.set_error("invalid bid".to_string());
    assert_eq!(s.error(), Some("invalid bid"));
    s.update(space::Message::AmountInput("1".to_string()));
    assert_eq!(s.error(), None);
}

fn progress(panel: Panel) -> (u8, String, Option<Amount>, Option<(FormKind, bool)>) {
    match panel {
        Panel::Progress { step, note, current_bid, form } => {
            (step, note, current_bid, form.map(|f| (f.kind, f.ready)))
        }
        other => panic!("no progress: {:?}", other),
    }
}

#[test]
fn space_screen_panels() {
    let mut s = space::State::new("alice".to_string());
    assert!(matches!(s.view(10, None, false), Panel::Prompt));
    assert!(matches!(s.view(10, None, true), Panel::Prompt));
    assert!(matches!(s.view(10, Some(None), false), Panel::Blank));
    assert!(matches!(s.view(10, Some(Some(Some(Covenant::Reserved))), true), Panel::Prompt));
    assert_eq!(
        progress(s.view(10, Some(Some(None)), false)),
        (
            0,
            "Make an open to propose the space for auction".to_string(),
            None,
            Some((FormKind::Open, false))
        )
    );
    s.update(space::Message::AmountInput("1000".to_string()));
    assert_eq!(
        progress(s.view(10, Some(Some(None)), false)).3,
        Some((FormKind::Open, true))
    );
    assert_eq!(
        progress(s.view(10, Some(Some(Some(bid(5, None)))), false)),
        (
            1,
            "Make a bid to improve the chance of moving the space to auction".to_string(),
            None,
            Some((FormKind::Bid, true))
        )
    );
    assert_eq!(
        progress(s.view(10, Some(Some(Some(bid(5, Some(11))))), true)),
        (2, "Auction ends in 10 minutes".to_string(), None, Some((FormKind::Bid, true)))
    );
    assert_eq!(
        progress(s.view(10, Some(Some(Some(bid(5, Some(10))))), true)),
        (3, "You can claim the space".to_string(), None, Some((FormKind::Claim, true)))
    );
    assert_eq!(
        progress(s.view(10, Some(Some(Some(bid(5, Some(10))))), false)),
        (
            3,
            "The auction is ended, but you still can outbid".to_string(),
            Some(Amount::from_sat(5)),
            Some((FormKind::Bid, true))
        )
    );
    let t = Covenant::Transfer { expire_height: 160 };
    assert_eq!(
        progress(s.view(10, Some(Some(Some(t))), true)),
        (
            4,
            "The space registration expires in 1 days 1 hours".to_string(),
            None,
            Some((FormKind::Send, false))
        )
    );
    assert_eq!(
        progress(s.view(200, Some(Some(Some(t))), false)),
        (4, "The space registration expires now".to_string(), None, None)
    );
    s.update(space::Message::FeeRateInput("1.5".to_string()));
    assert_eq!(
        progress(s.view(10, Some(Some(Some(bid(5, Some(10))))), true)).3,
        Some((FormKind::Claim, false))
    );
    assert_eq!(
        progress(s.view(10, Some(Some(Some(bid(5, None)))), true)).3,
        Some((FormKind::Bid, false))
    );
}

#[test]
fn timeline_rows() {
    let rows = timeline::view(2);
    assert_eq!(rows.len(), 8);
    assert_eq!(rows[0].mark, Mark::Circle { filled: true, border: true, inner: false });
    assert_eq!(rows[0].caption, Caption::Title(Station::Open));
    assert_eq!(rows[1].mark, Mark::Line { filled: true });
    assert_eq!(rows[1].caption, Caption::Blank);
    assert_eq!(rows[2].mark, Mark::Circle { filled: true, border: true, inner: false });
    assert_eq!(rows[2].caption, Caption::Title(Station::PreAuction));
    assert_eq!(rows[3].mark, Mark::Line { filled: true });
    assert_eq!(rows[4].mark, Mark::Circle { filled: false, border: true, inner: true });
    assert_eq!(rows[4].caption, Caption::Title(Station::Auction));
    assert_eq!(rows[5].mark, Mark::Line { filled: false });
    assert_eq!(rows[5].caption, Caption::Note);
    assert_eq!(rows[6].mark, Mark::Circle { filled: false, border: false, inner: false });
    assert_eq!(rows[6].caption, Caption::Title(Station::Claim));
    assert_eq!(rows[7].mark, Mark::Gap);
    assert_eq!(rows[7].caption, Caption::Blank);
}

#[test]
fn timeline_has_one_note() {
    for step in 0..=4u8 {
        let rows = timeline::view(step);
        let notes: Vec<usize> =
            (0..rows.len()).filter(|i| rows[*i].caption == Caption::Note).collect();
        let at = if step == 4 { 7 } else { 2 * step as usize + 1 };
        assert_eq!(notes, vec![at]);
    }
    let done = timeline::view(4);
    assert_eq!(done[6].mark, Mark::Circle { filled: true, border: true, inner: false });
    assert_eq!(done[7].mark, Mark::Gap);
    let start = timeline::view(0);
    assert_eq!(start[0].mark, Mark::Circle { filled: false, border: true, inner: true });
    assert_eq!(start[1].mark, Mark::Line { filled: false });
    assert_eq!(Station::Open.title(), "Open");
    assert_eq!(Station::PreAuction.title(), "Pre-auction");
    assert_eq!(Station::Auction.title(), "Auction");
    assert_eq!(Station::Claim.title(), "Claim");
}

#[test]
fn home_lists_spaces_in_the_order_of_their_labels() {
    let spaces = vec![
        (label("zeta"), Covenant::Transfer { expire_height: 250 }),
        (label("bob"), bid(700, Some(101))),
        (label("ab"), Covenant::Transfer { expire_height: 100 }),
        (label("reserved"), Covenant::Reserved),
        (label("carol"), bid(5, None)),
        (label("b"), Covenant::Transfer { expire_height: 106 }),
        (label("al"), bid(1, Some(99))),
    ];
    assert_eq!(home::label_order(&spaces), vec![2, 6, 5, 1, 4, 3, 0]);
    let shown = home::view(Amount::from_sat(5000), 100, &spaces);
    assert_eq!(shown.balance, Amount::from_sat(5000));
    let registered: Vec<(&str, &str, &str)> = shown
        .registered
        .iter()
        .map(|r| (r.label.as_str(), r.space_name.as_str(), r.expires.as_str()))
        .collect();
    assert_eq!(
        registered,
        vec![
            ("@ab", "ab", "now"),
            ("@b", "b", "in 1 hours"),
            ("@zeta", "zeta", "in 1 days 1 hours")
        ]
    );
    let bids: Vec<(&str, &str, &str, &str)> = shown
        .bids
        .iter()
        .map(|r| {
            (r.label.as_str(), r.space_name.as_str(), r.highest_bid.as_str(), r.claim.as_str())
        })
        .collect();
    assert_eq!(
        bids,
        vec![
            ("@al", "al", "1 satoshi", "now"),
            ("@bob", "bob", "700 satoshi", "in 10 minutes"),
            ("@carol", "carol", "5 satoshi", "no rollout")
        ]
    );
}

#[test]
fn home_without_spaces() {
    let shown = home::view(Amount::from_sat(0), 0, &Vec::new());
    assert!(shown.registered.is_empty());
    assert!(shown.bids.is_empty());
    assert!(home::label_order(&Vec::new()).is_empty());
}

#[test]
fn transactions_rows() {
    assert!(transactions::view(&Vec::new()).is_empty());
    let txs = vec![
        TxInfo {
            txid: "aa".to_string(),
            confirmed: true,
            sent: Amount::from_sat(10),
            received: Amount::from_sat(3),
            fee: Some(Amount::from_sat(1)),
        },
        TxInfo {
            txid: "bb".to_string(),
            confirmed: false,
            sent: Amount::from_sat(0),
            received: Amount::from_sat(3),
            fee: None,
        },
        TxInfo {
            txid: "cc".to_string(),
            confirmed: false,
            sent: Amount::from_sat(3),
            received: Amount::from_sat(3),
            fee: None,
        },
    ];
    let rows = transactions::view(&txs);
    assert_eq!(rows.len(), 3);
    assert_eq!(rows[0].icon, Icon::ArrowDownFromArc);
    assert_eq!(rows[0].txid, "aa");
    assert_eq!(rows[0].sent, Amount::from_sat(10));
    assert_eq!(rows[0].received, Amount::from_sat(3));
    assert_eq!(rows[0].fee, Some(Amount::from_sat(1)));
    assert!(rows[0].confirmed);
    assert_eq!(rows[1].icon, Icon::ArrowDownToArc);
    assert_eq!(rows[1].txid, "bb");
    assert!(!rows[1].confirmed);
    assert_eq!(rows[2].icon, Icon::ArrowDownFromArc);
}

#[test]
fn icons() {
    assert_eq!(Icon::Artboard.as_char(), '\u{E000}');
    assert_eq!(Icon::Copy.as_char(), '\u{E001}');
    assert_eq!(Icon::ArrowDownToArc.as_char(), '\u{E003}');
    assert_eq!(Icon::ArrowDownFromArc.as_char(), '\u{E004}');
    assert_eq!(Icon::ArrowsExchange.as_char(), '\u{E005}');
    assert_eq!(Icon::At.as_char(), '\u{E006}');
}
