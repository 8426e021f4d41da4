//! What holds of the application whatever state it is in: what an answer of
//! the daemon can and cannot change, and where an error ends up.

use vstd::prelude::*;
use crate::app::{
    after_response, initial, is_current, next_commands, next_state, poll_of, AppModel,
    CommandModel, Message, RouteModel, ScreenModel,
};
use crate::rpc::{RpcError, RpcRequestModel, RpcResponse};
use crate::screen::space::{phase_of, Phase};
use crate::store::{fresh_wallet, observation_of, observe_each};
use crate::types::{Amount, Covenant, SLabel};

verus! {

/// A balance that arrives for the loaded wallet is the balance from then on,
/// and nothing else of the wallet changes.
pub proof fn lemma_balance_arrives(s: AppModel, wallet: String, balance: Amount)
    requires
        is_current(s.store, wallet@),
    ensures
        ({
            let after = after_response(s, RpcResponse::GetBalance { wallet, result: Ok(balance) });
            &&& after.store.wallet is Some
            &&& after.store.wallet->0.balance == balance
            &&& after.store.wallet->0.name == s.store.wallet->0.name
            &&& after.store.wallet->0.spaces == s.store.wallet->0.spaces
            &&& after.store.wallet->0.transactions == s.store.wallet->0.transactions
            &&& after.rpc_error is None
        }),
{
}

/// Once a wallet is loaded, a balance that arrives under its name is shown as
/// its balance.
pub proof fn lemma_load_then_balance(s: AppModel, wallet: String, balance: Amount)
    ensures
        ({
            let loaded = after_response(
                s,
                RpcResponse::LoadWallet { wallet, result: Ok(()) },
            );
            let after = after_response(
                loaded,
                RpcResponse::GetBalance { wallet, result: Ok(balance) },
            );
            &&& loaded.store.wallet == Some(fresh_wallet(wallet@))
            &&& after.store.wallet is Some
            &&& after.store.wallet->0.name == wallet@
            &&& after.store.wallet->0.balance == balance
        }),
{
}

/// An answer for a wallet that is not the loaded one is dropped: it changes
/// nothing of the cache or the screen, whichever part of a wallet it brings,
/// and only clears the error of the session as every answer does.
pub proof fn lemma_stale_answer_is_dropped(s: AppModel, response: RpcResponse)
    requires
        match response {
            RpcResponse::GetBalance { wallet, result } => result is Ok && !is_current(
                s.store,
                wallet@,
            ),
            RpcResponse::GetTransactions { wallet, result } => result is Ok && !is_current(
                s.store,
                wallet@,
            ),
            RpcResponse::GetWalletSpaces { wallet, result } => result is Ok && !is_current(
                s.store,
                wallet@,
            ),
            RpcResponse::GetAddress { wallet, result, .. } => result is Ok && !is_current(
                s.store,
                wallet@,
            ),
            _ => false,
        },
    ensures
        after_response(s, response) == (AppModel { rpc_error: None, ..s }),
        after_response(s, response).store.wallet == s.store.wallet,
        after_response(s, response).store.spaces == s.store.spaces,
        after_response(s, response).store.tip_height == s.store.tip_height,
        after_response(s, response).screen == s.screen,
{
}

/// What the daemon says of a space replaces what was held for its label as a
/// whole, and touches no other label.
pub proof fn lemma_observation_overwrites(
    s: AppModel,
    slabel: SLabel,
    covenant: Option<Covenant>,
    other: Seq<char>,
)
    ensures
        ({
            let after = after_response(
                s,
                RpcResponse::GetSpaceInfo { slabel, result: Ok(covenant) },
            );
            &&& observation_of(after.store.spaces, slabel@) == Some(covenant)
            &&& other != slabel@ ==> observation_of(after.store.spaces, other) == observation_of(
                s.store.spaces,
                other,
            )
        }),
{
}

/// Of two answers on one space the one that arrives last is held, whichever
/// was asked for first.
pub proof fn lemma_last_answer_wins(
    s: AppModel,
    slabel: SLabel,
    first: Option<Covenant>,
    last: Option<Covenant>,
)
    ensures
        ({
            let between = after_response(
                s,
                RpcResponse::GetSpaceInfo { slabel, result: Ok(first) },
            );
            let after = after_response(
                between,
                RpcResponse::GetSpaceInfo { slabel, result: Ok(last) },
            );
            observation_of(after.store.spaces, slabel@) == Some(last)
        }),
{
}

/// A space that the daemon does not know can be opened, whoever asks and
/// whatever the tip.
pub proof fn lemma_unknown_space_is_open(
    s: AppModel,
    slabel: SLabel,
    tip_height: u32,
    is_owned: bool,
)
    ensures
        ({
            let after = after_response(s, RpcResponse::GetSpaceInfo { slabel, result: Ok(None) });
            &&& observation_of(after.store.spaces, slabel@) == Some(None::<Covenant>)
            &&& phase_of(observation_of(after.store.spaces, slabel@), tip_height, is_owned)
                == Phase::OpenEligible
        }),
{
}

/// Recording a list of spaces forgets no label.
pub proof fn lemma_observe_each_keeps(
    spaces: Map<Seq<char>, Option<Covenant>>,
    list: Seq<(Seq<char>, Covenant)>,
    label: Seq<char>,
)
    requires
        spaces.contains_key(label),
    ensures
        observe_each(spaces, list).contains_key(label),
    decreases list.len(),
{
    if list.len() > 0 {
        lemma_observe_each_keeps(spaces, list.drop_last(), label);
    }
}

/// The loaded wallet is replaced when a wallet was loaded and by nothing
/// else: after any other message the same wallet is loaded, under the same
/// name.
pub proof fn lemma_wallet_switches_only_on_load(s: AppModel, message: Message)
    requires
        !(message matches Message::RpcResponse(RpcResponse::LoadWallet { result: Ok(_), .. })),
    ensures
        next_state(s, message).store.wallet is Some <==> s.store.wallet is Some,
        s.store.wallet is Some ==> next_state(s, message).store.wallet->0.name
            == s.store.wallet->0.name,
{
}

/// Only an answer of the daemon changes the cache, and only an answer sets
/// or clears the error of the session.
pub proof fn lemma_only_answers_touch_the_cache(s: AppModel, message: Message)
    requires
        !(message is RpcResponse),
    ensures
        next_state(s, message).store == s.store,
        next_state(s, message).rpc_error == s.rpc_error,
{
}

/// No message makes the cache forget a space: a label that was answered for
/// stays answered for.
pub proof fn lemma_observations_grow(s: AppModel, message: Message, label: Seq<char>)
    requires
        s.store.spaces.contains_key(label),
    ensures
        next_state(s, message).store.spaces.contains_key(label),
{
    match message {
        Message::RpcResponse(RpcResponse::GetWalletSpaces { wallet, result: Ok(spaces) }) => {
            lemma_observe_each_keeps(s.store.spaces, crate::store::space_views(spaces@), label);
        },
        _ => {},
    }
}

/// The height of the tip changes with an answer on the server's state and
/// with nothing else.
pub proof fn lemma_tip_follows_server_info(s: AppModel, message: Message)
    ensures
        message matches Message::RpcResponse(RpcResponse::GetServerInfo { result: Ok(height) })
            ==> next_state(s, message).store.tip_height == height,
        !(message matches Message::RpcResponse(RpcResponse::GetServerInfo { result: Ok(_) }))
            ==> next_state(s, message).store.tip_height == s.store.tip_height,
{
}

/// An error that the user can correct, on a form that was sent from the send
/// screen while that screen is still shown, is shown beside the form, and the
/// session has no error.
pub proof fn lemma_send_error_stays_local(s: AppModel, message: String)
    requires
        s.screen is Send,
    ensures
        ({
            let after = after_response(
                s,
                RpcResponse::SendCoins {
                    result: Err(RpcError::Call { code: crate::rpc::USER_ERROR_CODE, message }),
                },
            );
            &&& after.rpc_error is None
            &&& after.screen is Send
            &&& after.screen->Send_0.error == Some(message@)
            &&& after.screen->Send_0.recipient == s.screen->Send_0.recipient
            &&& after.screen->Send_0.amount == s.screen->Send_0.amount
            &&& after.store == s.store
        }),
{
}

/// Any error but one that the user can correct becomes the error of the
/// session, whatever was asked, and leaves the screen and the cache alone.
pub proof fn lemma_other_errors_are_global(s: AppModel, error: RpcError)
    requires
        !error.model().is_local(),
    ensures
        ({
            let after = after_response(s, RpcResponse::SendCoins { result: Err(error) });
            &&& after.rpc_error == Some(error.model().message())
            &&& after.screen == s.screen
            &&& after.store == s.store
        }),
        ({
            let after = after_response(s, RpcResponse::OpenSpace { result: Err(error) });
            &&& after.rpc_error == Some(error.model().message())
            &&& after.screen == s.screen
            &&& after.store == s.store
        }),
        ({
            let after = after_response(s, RpcResponse::GetServerInfo { result: Err(error) });
            &&& after.rpc_error == Some(error.model().message())
            &&& after.screen == s.screen
            &&& after.store == s.store
        }),
{
}

/// An error that belongs to a form whose screen is gone is shown nowhere.
pub proof fn lemma_late_form_error_is_lost(s: AppModel, message: String)
    requires
        !(s.screen is Space),
    ensures
        ({
            let after = after_response(
                s,
                RpcResponse::BidSpace {
                    result: Err(RpcError::Call { code: crate::rpc::USER_ERROR_CODE, message }),
                },
            );
            &&& after.rpc_error is None
            &&& after.screen == s.screen
            &&& after.store == s.store
        }),
{
}

/// While an error of the session is shown, or no wallet is loaded, nothing is
/// polled; the next answer that is no error clears the error.
pub proof fn lemma_polling_pauses_on_error(s: AppModel, height: u32)
    ensures
        s.rpc_error is Some ==> poll_of(s) is None,
        s.store.wallet is None ==> poll_of(s) is None,
        after_response(s, RpcResponse::GetServerInfo { result: Ok(height) }).rpc_error is None,
        s.store.wallet is Some ==> poll_of(
            after_response(s, RpcResponse::GetServerInfo { result: Ok(height) }),
        ) is Some,
{
}

/// Loading a wallet leads to the first screen, which asks for the balance and
/// the wallet's spaces.
pub proof fn lemma_load_leads_home(s: AppModel, wallet: String)
    ensures
        next_commands(
            s,
            Message::RpcResponse(RpcResponse::LoadWallet { wallet, result: Ok(()) }),
        ) == seq![CommandModel::Navigate(RouteModel::Home)],
        next_state(s, Message::NavigateTo(crate::app::Route::Home)).screen == ScreenModel::Home,
        next_commands(s, Message::NavigateTo(crate::app::Route::Home)) == seq![
            CommandModel::Request(RpcRequestModel::GetBalance),
            CommandModel::Request(RpcRequestModel::GetWalletSpaces),
        ],
{
}

/// As the application starts nothing is polled and no error is shown.
pub proof fn lemma_initial_is_quiet()
    ensures
        poll_of(initial()) is None,
        initial().rpc_error is None,
        initial().store.wallet is None,
{
}

} // verus!
