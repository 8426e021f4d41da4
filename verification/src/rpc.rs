//! The daemon's interface as the wallet uses it: the requests that the
//! application makes, the calls that they become, and the answers.

use vstd::prelude::*;
use spaces_protocol::hasher::KeyHasher;
use crate::store::{AddressKind, TxInfo};
use crate::types::{lemma_label_is_ascii, prefixed, Amount, Covenant, SLabel};

verus! {

/// The code by which the daemon marks an error that the user can correct.
pub const USER_ERROR_CODE: i32 = -1;

/// How many transactions are asked for at once.
pub const TRANSACTIONS_PAGE: usize = 100;

/// Why a call failed.
#[derive(Clone, Debug)]
pub enum RpcError {
    /// The daemon refused the request.
    Call { code: i32, message: String },
    /// The call did not get through, or its answer could not be read.
    Global { message: String },
}

/// An error as plain values.
pub enum RpcErrorModel {
    Call { code: i32, message: Seq<char> },
    Global { message: Seq<char> },
}

impl RpcErrorModel {
    /// The error's words.
    pub open spec fn message(self) -> Seq<char> {
        match self {
            RpcErrorModel::Call { message, .. } => message,
            RpcErrorModel::Global { message } => message,
        }
    }

    /// Whether the error belongs beside the form that caused it: the daemon
    /// refused the request with the code of a user's error. Any other error
    /// belongs to the session.
    pub open spec fn is_local(self) -> bool {
        self matches RpcErrorModel::Call { code, .. } && code == USER_ERROR_CODE
    }
}

impl RpcError {
    pub open spec fn model(&self) -> RpcErrorModel {
        match self {
            RpcError::Call { code, message } => RpcErrorModel::Call {
                code: *code,
                message: message@,
            },
            RpcError::Global { message } => RpcErrorModel::Global { message: message@ },
        }
    }

    /// Whether the error belongs beside the form that caused it.
    pub fn is_local(&self) -> (local: bool)
        ensures
            local == self.model().is_local(),
    {
        match self {
            RpcError::Call { code, message: _ } => *code == USER_ERROR_CODE,
            RpcError::Global { message: _ } => false,
        }
    }

    /// The error's words.
    pub fn to_string(&self) -> (text: String)
        ensures
            text@ == self.model().message(),
    {
        match self {
            RpcError::Call { code: _, message } => message.clone(),
            RpcError::Global { message } => message.clone(),
        }
    }

    /// The error's words, taken out of it.
    pub fn into_message(self) -> (text: String)
        ensures
            text@ == self.model().message(),
    {
        match self {
            RpcError::Call { code: _, message } => message,
            RpcError::Global { message } => message,
        }
    }
}

/// What the application wants from the daemon.
#[derive(Clone, Debug)]
pub enum RpcRequest {
    GetServerInfo,
    GetSpaceInfo { slabel: SLabel },
    LoadWallet { wallet: String },
    GetBalance,
    GetWalletSpaces,
    GetTransactions,
    GetAddress { address_kind: AddressKind },
    SendCoins { recipient: String, amount: Amount },
    OpenSpace { slabel: SLabel, amount: Amount },
    BidSpace { slabel: SLabel, amount: Amount },
    RegisterSpace { slabel: SLabel },
}

/// A request as plain values.
pub enum RpcRequestModel {
    GetServerInfo,
    GetSpaceInfo { slabel: Seq<char> },
    LoadWallet { wallet: Seq<char> },
    GetBalance,
    GetWalletSpaces,
    GetTransactions,
    GetAddress { address_kind: AddressKind },
    SendCoins { recipient: Seq<char>, amount: Amount },
    OpenSpace { slabel: Seq<char>, amount: Amount },
    BidSpace { slabel: Seq<char>, amount: Amount },
    RegisterSpace { slabel: Seq<char> },
}

impl RpcRequest {
    pub open spec fn model(&self) -> RpcRequestModel {
        match self {
            RpcRequest::GetServerInfo => RpcRequestModel::GetServerInfo,
            RpcRequest::GetSpaceInfo { slabel } => RpcRequestModel::GetSpaceInfo {
                slabel: slabel@,
            },
            RpcRequest::LoadWallet { wallet } => RpcRequestModel::LoadWallet { wallet: wallet@ },
            RpcRequest::GetBalance => RpcRequestModel::GetBalance,
            RpcRequest::GetWalletSpaces => RpcRequestModel::GetWalletSpaces,
            RpcRequest::GetTransactions => RpcRequestModel::GetTransactions,
            RpcRequest::GetAddress { address_kind } => RpcRequestModel::GetAddress {
                address_kind: *address_kind,
            },
            RpcRequest::SendCoins { recipient, amount } => RpcRequestModel::SendCoins {
                recipient: recipient@,
                amount: *amount,
            },
            RpcRequest::OpenSpace { slabel, amount } => RpcRequestModel::OpenSpace {
                slabel: slabel@,
                amount: *amount,
            },
            RpcRequest::BidSpace { slabel, amount } => RpcRequestModel::BidSpace {
                slabel: slabel@,
                amount: *amount,
            },
            RpcRequest::RegisterSpace { slabel } => RpcRequestModel::RegisterSpace {
                slabel: slabel@,
            },
        }
    }
}

/// What the daemon answered. An answer that belongs to a wallet names it, so
/// that it can be dropped when another wallet has been loaded since.
#[derive(Debug)]
#[allow(inconsistent_fields)]
pub enum RpcResponse {
    /// The height of the chain's tip.
    GetServerInfo { result: Result<u32, RpcError> },
    /// The covenant of the space, or none where the space does not exist.
    GetSpaceInfo { slabel: SLabel, result: Result<Option<Covenant>, RpcError> },
    LoadWallet { wallet: String, result: Result<(), RpcError> },
    GetBalance { wallet: String, result: Result<Amount, RpcError> },
    GetTransactions { wallet: String, result: Result<Vec<TxInfo>, RpcError> },
    /// The wallet's spaces, each with its covenant.
    GetWalletSpaces { wallet: String, result: Result<Vec<(SLabel, Covenant)>, RpcError> },
    GetAddress { wallet: String, address_kind: AddressKind, result: Result<String, RpcError> },
    SendCoins { result: Result<(), RpcError> },
    OpenSpace { result: Result<(), RpcError> },
    BidSpace { result: Result<(), RpcError> },
    RegisterSpace { result: Result<(), RpcError> },
}

/// One item of a request to build and send a transaction.
#[derive(Clone, Debug)]
pub enum WalletRequest {
    SendCoins { to: String, amount: Amount },
    /// To open the space called `name`, with `amount`.
    Open { name: String, amount: Amount },
    /// To bid `amount` for the space called `name`.
    Bid { name: String, amount: Amount },
    /// To register the space called `name` to the wallet itself.
    Register { name: String },
}

pub enum WalletRequestModel {
    SendCoins { to: Seq<char>, amount: Amount },
    Open { name: Seq<char>, amount: Amount },
    Bid { name: Seq<char>, amount: Amount },
    Register { name: Seq<char> },
}

impl WalletRequest {
    pub open spec fn model(&self) -> WalletRequestModel {
        match self {
            WalletRequest::SendCoins { to, amount } => WalletRequestModel::SendCoins {
                to: to@,
                amount: *amount,
            },
            WalletRequest::Open { name, amount } => WalletRequestModel::Open {
                name: name@,
                amount: *amount,
            },
            WalletRequest::Bid { name, amount } => WalletRequestModel::Bid {
                name: name@,
                amount: *amount,
            },
            WalletRequest::Register { name } => WalletRequestModel::Register { name: name@ },
        }
    }
}

/// A call of the daemon, with all that it is made with.
#[derive(Clone, Debug)]
pub enum RpcCall {
    GetServerInfo,
    /// Looks a space up by the hash of its label, in hexadecimal. The label
    /// goes along so that the answer can name it.
    GetSpace { slabel: SLabel, space_hash: String },
    WalletLoad { wallet: String },
    WalletGetBalance { wallet: String },
    WalletListSpaces { wallet: String },
    WalletListTransactions { wallet: String, count: usize, skip: usize },
    WalletGetNewAddress { wallet: String, address_kind: AddressKind },
    /// Builds and sends a transaction of one item, with the fee chosen by the
    /// daemon.
    WalletSendRequest { wallet: String, request: WalletRequest },
}

pub enum RpcCallModel {
    GetServerInfo,
    GetSpace { slabel: Seq<char>, space_hash: Seq<char> },
    WalletLoad { wallet: Seq<char> },
    WalletGetBalance { wallet: Seq<char> },
    WalletListSpaces { wallet: Seq<char> },
    WalletListTransactions { wallet: Seq<char>, count: usize, skip: usize },
    WalletGetNewAddress { wallet: Seq<char>, address_kind: AddressKind },
    WalletSendRequest { wallet: Seq<char>, request: WalletRequestModel },
}

impl RpcCall {
    pub open spec fn model(&self) -> RpcCallModel {
        match self {
            RpcCall::GetServerInfo => RpcCallModel::GetServerInfo,
            RpcCall::GetSpace { slabel, space_hash } => RpcCallModel::GetSpace {
                slabel: slabel@,
                space_hash: space_hash@,
            },
            RpcCall::WalletLoad { wallet } => RpcCallModel::WalletLoad { wallet: wallet@ },
            RpcCall::WalletGetBalance { wallet } => RpcCallModel::WalletGetBalance {
                wallet: wallet@,
            },
            RpcCall::WalletListSpaces { wallet } => RpcCallModel::WalletListSpaces {
                wallet: wallet@,
            },
            RpcCall::WalletListTransactions { wallet, count, skip } => {
                RpcCallModel::WalletListTransactions { wallet: wallet@, count: *count, skip: *skip }
            },
            RpcCall::WalletGetNewAddress { wallet, address_kind } => {
                RpcCallModel::WalletGetNewAddress { wallet: wallet@, address_kind: *address_kind }
            },
            RpcCall::WalletSendRequest { wallet, request } => RpcCallModel::WalletSendRequest {
                wallet: wallet@,
                request: request.model(),
            },
        }
    }
}

/// The SHA-256 digest of a sequence of bytes.
pub uninterp spec fn sha256_digest(data: Seq<u8>) -> Seq<u8>;

/// `spaces_client::store::Sha256`, the hasher of the daemon's keys, through
/// `KeyHasher::hash`: the SHA-256 digest of the bytes, which has 32 bytes.
#[verifier::external_body]
fn sha256(data: &[u8]) -> (digest: Vec<u8>)
    ensures
        digest@ == sha256_digest(data@),
        digest@.len() == 32,
{
    spaces_client::store::Sha256::hash(data).to_vec()
}

/// The lower-case hexadecimal digit of a value below sixteen.
pub open spec fn hex_digit(v: int) -> char {
    if v == 10 {
        'a'
    } else if v == 11 {
        'b'
    } else if v == 12 {
        'c'
    } else if v == 13 {
        'd'
    } else if v == 14 {
        'e'
    } else if v == 15 {
        'f'
    } else {
        crate::text::digit_char(v)
    }
}

/// Bytes in hexadecimal: two lower-case digits for each byte, the higher half
/// first.
pub open spec fn hex_text(data: Seq<u8>) -> Seq<char> {
    Seq::new(
        2 * data.len(),
        |i: int|
            if i % 2 == 0 {
                hex_digit(data[i / 2] as int / 16)
            } else {
                hex_digit(data[i / 2] as int % 16)
            },
    )
}

/// `hex::encode`: each byte as two lower-case hexadecimal digits.
#[verifier::external_body]
fn hex_encode(data: &[u8]) -> (text: String)
    ensures
        text@ == hex_text(data@),
{
    hex::encode(data)
}

/// A label as it is hashed: one byte that holds its length, then its
/// characters.
pub open spec fn wire_form(label: Seq<char>) -> Seq<u8> {
    seq![label.len() as u8] + Seq::new(label.len(), |i: int| label[i] as u8)
}

/// The key under which the daemon holds a space: the hash of the label's wire
/// form, in hexadecimal.
pub open spec fn space_hash_of(label: Seq<char>) -> Seq<char> {
    hex_text(sha256_digest(wire_form(label)))
}

/// Writes a digest out as the key that the daemon takes.
pub fn key_of_digest(digest: &[u8]) -> (key: String)
    ensures
        key@ == hex_text(digest@),
        key@.len() == 2 * digest@.len(),
{
    hex_encode(digest)
}

/// Computes the key under which the daemon holds the space of `label`.
pub fn space_hash(label: &SLabel) -> (hash: String)
    ensures
        hash@ == space_hash_of(label@),
        hash@.len() == 64,
{
    let text = label.as_str();
    proof {
        lemma_label_is_ascii(text@);
        vstd::utf8::is_ascii_chars_encode_utf8(text@);
    }
    let mut bytes = text.as_bytes_vec();
    let mut wire: Vec<u8> = Vec::new();
    wire.push(bytes.len() as u8);
    wire.append(&mut bytes);
    assert(wire@ =~= wire_form(label@));
    let digest = sha256(wire.as_slice());
    key_of_digest(digest.as_slice())
}

/// The call that a request becomes when it is made in the name of `wallet`.
pub open spec fn wallet_call_for(wallet: Seq<char>, request: RpcRequestModel) -> RpcCallModel {
    match request {
        RpcRequestModel::GetServerInfo => RpcCallModel::GetServerInfo,
        RpcRequestModel::GetSpaceInfo { slabel } => RpcCallModel::GetSpace {
            slabel,
            space_hash: space_hash_of(slabel),
        },
        RpcRequestModel::LoadWallet { wallet: name } => RpcCallModel::WalletLoad { wallet: name },
        RpcRequestModel::GetBalance => RpcCallModel::WalletGetBalance { wallet },
        RpcRequestModel::GetWalletSpaces => RpcCallModel::WalletListSpaces { wallet },
        RpcRequestModel::GetTransactions => RpcCallModel::WalletListTransactions {
            wallet,
            count: TRANSACTIONS_PAGE,
            skip: 0,
        },
        RpcRequestModel::GetAddress { address_kind } => RpcCallModel::WalletGetNewAddress {
            wallet,
            address_kind,
        },
        RpcRequestModel::SendCoins { recipient, amount } => RpcCallModel::WalletSendRequest {
            wallet,
            request: WalletRequestModel::SendCoins { to: recipient, amount },
        },
        RpcRequestModel::OpenSpace { slabel, amount } => RpcCallModel::WalletSendRequest {
            wallet,
            request: WalletRequestModel::Open { name: prefixed(slabel), amount },
        },
        RpcRequestModel::BidSpace { slabel, amount } => RpcCallModel::WalletSendRequest {
            wallet,
            request: WalletRequestModel::Bid { name: prefixed(slabel), amount },
        },
        RpcRequestModel::RegisterSpace { slabel } => RpcCallModel::WalletSendRequest {
            wallet,
            request: WalletRequestModel::Register { name: prefixed(slabel) },
        },
    }
}

/// Whether a request can be made while no wallet is loaded: asking for the
/// server's state, looking a space up and loading a wallet can.
pub open spec fn needs_no_wallet(request: RpcRequestModel) -> bool {
    request is GetServerInfo || request is GetSpaceInfo || request is LoadWallet
}

/// The call that a request becomes. A request that needs a wallet is made in
/// the name of the loaded one, and becomes no call while none is loaded.
pub open spec fn call_for(wallet: Option<Seq<char>>, request: RpcRequestModel) -> Option<
    RpcCallModel,
> {
    match wallet {
        Some(wallet) => Some(wallet_call_for(wallet, request)),
        None => if needs_no_wallet(request) {
            Some(wallet_call_for(Seq::empty(), request))
        } else {
            None
        },
    }
}

/// Turns a request into the call to make, given the name of the loaded
/// wallet, if one is loaded.
pub fn call_of(wallet: Option<String>, request: RpcRequest) -> (call: Option<RpcCall>)
    ensures
        call is Some <==> call_for(crate::text::opt_text(wallet), request.model()) is Some,
        call matches Some(c) ==> c.model() == call_for(
            crate::text::opt_text(wallet),
            request.model(),
        )->0,
{
    match request {
        RpcRequest::GetServerInfo => Some(RpcCall::GetServerInfo),
        RpcRequest::GetSpaceInfo { slabel } => {
            let space_hash = space_hash(&slabel);
            Some(RpcCall::GetSpace { slabel, space_hash })
        },
        RpcRequest::LoadWallet { wallet: name } => Some(RpcCall::WalletLoad { wallet: name }),
        RpcRequest::GetBalance => match wallet {
            Some(wallet) => Some(RpcCall::WalletGetBalance { wallet }),
            None => None,
        },
        RpcRequest::GetWalletSpaces => match wallet {
            Some(wallet) => Some(RpcCall::WalletListSpaces { wallet }),
            None => None,
        },
        RpcRequest::GetTransactions => match wallet {
            Some(wallet) => Some(
                RpcCall::WalletListTransactions { wallet, count: TRANSACTIONS_PAGE, skip: 0 },
            ),
            None => None,
        },
        RpcRequest::GetAddress { address_kind } => match wallet {
            Some(wallet) => Some(RpcCall::WalletGetNewAddress { wallet, address_kind }),
            None => None,
        },
        RpcRequest::SendCoins { recipient, amount } => match wallet {
            Some(wallet) => Some(
                RpcCall::WalletSendRequest {
                    wallet,
                    request: WalletRequest::SendCoins { to: recipient, amount },
                },
            ),
            None => None,
        },
        RpcRequest::OpenSpace { slabel, amount } => match wallet {
            Some(wallet) => Some(
                RpcCall::WalletSendRequest {
                    wallet,
                    request: WalletRequest::Open {
                        name: slabel.to_string(),
                        amount,
                    },
                },
            ),
            None => None,
        },
        RpcRequest::BidSpace { slabel, amount } => match wallet {
            Some(wallet) => Some(
                RpcCall::WalletSendRequest {
                    wallet,
                    request: WalletRequest::Bid {
                        name: slabel.to_string(),
                        amount,
                    },
                },
            ),
            None => None,
        },
        RpcRequest::RegisterSpace { slabel } => match wallet {
            Some(wallet) => Some(
                RpcCall::WalletSendRequest {
                    wallet,
                    request: WalletRequest::Register { name: slabel.to_string() },
                },
            ),
            None => None,
        },
    }
}

} // verus!
