//! What the wallet remembers of the daemon's answers: the loaded wallet with
//! its balance, addresses, spaces and transactions, the height of the chain's
//! tip, and what was last seen of each space that was asked for.

use vstd::prelude::*;
use rustc_hash::FxHashMap;
use crate::text::same_text;
use crate::types::{Amount, Covenant, SLabel};

verus! {

/// The hasher of `rustc_hash::FxHashMap`.
#[verifier::external_type_specification]
#[verifier::external_body]
pub struct ExFxBuildHasher(rustc_hash::FxBuildHasher);

/// What a map of observations holds: for each label that was looked up, by
/// its text, the covenant that was found, or none where the space does not
/// exist.
pub uninterp spec fn observed(m: FxHashMap<String, Option<Covenant>>) -> Map<
    Seq<char>,
    Option<Covenant>,
>;

/// The observations before anything was looked up.
pub open spec fn nothing_observed() -> Map<Seq<char>, Option<Covenant>> {
    Map::empty()
}

/// `FxHashMap::default`: a map that holds nothing.
#[verifier::external_body]
fn observations_new() -> (map: FxHashMap<String, Option<Covenant>>)
    ensures
        observed(map) == nothing_observed(),
{
    FxHashMap::default()
}

/// `HashMap::insert` on the map of observations: the entry of `label` is set
/// to `covenant`, whatever it was, and no other entry changes.
#[verifier::external_body]
fn observations_insert(
    m: &mut FxHashMap<String, Option<Covenant>>,
    label: &str,
    covenant: Option<Covenant>,
)
    ensures
        observed(*final(m)) == observed(*old(m)).insert(label@, covenant),
{
    m.insert(label.to_string(), covenant);
}

/// `HashMap::get` on the map of observations: the entry of `label`, where
/// there is one.
#[verifier::external_body]
fn observations_get(m: &FxHashMap<String, Option<Covenant>>, label: &str) -> (r: Option<
    Option<Covenant>,
>)
    ensures
        r == (if observed(*m).contains_key(label@) {
            Some(observed(*m)[label@])
        } else {
            None
        }),
{
    m.get(label).copied()
}

/// The two kinds of address that a wallet hands out.
#[derive(Clone, Copy, Debug, PartialEq, Eq, Structural)]
pub enum AddressKind {
    /// For coins only.
    Coin,
    /// For spaces, and coins with them.
    Space,
}

/// An address to receive at.
#[derive(Clone, Debug)]
pub struct Address {
    pub text: String,
}

impl View for Address {
    type V = Seq<char>;

    open spec fn view(&self) -> Seq<char> {
        self.text@
    }
}

impl Address {
    pub fn new(text: String) -> (a: Address)
        ensures
            a@ == text@,
    {
        Address { text }
    }
}

/// One transaction of the wallet, as the daemon lists it.
#[derive(Clone, Debug)]
pub struct TxInfo {
    pub txid: String,
    pub confirmed: bool,
    pub sent: Amount,
    pub received: Amount,
    pub fee: Option<Amount>,
}

/// A transaction, with its identifier as a sequence of characters.
pub struct TxInfoModel {
    pub txid: Seq<char>,
    pub confirmed: bool,
    pub sent: Amount,
    pub received: Amount,
    pub fee: Option<Amount>,
}

impl View for TxInfo {
    type V = TxInfoModel;

    open spec fn view(&self) -> TxInfoModel {
        TxInfoModel {
            txid: self.txid@,
            confirmed: self.confirmed,
            sent: self.sent,
            received: self.received,
            fee: self.fee,
        }
    }
}

/// The texts of a list of labels.
pub open spec fn label_texts(labels: Seq<SLabel>) -> Seq<Seq<char>> {
    Seq::new(labels.len(), |i: int| labels[i]@)
}

/// The views of a list of transactions.
pub open spec fn tx_views(txs: Seq<TxInfo>) -> Seq<TxInfoModel> {
    Seq::new(txs.len(), |i: int| txs[i]@)
}

/// The text of an address that may still be missing.
pub open spec fn address_text(a: Option<Address>) -> Option<Seq<char>> {
    match a {
        Some(a) => Some(a@),
        None => None,
    }
}

/// The wallet that is loaded.
#[derive(Clone, Debug)]
pub struct Wallet {
    pub name: String,
    pub coin_address: Option<Address>,
    pub space_address: Option<Address>,
    pub balance: Amount,
    pub spaces: Vec<SLabel>,
    pub transactions: Vec<TxInfo>,
}

/// A wallet as plain values.
pub struct WalletModel {
    pub name: Seq<char>,
    pub coin_address: Option<Seq<char>>,
    pub space_address: Option<Seq<char>>,
    pub balance: Amount,
    pub spaces: Seq<Seq<char>>,
    pub transactions: Seq<TxInfoModel>,
}

impl View for Wallet {
    type V = WalletModel;

    open spec fn view(&self) -> WalletModel {
        WalletModel {
            name: self.name@,
            coin_address: address_text(self.coin_address),
            space_address: address_text(self.space_address),
            balance: self.balance,
            spaces: label_texts(self.spaces@),
            transactions: tx_views(self.transactions@),
        }
    }
}

/// A wallet that was loaded a moment ago: its name, and nothing known yet.
pub open spec fn fresh_wallet(name: Seq<char>) -> WalletModel {
    WalletModel {
        name,
        coin_address: None,
        space_address: None,
        balance: Amount { sat: 0 },
        spaces: Seq::empty(),
        transactions: Seq::empty(),
    }
}

impl Wallet {
    pub fn new(name: String) -> (w: Wallet)
        ensures
            w@ == fresh_wallet(name@),
    {
        let w = Wallet {
            name,
            coin_address: None,
            space_address: None,
            balance: Amount { sat: 0 },
            spaces: Vec::new(),
            transactions: Vec::new(),
        };
        assert(w@.spaces =~= Seq::empty());
        assert(w@.transactions =~= Seq::empty());
        w
    }
}

/// The view of a wallet that may not be loaded.
pub open spec fn wallet_view(w: Option<Wallet>) -> Option<WalletModel> {
    match w {
        Some(w) => Some(w@),
        None => None,
    }
}

/// The cache.
#[derive(Clone, Debug)]
pub struct Store {
    pub tip_height: u32,
    pub wallet: Option<Wallet>,
    pub spaces: FxHashMap<String, Option<Covenant>>,
}

/// The cache as plain values. In `spaces` a label without an entry was never
/// answered for, an entry of `None` says that the space does not exist, and
/// an entry of a covenant is the last one that was reported.
pub struct StoreModel {
    pub tip_height: u32,
    pub wallet: Option<WalletModel>,
    pub spaces: Map<Seq<char>, Option<Covenant>>,
}

impl View for Store {
    type V = StoreModel;

    open spec fn view(&self) -> StoreModel {
        StoreModel {
            tip_height: self.tip_height,
            wallet: wallet_view(self.wallet),
            spaces: observed(self.spaces),
        }
    }
}

/// What is known of a label: nothing, that its space does not exist, or its
/// covenant.
pub open spec fn observation_of(
    spaces: Map<Seq<char>, Option<Covenant>>,
    label: Seq<char>,
) -> Option<Option<Covenant>> {
    if spaces.contains_key(label) {
        Some(spaces[label])
    } else {
        None
    }
}

/// Whether a space counts among those shown as the wallet's own: it was
/// answered for, exists, and is not reserved.
pub open spec fn is_listed(spaces: Map<Seq<char>, Option<Covenant>>, label: Seq<char>) -> bool {
    spaces.contains_key(label) && spaces[label] is Some && spaces[label] != Some(Covenant::Reserved)
}

/// Of the labels in `owned`, in their order, those that are listed, each with
/// its covenant.
pub open spec fn owned_projection(
    owned: Seq<Seq<char>>,
    spaces: Map<Seq<char>, Option<Covenant>>,
) -> Seq<(Seq<char>, Covenant)>
    decreases owned.len(),
{
    if owned.len() == 0 {
        Seq::empty()
    } else {
        let before = owned_projection(owned.drop_last(), spaces);
        let label = owned.last();
        if is_listed(spaces, label) {
            before.push((label, spaces[label]->0))
        } else {
            before
        }
    }
}

/// The observations after each space of `list` was recorded with its
/// covenant, one after the other.
pub open spec fn observe_each(
    spaces: Map<Seq<char>, Option<Covenant>>,
    list: Seq<(Seq<char>, Covenant)>,
) -> Map<Seq<char>, Option<Covenant>>
    decreases list.len(),
{
    if list.len() == 0 {
        spaces
    } else {
        observe_each(spaces, list.drop_last()).insert(list.last().0, Some(list.last().1))
    }
}

/// The labels of a list of spaces.
pub open spec fn labels_of(list: Seq<(Seq<char>, Covenant)>) -> Seq<Seq<char>> {
    Seq::new(list.len(), |i: int| list[i].0)
}

/// The texts and covenants of a list of spaces.
pub open spec fn space_views(list: Seq<(SLabel, Covenant)>) -> Seq<(Seq<char>, Covenant)> {
    Seq::new(list.len(), |i: int| (list[i].0@, list[i].1))
}

impl Store {
    /// An empty cache: no wallet, tip at zero, nothing observed.
    pub fn new() -> (s: Store)
        ensures
            s@ == (StoreModel { tip_height: 0, wallet: None, spaces: nothing_observed() }),
    {
        Store { tip_height: 0, wallet: None, spaces: observations_new() }
    }

    /// The name of the loaded wallet.
    pub fn get_wallet_name(&self) -> (r: Option<String>)
        ensures
            r is Some <==> self@.wallet is Some,
            r matches Some(name) ==> name@ == self@.wallet->0.name,
    {
        match &self.wallet {
            Some(wallet) => Some(wallet.name.clone()),
            None => None,
        }
    }

    /// Whether the loaded wallet is the one called `name`.
    pub fn is_current(&self, name: &str) -> (r: bool)
        ensures
            r == (self@.wallet is Some && self@.wallet->0.name == name@),
    {
        match &self.wallet {
            Some(wallet) => same_text(wallet.name.as_str(), name),
            None => false,
        }
    }

    /// The loaded wallet, to be changed, if it is the one called `name`. An
    /// answer for a wallet that is no longer loaded finds nothing here.
    pub fn get_wallet_with_name(&mut self, name: &str) -> (r: Option<&mut Wallet>)
        ensures
            r is Some <==> (old(self)@.wallet is Some && old(self)@.wallet->0.name == name@),
            r matches Some(wallet) ==> *wallet == old(self).wallet->0 && final(self).wallet
                == Some(*final(wallet)) && final(self).tip_height == old(self).tip_height
                && final(self).spaces == old(self).spaces,
            r is None ==> *final(self) == *old(self),
    {
        let current = self.is_current(name);
        match &mut self.wallet {
            Some(wallet) => if current {
                Some(wallet)
            } else {
                None
            },
            None => None,
        }
    }

    /// Records what the daemon said of a space: its covenant, or that there is
    /// none. Whatever was held for the label is replaced as a whole.
    pub fn observe_space(&mut self, label: &SLabel, covenant: Option<Covenant>)
        ensures
            final(self)@ == (StoreModel {
                spaces: old(self)@.spaces.insert(label@, covenant),
                ..old(self)@
            }),
    {
        observations_insert(&mut self.spaces, label.as_str(), covenant);
    }

    /// Records each space of `list` with its covenant, and hands back their
    /// labels in the list's order.
    pub fn observe_all(&mut self, list: &Vec<(SLabel, Covenant)>) -> (labels: Vec<SLabel>)
        ensures
            final(self)@ == (StoreModel {
                spaces: observe_each(old(self)@.spaces, space_views(list@)),
                ..old(self)@
            }),
            label_texts(labels@) == labels_of(space_views(list@)),
    {
        let mut labels: Vec<SLabel> = Vec::new();
        let ghost views = space_views(list@);
        let mut i: usize = 0;
        proof {
            assert(views.take(0) =~= Seq::empty());
        }
        while i < list.len()
            invariant
                i <= list.len(),
                views == space_views(list@),
                self.tip_height == old(self).tip_height,
                self.wallet == old(self).wallet,
                observed(self.spaces) == observe_each(old(self)@.spaces, views.take(i as int)),
                labels@.len() == i,
                forall|k: int| 0 <= k < i ==> (#[trigger] labels@[k])@ == views[k].0,
            decreases list.len() - i,
        {
            let entry = &list[i];
            proof {
                assert(views.take(i + 1).drop_last() =~= views.take(i as int));
                assert(views.take(i + 1).last() == views[i as int]);
            }
            observations_insert(&mut self.spaces, entry.0.as_str(), Some(entry.1));
            labels.push(entry.0.clone());
            i += 1;
        }
        proof {
            assert(views.take(i as int) =~= views);
            assert(label_texts(labels@) =~= labels_of(views));
        }
        labels
    }

    /// What is known of a space.
    pub fn space_observation(&self, label: &SLabel) -> (r: Option<Option<Covenant>>)
        ensures
            r == observation_of(self@.spaces, label@),
    {
        observations_get(&self.spaces, label.as_str())
    }

    /// Whether the loaded wallet lists `label` among its spaces.
    pub fn owns_space(&self, label: &SLabel) -> (r: bool)
        ensures
            r == (self@.wallet is Some && self@.wallet->0.spaces.contains(label@)),
    {
        match &self.wallet {
            Some(wallet) => {
                let mut found = false;
                let mut i: usize = 0;
                while i < wallet.spaces.len()
                    invariant
                        i <= wallet.spaces.len(),
                        found == (exists|k: int|
                            0 <= k < i && #[trigger] label_texts(wallet.spaces@)[k] == label@),
                    decreases wallet.spaces.len() - i,
                {
                    if same_text(wallet.spaces[i].as_str(), label.as_str()) {
                        found = true;
                        assert(label_texts(wallet.spaces@)[i as int] == label@);
                    }
                    i += 1;
                }
                found
            },
            None => false,
        }
    }

    /// The spaces of the loaded wallet that are listed, in the wallet's
    /// order, each with its covenant; nothing where no wallet is loaded.
    pub fn get_wallet_spaces(&self) -> (r: Option<Vec<(SLabel, Covenant)>>)
        ensures
            r is Some <==> self@.wallet is Some,
            r matches Some(list) ==> space_views(list@) == owned_projection(
                self@.wallet->0.spaces,
                self@.spaces,
            ),
    {
        match &self.wallet {
            Some(wallet) => {
                let mut list: Vec<(SLabel, Covenant)> = Vec::new();
                let ghost owned = label_texts(wallet.spaces@);
                let mut i: usize = 0;
                assert(owned.take(0) =~= Seq::empty());
                assert(space_views(list@) =~= Seq::empty());
                while i < wallet.spaces.len()
                    invariant
                        i <= wallet.spaces.len(),
                        owned == label_texts(wallet.spaces@),
                        space_views(list@) == owned_projection(
                            owned.take(i as int),
                            observed(self.spaces),
                        ),
                    decreases wallet.spaces.len() - i,
                {
                    let label = &wallet.spaces[i];
                    let ghost before = space_views(list@);
                    assert(owned.take(i + 1).drop_last() =~= owned.take(i as int));
                    assert(owned.take(i + 1).last() == label@);
                    match observations_get(&self.spaces, label.as_str()) {
                        Some(Some(covenant)) => {
                            if covenant != Covenant::Reserved {
                                list.push((label.clone(), covenant));
                                assert(space_views(list@) =~= before.push((label@, covenant)));
                            }
                        },
                        _ => {},
                    }
                    i += 1;
                }
                assert(owned.take(i as int) =~= owned);
                Some(list)
            },
            None => None,
        }
    }
}

impl Default for Store {
    fn default() -> (s: Store)
        ensures
            s@ == (StoreModel { tip_height: 0, wallet: None, spaces: nothing_observed() }),
    {
        Store::new()
    }
}

} // verus!
