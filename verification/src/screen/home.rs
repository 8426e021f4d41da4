//! The first screen: the balance and the wallet's spaces, those that are
//! registered and those that are still bid for, each list in the order of the
//! labels.

use vstd::prelude::*;
use crate::helper::height_to_est;
use crate::helpers::estimate_text;
use crate::store::space_views;
use crate::text::decimal;
use crate::types::{
    label_le, lemma_label_le_total, lemma_label_le_transitive, prefixed, Amount, Covenant, SLabel,
};

verus! {

#[derive(Clone, Debug)]
pub enum Message {
    SpaceClicked { space_name: String },
}

/// A registered space: its label as it is shown, its name as the space
/// screen takes it, and when the registration expires.
#[derive(Clone, Debug)]
pub struct RegisteredRow {
    pub label: String,
    pub space_name: String,
    pub expires: String,
}

/// A space that is bid for: its label and name, the highest bid, and when it
/// can be claimed.
#[derive(Clone, Debug)]
pub struct BidRow {
    pub label: String,
    pub space_name: String,
    pub highest_bid: String,
    pub claim: String,
}

/// What the screen shows.
#[derive(Clone, Debug)]
pub struct Home {
    pub balance: Amount,
    pub registered: Vec<RegisteredRow>,
    pub bids: Vec<BidRow>,
}

pub struct RegisteredRowModel {
    pub label: Seq<char>,
    pub space_name: Seq<char>,
    pub expires: Seq<char>,
}

pub struct BidRowModel {
    pub label: Seq<char>,
    pub space_name: Seq<char>,
    pub highest_bid: Seq<char>,
    pub claim: Seq<char>,
}

impl RegisteredRow {
    pub open spec fn model(&self) -> RegisteredRowModel {
        RegisteredRowModel {
            label: self.label@,
            space_name: self.space_name@,
            expires: self.expires@,
        }
    }
}

impl BidRow {
    pub open spec fn model(&self) -> BidRowModel {
        BidRowModel {
            label: self.label@,
            space_name: self.space_name@,
            highest_bid: self.highest_bid@,
            claim: self.claim@,
        }
    }
}

pub open spec fn registered_models(rows: Seq<RegisteredRow>) -> Seq<RegisteredRowModel> {
    Seq::new(rows.len(), |i: int| rows[i].model())
}

pub open spec fn bid_models(rows: Seq<BidRow>) -> Seq<BidRowModel> {
    Seq::new(rows.len(), |i: int| rows[i].model())
}

/// Whether the number `v` stands somewhere in `order`.
pub open spec fn occurs(order: Seq<usize>, v: int) -> bool {
    exists|i: int| 0 <= i < order.len() && #[trigger] order[i] == v
}

/// Whether `order` numbers every space of `spaces` once, in the order of
/// their labels, and spaces that share a label in the order in which they
/// came.
pub open spec fn is_label_order(order: Seq<usize>, spaces: Seq<(Seq<char>, Covenant)>) -> bool {
    &&& order.len() == spaces.len()
    &&& forall|i: int| 0 <= i < order.len() ==> #[trigger] order[i] < spaces.len()
    &&& forall|i: int, j: int|
        0 <= i < j < order.len() ==> #[trigger] order[i] != #[trigger] order[j]
    &&& forall|v: int| 0 <= v < spaces.len() ==> #[trigger] occurs(order, v)
    &&& forall|i: int, j: int|
        0 <= i < j < order.len() ==> label_le(
            spaces[#[trigger] order[i] as int].0,
            spaces[#[trigger] order[j] as int].0,
        )
    &&& forall|i: int, j: int|
        0 <= i < j < order.len() && label_le(
            spaces[#[trigger] order[j] as int].0,
            spaces[#[trigger] order[i] as int].0,
        ) ==> order[i] < order[j]
}

/// Two numberings of the same spaces in the order of their labels agree in
/// their first `n` places.
proof fn lemma_orders_agree(
    a: Seq<usize>,
    b: Seq<usize>,
    spaces: Seq<(Seq<char>, Covenant)>,
    n: nat,
)
    requires
        is_label_order(a, spaces),
        is_label_order(b, spaces),
        n <= spaces.len(),
    ensures
        forall|i: int| 0 <= i < n ==> a[i] == b[i],
    decreases n,
{
    if n > 0 {
        lemma_orders_agree(a, b, spaces, (n - 1) as nat);
        let m = n - 1;
        let x = a[m];
        let y = b[m];
        if x != y {
            assert(occurs(b, x as int));
            assert(occurs(a, y as int));
            let j = choose|j: int| 0 <= j < b.len() && #[trigger] b[j] == x as int;
            let k = choose|k: int| 0 <= k < a.len() && #[trigger] a[k] == y as int;
            if j < m {
                assert(a[j] == b[j]);
                assert(a[j] != a[m]);
            }
            if k < m {
                assert(b[k] == a[k]);
                assert(b[k] != b[m]);
            }
            assert(m < j && m < k);
            assert(label_le(spaces[a[m] as int].0, spaces[a[k] as int].0));
            assert(label_le(spaces[b[m] as int].0, spaces[b[j] as int].0));
            assert(a[m] < a[k]);
            assert(b[m] < b[j]);
        }
    }
}

/// The spaces have one numbering in the order of their labels, so that what
/// the first screen shows of them is settled.
pub proof fn lemma_label_order_is_unique(
    a: Seq<usize>,
    b: Seq<usize>,
    spaces: Seq<(Seq<char>, Covenant)>,
)
    requires
        is_label_order(a, spaces),
        is_label_order(b, spaces),
    ensures
        a == b,
{
    lemma_orders_agree(a, b, spaces, spaces.len());
    assert(a =~= b);
}

/// The spaces in the order that `order` gives.
pub open spec fn arranged(spaces: Seq<(Seq<char>, Covenant)>, order: Seq<usize>) -> Seq<
    (Seq<char>, Covenant),
> {
    Seq::new(order.len(), |i: int| spaces[order[i] as int])
}

/// The text for the height at which a space can be claimed.
pub open spec fn claim_text(claim_height: Option<u32>, tip_height: u32) -> Seq<char> {
    match claim_height {
        Some(height) => estimate_text(height, tip_height),
        None => "no rollout"@,
    }
}

/// The rows of the registered spaces among `list`, in its order.
pub open spec fn registered_rows(list: Seq<(Seq<char>, Covenant)>, tip_height: u32) -> Seq<
    RegisteredRowModel,
>
    decreases list.len(),
{
    if list.len() == 0 {
        Seq::empty()
    } else {
        let before = registered_rows(list.drop_last(), tip_height);
        match list.last().1 {
            Covenant::Transfer { expire_height } => before.push(
                RegisteredRowModel {
                    label: prefixed(list.last().0),
                    space_name: list.last().0,
                    expires: estimate_text(expire_height, tip_height),
                },
            ),
            _ => before,
        }
    }
}

/// The rows of the spaces among `list` that are bid for, in its order.
pub open spec fn bid_rows(list: Seq<(Seq<char>, Covenant)>, tip_height: u32) -> Seq<BidRowModel>
    decreases list.len(),
{
    if list.len() == 0 {
        Seq::empty()
    } else {
        let before = bid_rows(list.drop_last(), tip_height);
        match list.last().1 {
            Covenant::Bid { total_burned, claim_height } => before.push(
                BidRowModel {
                    label: prefixed(list.last().0),
                    space_name: list.last().0,
                    highest_bid: decimal(total_burned.sat as nat) + " satoshi"@,
                    claim: claim_text(claim_height, tip_height),
                },
            ),
            _ => before,
        }
    }
}

/// Numbers the spaces in the order of their labels. Spaces with the same
/// label keep the order in which they came.
pub fn label_order(spaces: &Vec<(SLabel, Covenant)>) -> (order: Vec<usize>)
    ensures
        is_label_order(order@, space_views(spaces@)),
{
    let ghost views = space_views(spaces@);
    let mut order: Vec<usize> = Vec::new();
    let mut i: usize = 0;
    while i < spaces.len()
        invariant
            i <= spaces.len(),
            views == space_views(spaces@),
            order@.len() == i,
            forall|k: int| 0 <= k < order@.len() ==> #[trigger] order@[k] < i,
            forall|k: int, l: int|
                0 <= k < l < order@.len() ==> #[trigger] order@[k] != #[trigger] order@[l],
            forall|v: int| 0 <= v < i ==> #[trigger] occurs(order@, v),
            forall|k: int, l: int|
                0 <= k < l < order@.len() ==> label_le(
                    views[#[trigger] order@[k] as int].0,
                    views[#[trigger] order@[l] as int].0,
                ),
            forall|k: int, l: int|
                0 <= k < l < order@.len() && label_le(
                    views[#[trigger] order@[l] as int].0,
                    views[#[trigger] order@[k] as int].0,
                ) ==> order@[k] < order@[l],
        decreases spaces.len() - i,
    {
        let mut p: usize = order.len();
        while p > 0 && !spaces[order[p - 1]].0.is_le(&spaces[i].0)
            invariant
                p <= order@.len(),
                i < spaces.len(),
                views == space_views(spaces@),
                forall|k: int| 0 <= k < order@.len() ==> #[trigger] order@[k] < i,
                forall|k: int|
                    p <= k < order@.len() ==> !label_le(
                        views[#[trigger] order@[k] as int].0,
                        views[i as int].0,
                    ),
            decreases p,
        {
            p -= 1;
        }
        let ghost before = order@;
        order.insert(p, i);
        proof {
            let after = order@;
            assert(after == before.insert(p as int, i));
            assert forall|k: int, l: int| 0 <= k < l < after.len() implies label_le(
                views[#[trigger] after[k] as int].0,
                views[#[trigger] after[l] as int].0,
            ) && after[k] != after[l] by {
                if l < p {
                    assert(after[k] == before[k] && after[l] == before[l]);
                } else if l == p {
                    assert(after[k] == before[k]);
                    assert(after[l] == i);
                    assert(label_le(views[before[p - 1] as int].0, views[i as int].0));
                    if k < p - 1 {
                        lemma_label_le_transitive(
                            views[before[k] as int].0,
                            views[before[p - 1] as int].0,
                            views[i as int].0,
                        );
                    }
                } else if k < p {
                    assert(after[k] == before[k] && after[l] == before[l - 1]);
                } else if k == p {
                    assert(after[k] == i);
                    assert(after[l] == before[l - 1]);
                    lemma_label_le_total(views[before[l - 1] as int].0, views[i as int].0);
                } else {
                    assert(after[k] == before[k - 1] && after[l] == before[l - 1]);
                }
            }
            assert forall|k: int, l: int|
                0 <= k < l < after.len() && label_le(
                    views[#[trigger] after[l] as int].0,
                    views[#[trigger] after[k] as int].0,
                ) implies after[k] < after[l] by {
                if l < p {
                    assert(after[k] == before[k] && after[l] == before[l]);
                } else if l == p {
                    assert(after[k] == before[k]);
                    assert(after[l] == i);
                } else if k < p {
                    assert(after[k] == before[k] && after[l] == before[l - 1]);
                } else if k == p {
                    assert(after[k] == i);
                    assert(after[l] == before[l - 1]);
                    assert(!label_le(views[before[l - 1] as int].0, views[i as int].0));
                } else {
                    assert(after[k] == before[k - 1] && after[l] == before[l - 1]);
                }
            }
            assert forall|v: int| 0 <= v < i + 1 implies #[trigger] occurs(after, v) by {
                if v == i {
                    assert(after[p as int] == v);
                } else {
                    assert(occurs(before, v));
                    let k = choose|k: int| 0 <= k < before.len() && #[trigger] before[k] == v;
                    if k < p {
                        assert(after[k] == v);
                    } else {
                        assert(after[k + 1] == v);
                    }
                }
            }
            assert forall|k: int| 0 <= k < after.len() implies #[trigger] after[k] < i + 1 by {
                if k < p {
                    assert(after[k] == before[k]);
                } else if k > p {
                    assert(after[k] == before[k - 1]);
                }
            }
        }
        i += 1;
    }
    order
}

/// Whether `home` is the first screen for a balance, a tip and a list of
/// spaces: it shows the balance and, for the numbering of the spaces in the
/// order of their labels, the rows of the registered spaces and the rows of
/// the spaces that are bid for.
pub open spec fn shows(
    home: Home,
    balance: Amount,
    tip_height: u32,
    spaces: Seq<(Seq<char>, Covenant)>,
) -> bool {
    &&& home.balance == balance
    &&& exists|order: Seq<usize>|
        {
            &&& is_label_order(order, spaces)
            &&& registered_models(home.registered@) == registered_rows(
                #[trigger] arranged(spaces, order),
                tip_height,
            )
            &&& bid_models(home.bids@) == bid_rows(arranged(spaces, order), tip_height)
        }
}

/// Decides what the first screen shows: the balance and, in the order of
/// their labels, the registered spaces with the time until they expire and
/// the spaces that are bid for with the highest bid and the time until they
/// can be claimed. Reserved spaces are shown in neither list.
pub fn view(balance: Amount, tip_height: u32, spaces: &Vec<(SLabel, Covenant)>) -> (home: Home)
    ensures
        shows(home, balance, tip_height, space_views(spaces@)),
{
    let order = label_order(spaces);
    let ghost views = space_views(spaces@);
    let ghost list = arranged(views, order@);
    let mut registered: Vec<RegisteredRow> = Vec::new();
    let mut bids: Vec<BidRow> = Vec::new();
    let mut j: usize = 0;
    proof {
        assert(list.take(0) =~= Seq::empty());
        assert(registered_models(registered@) =~= Seq::empty());
        assert(bid_models(bids@) =~= Seq::empty());
    }
    while j < order.len()
        invariant
            j <= order@.len(),
            views == space_views(spaces@),
            list == arranged(views, order@),
            is_label_order(order@, views),
            registered_models(registered@) == registered_rows(list.take(j as int), tip_height),
            bid_models(bids@) == bid_rows(list.take(j as int), tip_height),
        decreases order@.len() - j,
    {
        let entry = &spaces[order[j]];
        let ghost registered_before = registered_models(registered@);
        let ghost bids_before = bid_models(bids@);
        proof {
            assert(list.take(j + 1).drop_last() =~= list.take(j as int));
            assert(list.take(j + 1).last() == (entry.0@, entry.1));
        }
        match entry.1 {
            Covenant::Transfer { expire_height } => {
                let row = RegisteredRow {
                    label: entry.0.to_string(),
                    space_name: entry.0.to_string_unprefixed(),
                    expires: height_to_est(expire_height, tip_height),
                };
                registered.push(row);
                assert(registered_models(registered@) =~= registered_before.push(
                    RegisteredRowModel {
                        label: prefixed(entry.0@),
                        space_name: entry.0@,
                        expires: estimate_text(expire_height, tip_height),
                    },
                ));
            },
            Covenant::Bid { total_burned, claim_height } => {
                let claim = match claim_height {
                    Some(height) => height_to_est(height, tip_height),
                    None => String::from_str("no rollout"),
                };
                let row = BidRow {
                    label: entry.0.to_string(),
                    space_name: entry.0.to_string_unprefixed(),
                    highest_bid: total_burned.to_string_with_denomination(),
                    claim,
                };
                bids.push(row);
                assert(bid_models(bids@) =~= bids_before.push(
                    BidRowModel {
                        label: prefixed(entry.0@),
                        space_name: entry.0@,
                        highest_bid: decimal(total_burned.sat as nat) + " satoshi"@,
                        claim: claim_text(claim_height, tip_height),
                    },
                ));
            },
            Covenant::Reserved => {},
        }
        j += 1;
    }
    proof {
        assert(list.take(j as int) =~= list);
    }
    let home = Home { balance, registered, bids };
    assert(is_label_order(order@, views) && registered_models(home.registered@)
        == registered_rows(arranged(views, order@), tip_height));
    home
}

} // verus!
