//! The screen that lists the wallet's transactions.

use vstd::prelude::*;
use crate::store::{tx_views, TxInfo, TxInfoModel};
use crate::types::Amount;
use crate::widget::icon::Icon;

verus! {

#[derive(Clone, Debug)]
pub enum Message {
    TxidCopyPress { txid: String },
}

/// One transaction as it is listed.
#[derive(Clone, Debug)]
pub struct Row {
    /// The arrow that says which way the coins went.
    pub icon: Icon,
    pub txid: String,
    pub sent: Amount,
    pub received: Amount,
    pub fee: Option<Amount>,
    pub confirmed: bool,
}

pub struct RowModel {
    pub icon: Icon,
    pub txid: Seq<char>,
    pub sent: Amount,
    pub received: Amount,
    pub fee: Option<Amount>,
    pub confirmed: bool,
}

impl Row {
    pub open spec fn model(&self) -> RowModel {
        RowModel {
            icon: self.icon,
            txid: self.txid@,
            sent: self.sent,
            received: self.received,
            fee: self.fee,
            confirmed: self.confirmed,
        }
    }
}

pub open spec fn row_models(rows: Seq<Row>) -> Seq<RowModel> {
    Seq::new(rows.len(), |i: int| rows[i].model())
}

/// The row of a transaction. One that sent at least what it received counts
/// as going out, any other as coming in.
pub open spec fn row_of(tx: TxInfoModel) -> RowModel {
    RowModel {
        icon: if tx.sent.sat >= tx.received.sat {
            Icon::ArrowDownFromArc
        } else {
            Icon::ArrowDownToArc
        },
        txid: tx.txid,
        sent: tx.sent,
        received: tx.received,
        fee: tx.fee,
        confirmed: tx.confirmed,
    }
}

/// Decides what the screen lists: a row for each transaction, in the order in
/// which the daemon gave them. With no transaction there is no row, and the
/// screen says that there are none yet.
pub fn view(transactions: &Vec<TxInfo>) -> (rows: Vec<Row>)
    ensures
        rows@.len() == transactions@.len(),
        row_models(rows@) == Seq::new(
            transactions@.len(),
            |i: int| row_of(tx_views(transactions@)[i]),
        ),
{
    let mut rows: Vec<Row> = Vec::new();
    let mut i: usize = 0;
    while i < transactions.len()
        invariant
            i <= transactions.len(),
            rows@.len() == i,
            forall|k: int| 0 <= k < i ==> #[trigger] rows@[k].model() == row_of(transactions@[k]@),
        decreases transactions.len() - i,
    {
        let tx = &transactions[i];
        let icon = if tx.sent.sat >= tx.received.sat {
            Icon::ArrowDownFromArc
        } else {
            Icon::ArrowDownToArc
        };
        rows.push(
            Row {
                icon,
                txid: tx.txid.clone(),
                sent: tx.sent,
                received: tx.received,
                fee: tx.fee,
                confirmed: tx.confirmed,
            },
        );
        i += 1;
    }
    assert(row_models(rows@) =~= Seq::new(
        transactions@.len(),
        |i: int| row_of(tx_views(transactions@)[i]),
    ));
    rows
}

} // verus!
