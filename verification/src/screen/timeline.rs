//! The column that shows how far a space has come on its way from being
//! opened to being registered.

use vstd::prelude::*;

verus! {

/// The four stations of the way.
#[derive(Clone, Copy, Debug, PartialEq, Eq, Structural)]
pub enum Station {
    Open,
    PreAuction,
    Auction,
    Claim,
}

/// The number of stations; a space that has passed them all is at this step.
pub const STATIONS: u8 = 4;

/// The number of rows: a circle for each station and, below each, a row that
/// joins it to the next.
pub const ROWS: usize = 8;

/// The station with the given number.
pub open spec fn station(n: int) -> Station {
    if n == 0 {
        Station::Open
    } else if n == 1 {
        Station::PreAuction
    } else if n == 2 {
        Station::Auction
    } else {
        Station::Claim
    }
}

impl Station {
    /// The title beside the station's circle.
    pub fn title(self) -> (t: &'static str)
        ensures
            t@ == (match self {
                Station::Open => "Open"@,
                Station::PreAuction => "Pre-auction"@,
                Station::Auction => "Auction"@,
                Station::Claim => "Claim"@,
            }),
    {
        match self {
            Station::Open => "Open",
            Station::PreAuction => "Pre-auction",
            Station::Auction => "Auction",
            Station::Claim => "Claim",
        }
    }
}

/// What is drawn at the left of a row.
#[derive(Clone, Copy, Debug, PartialEq, Eq, Structural)]
pub enum Mark {
    /// The circle of a station: filled once the station is passed, with a
    /// coloured border once it is reached, with a dot while the space is at it.
    Circle { filled: bool, border: bool, inner: bool },
    /// The line to the next station, coloured once the station above is passed.
    Line { filled: bool },
    /// The gap below the last station.
    Gap,
}

/// What is written at the right of a row.
#[derive(Clone, Copy, Debug, PartialEq, Eq, Structural)]
pub enum Caption {
    /// The title of a station.
    Title(Station),
    /// The note on where the space is now.
    Note,
    /// Nothing.
    Blank,
}

/// One row of the column.
#[derive(Clone, Copy, Debug, PartialEq, Eq, Structural)]
pub struct Row {
    pub mark: Mark,
    pub caption: Caption,
}

/// Row `i` of the column for a space at step `step`. Even rows hold the
/// stations' circles, odd rows what joins one station to the next. The note
/// stands below the circle of the station that the space is at; past the last
/// station it stands below the last circle.
pub open spec fn row_at(step: u8, i: int) -> Row {
    let n = i / 2;
    if i % 2 == 0 {
        Row {
            mark: Mark::Circle { filled: n < step, border: n <= step, inner: n == step },
            caption: Caption::Title(station(n)),
        }
    } else {
        Row {
            mark: if n == STATIONS - 1 {
                Mark::Gap
            } else {
                Mark::Line { filled: n < step }
            },
            caption: if (step == STATIONS && n == STATIONS - 1) || n == step {
                Caption::Note
            } else {
                Caption::Blank
            },
        }
    }
}

/// The column for a space at step `step`.
pub open spec fn rows_for(step: u8) -> Seq<Row> {
    Seq::new(ROWS as nat, |i: int| row_at(step, i))
}

fn station_of(n: u8) -> (s: Station)
    requires
        n < STATIONS,
    ensures
        s == station(n as int),
{
    if n == 0 {
        Station::Open
    } else if n == 1 {
        Station::PreAuction
    } else if n == 2 {
        Station::Auction
    } else {
        Station::Claim
    }
}

/// Lays out the column for a space at step `state`: 0 to 3 for the station
/// that it is at, 4 once it is registered.
pub fn view(state: u8) -> (rows: Vec<Row>)
    requires
        state <= STATIONS,
    ensures
        rows@ == rows_for(state),
{
    let mut rows: Vec<Row> = Vec::new();
    let mut i: u8 = 0;
    while i < 8
        invariant
            i <= 8,
            state <= STATIONS,
            rows@.len() == i,
            forall|k: int| 0 <= k < i ==> #[trigger] rows@[k] == row_at(state, k),
        decreases 8 - i,
    {
        let n: u8 = i / 2;
        let row = if i % 2 == 0 {
            Row {
                mark: Mark::Circle { filled: n < state, border: n <= state, inner: n == state },
                caption: Caption::Title(station_of(n)),
            }
        } else {
            Row {
                mark: if n == STATIONS - 1 {
                    Mark::Gap
                } else {
                    Mark::Line { filled: n < state }
                },
                caption: if (state == STATIONS && n == STATIONS - 1) || n == state {
                    Caption::Note
                } else {
                    Caption::Blank
                },
            }
        };
        assert(row == row_at(state, i as int));
        rows.push(row);
        i += 1;
    }
    assert(rows@ =~= rows_for(state));
    rows
}

/// The column has one note, and it stands in an odd row.
pub proof fn lemma_one_note(step: u8)
    requires
        step <= STATIONS,
    ensures
        ({
            let at = if step == STATIONS {
                7
            } else {
                2 * step + 1
            };
            forall|i: int|
                0 <= i < ROWS ==> (#[trigger] rows_for(step)[i].caption == Caption::Note <==> i
                    == at)
        }),
{
}

} // verus!
