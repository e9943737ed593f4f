//! Trading sessions and the times of day at which they run.

use vstd::prelude::*;

verus! {

/// A trading session as it has run so far: its window and the prices and
/// volume traded in it.
#[derive(Clone, Copy, Debug, PartialEq, Eq)]
pub struct Session {
    pub symbol: &'static str,
    pub label: &'static str,
    pub start: i64,
    pub end: i64,
    pub high: i64,
    pub low: i64,
    pub open: i64,
    pub close: i64,
    pub volume: u64,
}

/// A session of the trading day: the times of day at which it starts and
/// ends, in milliseconds since midnight UTC.
#[derive(Clone, Copy, Debug, PartialEq, Eq)]
pub struct ReferenceSession {
    pub label: &'static str,
    pub start: u32,
    pub end: u32,
}

/// A session of the trading day as a plain value: its label, its start and
/// its end.
pub type SessionRow = (Seq<char>, u32, u32);

impl View for ReferenceSession {
    type V = SessionRow;

    open spec fn view(&self) -> SessionRow {
        (self.label@, self.start, self.end)
    }
}

/// The sessions of the trading day as labels, starts and ends.
pub open spec fn session_table() -> Seq<SessionRow> {
    seq![
        ("Asian Session"@, 79_200_000u32, 27_000_000u32),
        ("London Session"@, 27_000_000u32, 43_200_000u32),
        ("New York Session"@, 43_200_000u32, 79_200_000u32),
    ]
}

/// What a list of sessions holds, as labels, starts and ends.
pub open spec fn tabulated(list: Seq<ReferenceSession>) -> Seq<SessionRow> {
    Seq::new(list.len(), |i: int| list[i]@)
}

/// The sessions of the trading day, in the order of [`session_table`]: the
/// Asian session from 22:00 to 07:30, the London session from 07:30 to
/// 12:00 and the New York session from 12:00 to 22:00.
pub fn sessions() -> (list: Vec<ReferenceSession>)
    ensures
        tabulated(list@) == session_table(),
{
    let mut list: Vec<ReferenceSession> = Vec::new();
    list.push(ReferenceSession { label: "Asian Session", start: 79_200_000, end: 27_000_000 });
    list.push(ReferenceSession { label: "London Session", start: 27_000_000, end: 43_200_000 });
    list.push(ReferenceSession { label: "New York Session", start: 43_200_000, end: 79_200_000 });
    assert(tabulated(list@) =~= session_table());
    list
}

} // verus!
