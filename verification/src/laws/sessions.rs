//! What holds of the windows of the trading sessions.

use vstd::prelude::*;
use crate::entities::session::session_table;
use crate::handlers::sessions::{first_session, session_window};
use crate::utils::{time_of_day, DAY_MS, HOUR_MS};

verus! {

/// The window of the session that holds an instant holds the instant too,
/// but for the last half hour of the Asian session, from seven o'clock to
/// half past seven, when the window is the one that opens in the evening.
pub proof fn lemma_window_holds_the_instant(t: i64)
    ensures
        first_session(session_table(), time_of_day(t as int) as u32) matches Some(row) && (
        row.0 == "Asian Session"@ && 7 * HOUR_MS <= time_of_day(t as int) <= 27_000_000
            || session_window(t as int, row).0 <= t <= session_window(t as int, row).1),
{
    reveal_with_fuel(first_session, 4);
    reveal_strlit("Asian Session");
    reveal_strlit("London Session");
    reveal_strlit("New York Session");
    let time = time_of_day(t as int);
    assert(0 <= time < DAY_MS);
    let row = first_session(session_table(), time as u32).unwrap();
    if row.0 == "Asian Session"@ {
        assert("Asian Session"@.len() == 13);
        assert(row == session_table()[0]);
    } else if row == session_table()[1] {
        assert("London Session"@.len() == 14);
    } else {
        assert("New York Session"@.len() == 16);
        assert(row == session_table()[2]);
    }
}

} // verus!
