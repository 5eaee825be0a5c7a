//! The in-memory log shown to the user: a ring of the latest lines.
use vstd::prelude::*;

use crate::structs::{LogMessage, LogType};

verus! {

/// How many log lines are kept.
pub const ERRBUFSIZE: usize = 20;

/// Appends a line numbered one past the last line (zero for the first), then
/// drops the oldest line when more than `ERRBUFSIZE` are held.
pub fn append_log(error_array: &mut Vec<LogMessage>, log_type: LogType, log_message: String)
    requires
        old(error_array)@.len() > 0 ==> old(error_array)@.last().index < u128::MAX,
    ensures
        ({
            let line = LogMessage {
                index: if old(error_array)@.len() == 0 {
                    0
                } else {
                    (old(error_array)@.last().index + 1) as u128
                },
                kind: log_type,
                logmsg: log_message,
            };
            let grown = old(error_array)@.push(line);
            final(error_array)@ == if grown.len() > ERRBUFSIZE {
                grown.drop_first()
            } else {
                grown
            }
        }),
{
    if error_array.len() == 0 {
        error_array.push(LogMessage { index: 0, kind: log_type, logmsg: log_message });
    } else {
        let cur_idx = error_array[error_array.len() - 1].index;
        error_array.push(LogMessage { index: cur_idx + 1, kind: log_type, logmsg: log_message });
        if error_array.len() > ERRBUFSIZE {
            let _ = error_array.remove(0);
        }
    }
}

} // verus!
