//! Handler for the ready event.

use crate::model::Ready;
use crate::text::{append_decimal, decimal_digits};
use vstd::prelude::*;

verus! {

/// Start of the line that a ready shard is logged as; the shard follows.
pub const READY_SHARD: &'static str = "Shard ";

/// Middle of that line; the connected user and a full stop follow.
pub const READY_USER: &'static str = " ready to recieve events as user ";

/// The diagnostic record of a shard that is connected.
#[derive(Debug, Clone, Copy, PartialEq, Eq)]
pub struct ReadyRecord {
    /// The shard that is ready.
    pub shard_id: u64,
    /// The user that the shard is connected as.
    pub user_id: u64,
}

impl ReadyRecord {
    /// The line that the record is logged as.
    pub open spec fn line(self) -> Seq<char> {
        READY_SHARD@ + decimal_digits(self.shard_id as nat) + READY_USER@ + decimal_digits(
            self.user_id as nat,
        ) + "."@
    }

    /// Renders the line that the record is logged as.
    pub fn message(&self) -> (text: String)
        ensures
            text@ == self.line(),
    {
        let mut text = READY_SHARD.to_owned();
        append_decimal(&mut text, self.shard_id);
        text.append(READY_USER);
        append_decimal(&mut text, self.user_id);
        text.append(".");
        text
    }
}

/// Handler for the ready event.
///
/// This is called whenever a shard is ready and fully connected. It only
/// produces the record of that.
pub fn handle_event(shard_id: u64, payload: Ready) -> (record: ReadyRecord)
    ensures
        record == (ReadyRecord { shard_id, user_id: payload.user_id }),
{
    ReadyRecord { shard_id, user_id: payload.user_id }
}

} // verus!
