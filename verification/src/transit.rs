//! Chatters joining and leaving channels.

use vstd::prelude::*;
use crate::models::{ConnectedUsersToChannel, ConnectedUsersToChannelHistory};

verus! {

/// Whether a chatter joined or left a channel.
#[derive(Clone, Copy, PartialEq, Eq, Structural, Debug)]
pub enum TransitState {
    JOIN,
    LEAVE,
}

impl TransitState {
    /// The name written to the history table.
    pub open spec fn text(self) -> Seq<char> {
        match self {
            TransitState::JOIN => "JOIN"@,
            TransitState::LEAVE => "LEAVE"@,
        }
    }

    /// The name written to the history table: `JOIN` or `LEAVE`.
    pub fn to_string(&self) -> (res: String)
        ensures
            res@ == self.text(),
    {
        match self {
            TransitState::JOIN => "JOIN".to_owned(),
            TransitState::LEAVE => "LEAVE".to_owned(),
        }
    }
}

/// What is done to the presence row of a chatter.
#[derive(Clone, Copy, PartialEq, Eq, Structural, Debug)]
pub enum PresenceChange {
    /// The row is written: the chatter is present.
    Insert,
    /// The row is removed: the chatter is gone.
    Delete,
}

/// The writes that record a chatter joining or leaving a channel.
pub struct TransitPlan {
    pub change: PresenceChange,
    /// The presence row that is written or removed.
    pub connection: ConnectedUsersToChannel,
    /// The history row that is written in either case.
    pub history: ConnectedUsersToChannelHistory,
}

/// The writes for a chatter joining or leaving a channel: a join writes the presence row,
/// a leave removes it, and both append a history row naming the event. `joined_at` and
/// `created_at` are the two clock readings (milliseconds since the epoch) taken for them.
pub fn plan_transit(
    state: TransitState,
    streamer_id: String,
    chatter_id: String,
    joined_at: i64,
    created_at: i64,
) -> (res: TransitPlan)
    ensures
        res.change == (match state {
            TransitState::JOIN => PresenceChange::Insert,
            TransitState::LEAVE => PresenceChange::Delete,
        }),
        res.connection.streamer_id@ == streamer_id@,
        res.connection.chatter_id matches Some(c) && c@ == chatter_id@,
        res.connection.joined_at == Some(joined_at),
        res.history.streamer_id@ == streamer_id@,
        res.history.chatter_id@ == chatter_id@,
        res.history.event@ == state.text(),
        res.history.created_at == created_at,
{
    let connection = ConnectedUsersToChannel {
        chatter_id: Some(chatter_id.clone()),
        streamer_id: streamer_id.clone(),
        joined_at: Some(joined_at),
    };
    let change = match state {
        TransitState::JOIN => PresenceChange::Insert,
        TransitState::LEAVE => PresenceChange::Delete,
    };
    let history = ConnectedUsersToChannelHistory {
        chatter_id,
        streamer_id,
        event: state.to_string(),
        created_at,
    };
    TransitPlan { change, connection, history }
}

/// The history table tells joins from leaves: the two states are written as different
/// names.
pub proof fn transit_names_differ(a: TransitState, b: TransitState)
    ensures
        a.text() == b.text() <==> a == b,
{
    reveal_strlit("JOIN");
    reveal_strlit("LEAVE");
    if a != b {
        assert(TransitState::JOIN.text().len() != TransitState::LEAVE.text().len());
    }
}

} // verus!
