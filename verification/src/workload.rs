//! What the dashboard does with the traffic of the chat server.

use vstd::prelude::*;
use crate::models::{Channel, ChatEvent};
use crate::transit::TransitState;

verus! {

/// A message from the chat server, with the parts the dashboard reads.
pub enum ServerEvent {
    /// A chatter joined a channel.
    Join { channel_login: String, user_login: String },
    /// A chatter left a channel.
    Part { channel_login: String, user_login: String },
    /// A chatter wrote a message.
    Privmsg(ChatEvent),
    /// Anything else; it is ignored.
    Other,
}

/// One piece of database work that a chat event calls for.
pub enum WorkloadStep {
    /// Record a chatter joining or leaving a channel.
    RecordTransit { state: TransitState, streamer_id: String, chatter_id: String },
    /// Count one more event of a channel for today.
    CountEvent { streamer_id: String },
    /// Store a chat message and count it for its sender.
    StoreMessage { message: ChatEvent },
}

/// The steps for a chatter joining or leaving: the transit, then the event count.
pub open spec fn transit_steps(state: TransitState, streamer_id: String, chatter_id: String) -> Seq<
    WorkloadStep,
> {
    seq![
        WorkloadStep::RecordTransit { state, streamer_id, chatter_id },
        WorkloadStep::CountEvent { streamer_id },
    ]
}

/// The steps for a chat message: the event count, then the message itself.
pub open spec fn message_steps(message: ChatEvent) -> Seq<WorkloadStep> {
    seq![
        WorkloadStep::CountEvent { streamer_id: message.channel_login },
        WorkloadStep::StoreMessage { message },
    ]
}

/// The steps that a message of the chat server calls for.
pub open spec fn live_steps(event: ServerEvent) -> Seq<WorkloadStep> {
    match event {
        ServerEvent::Join { channel_login, user_login } => transit_steps(
            TransitState::JOIN,
            channel_login,
            user_login,
        ),
        ServerEvent::Part { channel_login, user_login } => transit_steps(
            TransitState::LEAVE,
            channel_login,
            user_login,
        ),
        ServerEvent::Privmsg(message) => message_steps(message),
        ServerEvent::Other => Seq::empty(),
    }
}

/// The database work, in order, for one message of the chat server: a join or a part is
/// recorded and counted, a chat message is counted and stored, anything else is ignored.
pub fn steps_for(event: ServerEvent) -> (res: Vec<WorkloadStep>)
    ensures
        res@ == live_steps(event),
{
    let mut steps: Vec<WorkloadStep> = Vec::new();
    match event {
        ServerEvent::Join { channel_login, user_login } => {
            steps.push(
                WorkloadStep::RecordTransit {
                    state: TransitState::JOIN,
                    streamer_id: channel_login.clone(),
                    chatter_id: user_login,
                },
            );
            steps.push(WorkloadStep::CountEvent { streamer_id: channel_login });
        },
        ServerEvent::Part { channel_login, user_login } => {
            steps.push(
                WorkloadStep::RecordTransit {
                    state: TransitState::LEAVE,
                    streamer_id: channel_login.clone(),
                    chatter_id: user_login,
                },
            );
            steps.push(WorkloadStep::CountEvent { streamer_id: channel_login });
        },
        ServerEvent::Privmsg(message) => {
            steps.push(WorkloadStep::CountEvent { streamer_id: message.channel_login.clone() });
            steps.push(WorkloadStep::StoreMessage { message });
        },
        ServerEvent::Other => {},
    }
    steps
}

/// A join is recorded for the joining chatter in the channel joined, then counted for
/// that channel; a part likewise, as a leave.
pub proof fn chatter_moves_are_recorded_where_they_happen(channel_login: String, user_login: String)
    ensures
        live_steps(ServerEvent::Join { channel_login, user_login }) == seq![
            WorkloadStep::RecordTransit {
                state: TransitState::JOIN,
                streamer_id: channel_login,
                chatter_id: user_login,
            },
            WorkloadStep::CountEvent { streamer_id: channel_login },
        ],
        live_steps(ServerEvent::Part { channel_login, user_login }) == seq![
            WorkloadStep::RecordTransit {
                state: TransitState::LEAVE,
                streamer_id: channel_login,
                chatter_id: user_login,
            },
            WorkloadStep::CountEvent { streamer_id: channel_login },
        ],
{
}

/// A chat message is counted for its own channel and then stored exactly as received;
/// anything else from the chat server calls for no work.
pub proof fn chat_messages_are_stored_as_received(message: ChatEvent)
    ensures
        live_steps(ServerEvent::Privmsg(message)) == seq![
            WorkloadStep::CountEvent { streamer_id: message.channel_login },
            WorkloadStep::StoreMessage { message },
        ],
        live_steps(ServerEvent::Other) == Seq::<WorkloadStep>::empty(),
{
}

/// The channel the dashboard always joins.
pub open spec fn home_channel() -> Seq<char> {
    "danielhe4rt"@
}

/// The name of the channel the dashboard always joins, before any other.
pub fn home_channel_name() -> (res: String)
    ensures
        res@ == home_channel(),
{
    "danielhe4rt".to_owned()
}

/// The channel rows registered at start-up: one per streamer, holding only its id.
pub fn channels_to_register(streamers: &Vec<String>) -> (res: Vec<Channel>)
    ensures
        res.len() == streamers.len(),
        forall|i: int| 0 <= i < res.len() ==> (#[trigger] res@[i]).registers(streamers@[i]@),
{
    let mut res: Vec<Channel> = Vec::new();
    let mut i: usize = 0;
    while i < streamers.len()
        invariant
            i <= streamers.len(),
            res.len() == i,
            forall|k: int| 0 <= k < i ==> (#[trigger] res@[k]).registers(streamers@[k]@),
        decreases streamers.len() - i,
    {
        res.push(
            Channel {
                streamer_id: streamers[i].clone(),
                streamer_username: None,
                last_game_info: None,
                profile_image_url: None,
                stream_tags: None,
                created_at: None,
            },
        );
        i = i + 1;
    }
    res
}

} // verus!
