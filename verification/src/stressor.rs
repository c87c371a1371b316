//! Synthetic chat traffic for stress runs.

use vstd::prelude::*;
use crate::models::{ChatEvent, new_uuid_text, reads_as_random_uuid, uuid_text_value};
use crate::transit::TransitState;
use crate::workload::{WorkloadStep, transit_steps, ServerEvent, live_steps};

verus! {

/// The kinds of chat event a stress round imitates.
#[derive(Clone, Copy, PartialEq, Eq, Structural, Debug)]
pub enum EventTypes {
    Join,
    Part,
    Privmsg,
}

/// Calls `rand::random::<u8>()`, which draws a byte from the thread-local generator.
/// Any byte may come back, so nothing is claimed of it.
#[verifier::external_body]
fn random_byte() -> (res: u8) {
    rand::random::<u8>()
}

/// Calls `rand::random::<usize>()`, the same generator drawn at the width of `usize`.
/// Any value may come back, so nothing is claimed of it.
#[verifier::external_body]
fn random_index() -> (res: usize) {
    rand::random::<usize>()
}

impl EventTypes {
    /// The kind that a random byte selects: its remainder by three picks join, part or
    /// message, in that order.
    pub open spec fn of_roll(roll: u8) -> EventTypes {
        if roll % 3 == 0 {
            EventTypes::Join
        } else if roll % 3 == 1 {
            EventTypes::Part
        } else {
            EventTypes::Privmsg
        }
    }

    /// The kind that a random byte selects.
    pub fn from_roll(roll: u8) -> (res: EventTypes)
        ensures
            res == EventTypes::of_roll(roll),
    {
        match roll % 3 {
            0 => EventTypes::Join,
            1 => EventTypes::Part,
            _ => EventTypes::Privmsg,
        }
    }

    /// A kind drawn at random: the remainder by three of a random byte.
    pub fn random() -> (res: EventTypes)
        ensures
            exists|roll: u8| res == EventTypes::of_roll(roll),
    {
        let roll = random_byte();
        EventTypes::from_roll(roll)
    }
}

/// The entry of a non-empty list that a random number selects: the one at the number's
/// remainder by the list's length.
pub fn pick(list: &Vec<String>, roll: usize) -> (res: String)
    requires
        list.len() > 0,
    ensures
        res == list@[(roll % list.len()) as int],
{
    list[roll % list.len()].clone()
}

impl ChatEvent {
    /// True of the synthetic chat message that `streamer` receives from `chatter`.
    pub open spec fn generated_from(self, streamer: String, chatter: String, text: String) -> bool {
        &&& self.channel_login == streamer
        &&& self.channel_id == streamer
        &&& self.message_text == text
        &&& self.sender_id == chatter
        &&& self.sender_login == chatter
        &&& self.sender_name == chatter
        &&& self.badges@.len() == 0
        &&& self.name_color is None
        &&& reads_as_random_uuid(self.message_id@)
    }
}

/// A synthetic chat message from `chatter` in the channel of `streamer`, with no badges,
/// no name color and a fresh random (version 4) UUID as message id.
pub fn generate_payload(streamer: String, chatter: String, message: String) -> (res: ChatEvent)
    ensures
        res.generated_from(streamer, chatter, message),
{
    ChatEvent {
        channel_login: streamer.clone(),
        channel_id: streamer,
        message_text: message,
        sender_id: chatter.clone(),
        sender_login: chatter.clone(),
        sender_name: chatter,
        badges: Vec::new(),
        name_color: None,
        message_id: new_uuid_text(),
    }
}

/// The steps of a stress round of kind `kind`: a join or part is recorded and counted,
/// a message is counted and stored.
pub open spec fn stress_plan(kind: EventTypes, streamer: String, chatter: String, payload: ChatEvent) -> Seq<
    WorkloadStep,
> {
    match kind {
        EventTypes::Join => transit_steps(TransitState::JOIN, streamer, chatter),
        EventTypes::Part => transit_steps(TransitState::LEAVE, streamer, chatter),
        EventTypes::Privmsg => seq![
            WorkloadStep::CountEvent { streamer_id: streamer },
            WorkloadStep::StoreMessage { message: payload },
        ],
    }
}

/// The database work of a stress round of kind `kind`.
pub fn stress_steps(kind: EventTypes, streamer: String, chatter: String, payload: ChatEvent) -> (res:
    Vec<WorkloadStep>)
    ensures
        res@ == stress_plan(kind, streamer, chatter, payload),
{
    let mut steps: Vec<WorkloadStep> = Vec::new();
    match kind {
        EventTypes::Join => {
            steps.push(
                WorkloadStep::RecordTransit {
                    state: TransitState::JOIN,
                    streamer_id: streamer.clone(),
                    chatter_id: chatter,
                },
            );
            steps.push(WorkloadStep::CountEvent { streamer_id: streamer });
        },
        EventTypes::Part => {
            steps.push(
                WorkloadStep::RecordTransit {
                    state: TransitState::LEAVE,
                    streamer_id: streamer.clone(),
                    chatter_id: chatter,
                },
            );
            steps.push(WorkloadStep::CountEvent { streamer_id: streamer });
        },
        EventTypes::Privmsg => {
            steps.push(WorkloadStep::CountEvent { streamer_id: streamer });
            steps.push(WorkloadStep::StoreMessage { message: payload });
        },
    }
    steps
}

/// One round of a stress run: what was drawn and the work it calls for.
pub struct StressRound {
    pub kind: EventTypes,
    pub streamer: String,
    pub chatter: String,
    pub steps: Vec<WorkloadStep>,
}

/// Draws one stress round: a streamer, a chatter and a message text, each picked at
/// random from its list, a synthetic message built from them, and a random kind of
/// event. Each list must be non-empty.
pub fn stress_round(streamers: &Vec<String>, chatters: &Vec<String>, messages: &Vec<String>) -> (res:
    StressRound)
    requires
        streamers.len() > 0,
        chatters.len() > 0,
        messages.len() > 0,
    ensures
        streamers@.contains(res.streamer),
        chatters@.contains(res.chatter),
        exists|k: int, payload: ChatEvent|
            0 <= k < messages.len() && #[trigger] payload.generated_from(
                res.streamer,
                res.chatter,
                #[trigger] messages@[k],
            ) && res.steps@ == stress_plan(res.kind, res.streamer, res.chatter, payload),
{
    let streamer = pick(streamers, random_index());
    let chatter = pick(chatters, random_index());
    let text_roll = random_index();
    let text = pick(messages, text_roll);
    let payload = generate_payload(streamer.clone(), chatter.clone(), text);
    let kind = EventTypes::random();
    let ghost generated = payload;
    let steps = stress_steps(kind, streamer.clone(), chatter.clone(), payload);
    let ghost k: int = (text_roll % messages.len()) as int;
    let round = StressRound { kind, streamer, chatter, steps };
    assert(generated.generated_from(round.streamer, round.chatter, messages@[k]));
    assert(round.steps@ == stress_plan(round.kind, round.streamer, round.chatter, generated));
    round
}

/// The message of the chat server that a stress round of kind `kind` imitates, with the
/// streamer and chatter of `payload`.
pub open spec fn imitated_event(kind: EventTypes, payload: ChatEvent) -> ServerEvent {
    match kind {
        EventTypes::Join => ServerEvent::Join {
            channel_login: payload.channel_login,
            user_login: payload.sender_login,
        },
        EventTypes::Part => ServerEvent::Part {
            channel_login: payload.channel_login,
            user_login: payload.sender_login,
        },
        EventTypes::Privmsg => ServerEvent::Privmsg(payload),
    }
}

/// A stress round asks the database for exactly the work that the same event, arriving
/// from the chat server, asks for: the same steps, in the same order, with the same data.
pub proof fn stress_round_matches_live_traffic(
    kind: EventTypes,
    streamer: String,
    chatter: String,
    text: String,
    payload: ChatEvent,
)
    requires
        payload.generated_from(streamer, chatter, text),
    ensures
        stress_plan(kind, streamer, chatter, payload) == live_steps(imitated_event(kind, payload)),
{
}

/// Every message a stress round generates can be stored: its id is a UUID text, so
/// `Message::try_from_twitch` gives a row for it and `Message::from_twitch` accepts it.
pub proof fn generated_messages_are_storable(
    streamer: String,
    chatter: String,
    text: String,
    payload: ChatEvent,
)
    requires
        payload.generated_from(streamer, chatter, text),
    ensures
        uuid_text_value(payload.message_id@) is Some,
        reads_as_random_uuid(payload.message_id@),
{
}

/// A stress round records a join or a leave for the drawn chatter in the drawn streamer's
/// channel and counts it for that channel; a message round counts the streamer's channel
/// and stores the generated message unchanged.
pub proof fn stress_steps_address_the_drawn_channel(
    streamer: String,
    chatter: String,
    payload: ChatEvent,
)
    ensures
        stress_plan(EventTypes::Join, streamer, chatter, payload) == seq![
            WorkloadStep::RecordTransit {
                state: TransitState::JOIN,
                streamer_id: streamer,
                chatter_id: chatter,
            },
            WorkloadStep::CountEvent { streamer_id: streamer },
        ],
        stress_plan(EventTypes::Part, streamer, chatter, payload) == seq![
            WorkloadStep::RecordTransit {
                state: TransitState::LEAVE,
                streamer_id: streamer,
                chatter_id: chatter,
            },
            WorkloadStep::CountEvent { streamer_id: streamer },
        ],
        stress_plan(EventTypes::Privmsg, streamer, chatter, payload) == seq![
            WorkloadStep::CountEvent { streamer_id: streamer },
            WorkloadStep::StoreMessage { message: payload },
        ],
{
}

/// The kind a byte draws follows its remainder by three: 0 joins, 1 parts, 2 writes a
/// message.
pub proof fn kind_follows_remainder_by_three(roll: u8)
    ensures
        roll % 3 == 0 <==> EventTypes::of_roll(roll) == EventTypes::Join,
        roll % 3 == 1 <==> EventTypes::of_roll(roll) == EventTypes::Part,
        roll % 3 == 2 <==> EventTypes::of_roll(roll) == EventTypes::Privmsg,
{
}

/// A synthetic message is written by the chatter, as id, login and name, in the
/// streamer's channel, as login and id; it carries the drawn text, no badges, no color,
/// and a random UUID as id.
pub proof fn generated_message_comes_from_the_chatter(
    streamer: String,
    chatter: String,
    text: String,
    payload: ChatEvent,
)
    requires
        payload.generated_from(streamer, chatter, text),
    ensures
        payload.channel_login == streamer && payload.channel_id == streamer,
        payload.sender_id == chatter && payload.sender_login == chatter && payload.sender_name
            == chatter,
        payload.message_text == text,
        payload.badges@.len() == 0 && payload.name_color is None,
        reads_as_random_uuid(payload.message_id@),
{
}

/// Each of the three kinds is drawn by some byte.
pub proof fn every_kind_can_be_drawn()
    ensures
        EventTypes::of_roll(0) == EventTypes::Join,
        EventTypes::of_roll(1) == EventTypes::Part,
        EventTypes::of_roll(2) == EventTypes::Privmsg,
{
}

} // verus!
