//! Rows of the dashboard's tables and the chat event they are built from.

use vstd::prelude::*;

verus! {

/// A chat message as the chat server delivers it, with the parts that the dashboard reads.
#[derive(Clone)]
pub struct ChatEvent {
    /// Login of the channel the message was sent in.
    pub channel_login: String,
    /// Id of that channel.
    pub channel_id: String,
    /// Text of the message.
    pub message_text: String,
    /// Id of the sender.
    pub sender_id: String,
    /// Login of the sender.
    pub sender_login: String,
    /// Display name of the sender.
    pub sender_name: String,
    /// Names of the badges the sender wears, possibly repeated.
    pub badges: Vec<String>,
    /// The sender's name color as `#RRGGBB`, when the sender chose one.
    pub name_color: Option<String>,
    /// Id of the message, a UUID text.
    pub message_id: String,
}

/// The views of a sequence of strings.
pub open spec fn texts(v: Seq<String>) -> Seq<Seq<char>> {
    v.map_values(|s: String| s@)
}

/// True when `names` holds no text twice and holds exactly the texts of `from`.
pub open spec fn distinct_names_of(names: Seq<Seq<char>>, from: Seq<Seq<char>>) -> bool {
    &&& names.no_duplicates()
    &&& forall|k: int| 0 <= k < names.len() ==> from.contains(#[trigger] names[k])
    &&& forall|j: int| 0 <= j < from.len() ==> names.contains(#[trigger] from[j])
}

/// The texts of `s` without repetitions, each at the place where it first appears.
pub open spec fn first_occurrences(s: Seq<Seq<char>>) -> Seq<Seq<char>>
    decreases s.len(),
{
    if s.len() == 0 {
        Seq::empty()
    } else {
        let before = first_occurrences(s.drop_last());
        if before.contains(s.last()) {
            before
        } else {
            before.push(s.last())
        }
    }
}

/// The 128-bit value that `uuid` reads from a UUID text, if it reads one.
pub uninterp spec fn uuid_text_value(text: Seq<char>) -> Option<u128>;

/// Calls `uuid::Uuid::parse_str` and, on success, `Uuid::as_u128`. The contract only names
/// the result: it depends on the text alone.
#[verifier::external_body]
pub(crate) fn parse_uuid(text: &str) -> (res: Option<u128>)
    ensures
        res == uuid_text_value(text@),
{
    match uuid::Uuid::parse_str(text) {
        Ok(id) => Some(id.as_u128()),
        Err(_) => None,
    }
}

/// True of the value of a random (version 4, RFC 4122 variant) UUID: the version nibble is
/// 4 and the two variant bits are `10`.
pub open spec fn is_random_uuid(value: u128) -> bool {
    &&& (value >> 76u128) & 0xfu128 == 4u128
    &&& (value >> 62u128) & 0x3u128 == 2u128
}

/// True of a text that `uuid` reads as a random UUID.
pub open spec fn reads_as_random_uuid(text: Seq<char>) -> bool {
    uuid_text_value(text) matches Some(v) && is_random_uuid(v)
}

/// Calls `uuid::Uuid::new_v4` and writes the id with its `Display` impl, the hyphenated
/// lower-case form. The id is random, so nothing is claimed of most of its bits. The
/// contract claims what holds of every outcome: `Uuid::parse_str` reads the text back
/// (it reads every hyphenated text that `Display` writes), and the value read has the
/// version and variant bits that `new_v4` sets.
#[verifier::external_body]
pub(crate) fn new_uuid_text() -> (res: String)
    ensures
        reads_as_random_uuid(res@),
{
    uuid::Uuid::new_v4().to_string()
}

/// The names of a badge list with repetitions removed, in order of first appearance.
pub fn distinct_names(names: &Vec<String>) -> (res: Vec<String>)
    ensures
        texts(res@) == first_occurrences(texts(names@)),
        distinct_names_of(texts(res@), texts(names@)),
{
    let mut res: Vec<String> = Vec::new();
    let mut i: usize = 0;
    while i < names.len()
        invariant
            i <= names.len(),
            distinct_names_of(texts(res@), texts(names@.take(i as int))),
            texts(res@) == first_occurrences(texts(names@.take(i as int))),
        decreases names.len() - i,
    {
        let mut seen = false;
        let mut j: usize = 0;
        while j < res.len()
            invariant
                j <= res.len(),
                i < names.len(),
                seen <==> exists|k: int| 0 <= k < j && res@[k]@ == names@[i as int]@,
            decreases res.len() - j,
        {
            if res[j] == names[i] {
                seen = true;
            }
            j = j + 1;
        }
        let ghost prev = texts(res@);
        let ghost upto = texts(names@.take(i as int));
        if !seen {
            res.push(names[i].clone());
            assert forall|k: int| 0 <= k < prev.len() implies prev[k] != names@[i as int]@ by {
                assert(res@[k]@ == prev[k]);
            }
        } else {
            let ghost k = choose|k: int| 0 <= k < res.len() && res@[k]@ == names@[i as int]@;
            assert(texts(res@)[k] == names@[i as int]@);
        }
        let ghost now = texts(res@);
        let ghost next = texts(names@.take(i + 1));
        if !seen {
            assert(now =~= prev.push(names@[i as int]@));
            assert forall|a: int, b: int| 0 <= a < now.len() && 0 <= b < now.len() && a != b
                implies now[a] != now[b] by {
                if a < prev.len() && b < prev.len() {
                    assert(now[a] == prev[a] && now[b] == prev[b]);
                }
            }
        }
        assert(next =~= upto.push(names@[i as int]@));
        assert(next.drop_last() =~= upto);
        assert(seen <==> prev.contains(names@[i as int]@)) by {
            if seen {
                let k = choose|k: int| 0 <= k < res.len() && res@[k]@ == names@[i as int]@;
                assert(prev[k] == names@[i as int]@);
            }
        }
        assert forall|k: int| 0 <= k < now.len() implies next.contains(#[trigger] now[k]) by {
            if k < prev.len() {
                assert(now[k] == prev[k]);
                let j = choose|j: int| 0 <= j < upto.len() && upto[j] == prev[k];
                assert(next[j] == upto[j]);
            } else {
                assert(next[upto.len() as int] == now[k]);
            }
        }
        assert forall|j: int| 0 <= j < next.len() implies now.contains(#[trigger] next[j]) by {
            if j < upto.len() {
                assert(next[j] == upto[j]);
                assert(prev.contains(upto[j]));
                let k = choose|k: int| 0 <= k < prev.len() && prev[k] == upto[j];
                assert(now[k] == prev[k]);
            } else if !seen {
                assert(now[prev.len() as int] == next[j]);
            } else {
                let k = choose|k: int| 0 <= k < res.len() && res@[k]@ == names@[i as int]@;
                assert(now[k] == next[j]);
            }
        }
        i = i + 1;
    }
    assert(names@.take(names.len() as int) =~= names@);
    res
}

/// The view of an optional string.
pub open spec fn opt_text(o: Option<String>) -> Option<Seq<char>> {
    match o {
        Some(s) => Some(s@),
        None => None,
    }
}

/// The color shown for a sender who chose none.
pub open spec fn default_color() -> Seq<char> {
    "#FFFFFF"@
}

/// A chat message as the `messages` table stores it (partitioned by streamer).
#[derive(Clone)]
pub struct Message {
    pub message_id: Option<u128>,
    pub streamer_id: String,
    pub chatter_id: Option<String>,
    pub content: Option<String>,
    pub chatter_username: Option<String>,
    pub chatter_badges: Option<Vec<String>>,
    pub chatter_color: Option<String>,
    /// When the message was received: a UNIX timestamp in milliseconds.
    pub sent_at: Option<i64>,
}

impl Message {
    /// True when this row is the one stored for `message`, received at `sent_at`.
    pub open spec fn built_from(self, message: ChatEvent, sent_at: i64) -> bool {
        &&& self.message_id == uuid_text_value(message.message_id@)
        &&& self.streamer_id@ == message.channel_login@
        &&& opt_text(self.chatter_id) == Some(message.sender_id@)
        &&& opt_text(self.content) == Some(message.message_text@)
        &&& opt_text(self.chatter_username) == Some(message.sender_login@)
        &&& (self.chatter_badges matches Some(b) && distinct_names_of(
            texts(b@),
            texts(message.badges@),
        ))
        &&& opt_text(self.chatter_color) == Some(
            match message.name_color {
                Some(c) => c@,
                None => default_color(),
            },
        )
        &&& self.sent_at == Some(sent_at)
    }

    /// The stored row of a chat message is filed under the message's channel login, with
    /// the sender's id and login, the text, the badges each once, the chosen color or
    /// white, the time of receipt and the id that `uuid` reads from the message id.
    pub proof fn stored_row_keeps_the_message(self, message: ChatEvent, sent_at: i64)
        requires
            self.built_from(message, sent_at),
        ensures
            self.streamer_id@ == message.channel_login@,
            self.chatter_id matches Some(c) && c@ == message.sender_id@,
            self.chatter_username matches Some(c) && c@ == message.sender_login@,
            self.content matches Some(c) && c@ == message.message_text@,
            self.chatter_color matches Some(c) && c@ == (match message.name_color {
                Some(n) => n@,
                None => "#FFFFFF"@,
            }),
            self.chatter_badges matches Some(b) && texts(b@).no_duplicates() && texts(b@).to_set()
                == texts(message.badges@).to_set(),
            self.sent_at == Some(sent_at),
            self.message_id == uuid_text_value(message.message_id@),
    {
        let b = self.chatter_badges.unwrap();
        let names = texts(b@);
        let from = texts(message.badges@);
        assert(names.to_set() =~= from.to_set()) by {
            assert forall|x: Seq<char>| names.to_set().contains(x) <==> from.to_set().contains(x) by {
                if names.to_set().contains(x) {
                    assert(names.contains(x));
                    let k = choose|k: int| 0 <= k < names.len() && names[k] == x;
                    assert(from.contains(names[k]));
                }
                if from.to_set().contains(x) {
                    assert(from.contains(x));
                    let j = choose|j: int| 0 <= j < from.len() && from[j] == x;
                    assert(names.contains(from[j]));
                }
            }
        }
    }

    /// True of the row that holds no message: every field empty.
    pub open spec fn is_blank(self) -> bool {
        &&& self.message_id is None
        &&& self.streamer_id@ == Seq::<char>::empty()
        &&& self.chatter_id is None
        &&& self.content is None
        &&& self.chatter_username is None
        &&& self.chatter_badges is None
        &&& self.chatter_color is None
        &&& self.sent_at is None
    }

    /// The row stored for a chat message received at `sent_at` (milliseconds since the
    /// epoch). The message id must be a UUID text; `try_from_twitch` checks that first.
    pub fn from_twitch(message: ChatEvent, sent_at: i64) -> (res: Message)
        requires
            uuid_text_value(message.message_id@) is Some,
        ensures
            res.built_from(message, sent_at),
    {
        let badges = distinct_names(&message.badges);
        let chatter_color = match message.name_color {
            Some(color) => color,
            None => {
                let white = "#FFFFFF".to_owned();
                white
            },
        };
        let message_id = parse_uuid(message.message_id.as_str());
        Message {
            message_id,
            streamer_id: message.channel_login,
            chatter_id: Some(message.sender_id),
            content: Some(message.message_text),
            chatter_username: Some(message.sender_login),
            chatter_badges: Some(badges),
            chatter_color: Some(chatter_color),
            sent_at: Some(sent_at),
        }
    }

    /// The row stored for a chat message, or `None` when its id is no UUID text.
    pub fn try_from_twitch(message: ChatEvent, sent_at: i64) -> (res: Option<Message>)
        ensures
            res is Some <==> uuid_text_value(message.message_id@) is Some,
            res matches Some(m) ==> m.built_from(message, sent_at),
    {
        if parse_uuid(message.message_id.as_str()).is_some() {
            Some(Message::from_twitch(message, sent_at))
        } else {
            None
        }
    }
}

impl Default for Message {
    fn default() -> (res: Message)
        ensures
            res.is_blank(),
    {
        Message {
            message_id: None,
            streamer_id: String::new(),
            chatter_id: None,
            content: None,
            chatter_username: None,
            chatter_badges: None,
            chatter_color: None,
            sent_at: None,
        }
    }
}

/// A chat message as the `messages_by_user` view stores it (partitioned by chatter).
pub struct MessagesByUser {
    pub message_id: u128,
    pub streamer_id: String,
    pub chatter_id: String,
    pub chatter_username: String,
    pub chatter_badges: Option<Vec<String>>,
    pub chatter_color: Option<String>,
    /// UNIX timestamp in milliseconds.
    pub sent_at: i64,
}

/// The counter of messages a chatter sent in a channel (`stream_messages_counter_by_user`).
pub struct StreamMessagesCounterByUser {
    pub streamer_id: String,
    pub chatter_id: String,
    pub messages_count: Option<i64>,
}

impl StreamMessagesCounterByUser {
    /// The counter row addressed by a chat message: its channel and its sender.
    pub fn from_twitch(message: ChatEvent) -> (res: StreamMessagesCounterByUser)
        ensures
            res.streamer_id@ == message.channel_login@,
            res.chatter_id@ == message.sender_id@,
            res.messages_count is None,
    {
        StreamMessagesCounterByUser {
            streamer_id: message.channel_login,
            chatter_id: message.sender_id,
            messages_count: None,
        }
    }
}

/// The number of messages a chatter sent in a channel (`stream_messages_count_by_user`).
pub struct StreamMessageCountByUser {
    pub streamer_id: String,
    pub chatter_id: String,
    pub chatter_username: String,
    pub messages_count: i32,
}

impl StreamMessageCountByUser {
    /// The count row for a chat message, given the value its counter had: the counter
    /// narrowed to 32 bits, plus one.
    pub fn from_twitch_and_counter(message: ChatEvent, counter: i64) -> (res:
        StreamMessageCountByUser)
        requires
            (counter as i32) < i32::MAX,
        ensures
            res.streamer_id@ == message.channel_login@,
            res.chatter_id@ == message.sender_id@,
            res.chatter_username@ == message.sender_login@,
            res.messages_count == (counter as i32) + 1,
            0 <= counter < i32::MAX ==> res.messages_count == counter + 1,
    {
        let narrowed: i32 = counter as i32;
        StreamMessageCountByUser {
            streamer_id: message.channel_login,
            chatter_id: message.sender_id,
            chatter_username: message.sender_login,
            messages_count: narrowed + 1,
        }
    }
}

/// A row of the per-channel chatter ranking (`stream_leaderboard`).
#[derive(Clone)]
pub struct StreamLeaderboard {
    pub streamer_id: String,
    pub chatter_id: String,
    pub chatter_username: String,
    pub messages_count: i32,
}

impl Default for StreamLeaderboard {
    fn default() -> (res: StreamLeaderboard)
        ensures
            res.streamer_id@ == Seq::<char>::empty(),
            res.chatter_id@ == Seq::<char>::empty(),
            res.chatter_username@ == Seq::<char>::empty(),
            res.messages_count == 0,
    {
        StreamLeaderboard {
            streamer_id: String::new(),
            chatter_id: String::new(),
            chatter_username: String::new(),
            messages_count: 0,
        }
    }
}

/// The counter of events a channel saw on a day (`streamers_events_counter`).
pub struct StreamersEventsCounter {
    /// The day, as days since 1970-01-01.
    pub day: i32,
    pub streamer_id: String,
    pub events_count: i64,
}

impl StreamersEventsCounter {
    /// The counter row that an event of a channel on a day increments.
    pub fn for_event(day: i32, streamer_id: String) -> (res: StreamersEventsCounter)
        ensures
            res.day == day,
            res.streamer_id@ == streamer_id@,
            res.events_count == 0,
    {
        StreamersEventsCounter { day, streamer_id, events_count: 0 }
    }
}

/// The number of events a channel saw on a day (`streamers_events_count`).
pub struct StreamersEventsCount {
    /// The day, as days since 1970-01-01.
    pub day: i32,
    pub streamer_id: String,
    pub events_count: i32,
}

impl StreamersEventsCount {
    /// The count row written after an event, from the value its counter had, narrowed
    /// to 32 bits.
    pub fn from_counter(day: i32, streamer_id: String, counter: i64) -> (res: StreamersEventsCount)
        ensures
            res.day == day,
            res.streamer_id@ == streamer_id@,
            res.events_count == counter as i32,
            0 <= counter <= i32::MAX ==> res.events_count == counter,
    {
        let narrowed: i32 = counter as i32;
        StreamersEventsCount { day, streamer_id, events_count: narrowed }
    }
}

/// A row of the ranking of channels by events on a day (`streamers_events_leaderboard`).
pub struct StreamersEventsLeaderboard {
    pub streamer_id: String,
    /// The day, as days since 1970-01-01.
    pub day: i32,
    pub events_count: i32,
}

impl Clone for StreamersEventsLeaderboard {
    fn clone(&self) -> (res: StreamersEventsLeaderboard)
        ensures
            res == *self,
    {
        StreamersEventsLeaderboard {
            streamer_id: self.streamer_id.clone(),
            day: self.day,
            events_count: self.events_count,
        }
    }
}

/// A channel the dashboard follows (`channels`).
#[derive(Clone)]
pub struct Channel {
    pub streamer_id: String,
    pub streamer_username: Option<String>,
    pub last_game_info: Option<String>,
    pub profile_image_url: Option<String>,
    pub stream_tags: Option<String>,
    pub created_at: Option<String>,
}

impl Channel {
    /// True of the row registered for a streamer: its id and nothing else.
    pub open spec fn registers(self, streamer_id: Seq<char>) -> bool {
        &&& self.streamer_id@ == streamer_id
        &&& self.streamer_username is None
        &&& self.last_game_info is None
        &&& self.profile_image_url is None
        &&& self.stream_tags is None
        &&& self.created_at is None
    }
}

/// A chatter present in a channel (`connected_users_to_channel`).
pub struct ConnectedUsersToChannel {
    pub streamer_id: String,
    pub chatter_id: Option<String>,
    /// UNIX timestamp in milliseconds.
    pub joined_at: Option<i64>,
}

/// A chatter joining or leaving a channel (`channel_connected_users_history`).
pub struct ConnectedUsersToChannelHistory {
    pub streamer_id: String,
    pub chatter_id: String,
    /// `JOIN` or `LEAVE`.
    pub event: String,
    /// UNIX timestamp in milliseconds.
    pub created_at: i64,
}

} // verus!
