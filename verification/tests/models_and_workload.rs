use twitch_dashboard::models::{
    ChatEvent, Message, StreamLeaderboard, StreamMessageCountByUser, StreamMessagesCounterByUser,
    StreamersEventsCount, StreamersEventsCounter, distinct_names,
};
use twitch_dashboard::transit::{plan_transit, PresenceChange, TransitState};
use twitch_dashboard::workload::{channels_to_register, home_channel_name, steps_for, ServerEvent, WorkloadStep};

fn chat(id: &str, badges: Vec<&str>, color: Option<&str>) -> ChatEvent {
    ChatEvent {
        channel_login: "danielhe4rt".to_string(),
        channel_id: "123".to_string(),
        message_text: "hello chat".to_string(),
        sender_id: "42".to_string(),
        sender_login: "viewer".to_string(),
        sender_name: "Viewer".to_string(),
        badges: badges.into_iter().map(|b| b.to_string()).collect(),
        name_color: color.map(|c| c.to_string()),
        message_id: id.to_string(),
    }
}

const ID: &str = "550e8400-e29b-41d4-a716-446655440000";

#[test]
fn message_from_twitch_copies_fields() {
    let m = Message::from_twitch(chat(ID, vec!["subscriber", "vip", "subscriber"], Some("#1E90FF")), 1_700_000_000_000);
    assert_eq!(m.message_id, Some(0x550e8400e29b41d4a716446655440000u128));
    assert_eq!(m.streamer_id, "danielhe4rt");
    assert_eq!(m.chatter_id.as_deref(), Some("42"));
    assert_eq!(m.content.as_deref(), Some("hello chat"));
    assert_eq!(m.chatter_username.as_deref(), Some("viewer"));
    assert_eq!(m.chatter_color.as_deref(), Some("#1E90FF"));
    assert_eq!(m.sent_at, Some(1_700_000_000_000));
    let mut badges = m.chatter_badges.unwrap();
    badges.sort();
    assert_eq!(badges, vec!["subscriber".to_string(), "vip".to_string()]);
}

#[test]
fn message_without_color_is_white() {
    let m = Message::from_twitch(chat(ID, vec![], None), 0);
    assert_eq!(m.chatter_color.as_deref(), Some("#FFFFFF"));
    assert_eq!(m.chatter_badges, Some(vec![]));
}

#[test]
fn message_with_bad_id_is_refused() {
    assert!(Message::try_from_twitch(chat("not-a-uuid", vec![], None), 0).is_none());
    let m = Message::try_from_twitch(chat("550E8400E29B41D4A716446655440000", vec![], None), 5).unwrap();
    assert_eq!(m.message_id, Some(0x550e8400e29b41d4a716446655440000u128));
}

#[test]
fn blank_message() {
    let m = Message::default();
    assert!(m.message_id.is_none() && m.streamer_id.is_empty() && m.content.is_none() && m.sent_at.is_none());
}

#[test]
fn distinct_names_keeps_first_appearances() {
    let names: Vec<String> = vec!["b", "a", "b", "c", "a"].into_iter().map(String::from).collect();
    assert_eq!(distinct_names(&names), vec!["b".to_string(), "a".to_string(), "c".to_string()]);
}

#[test]
fn counters_and_counts() {
    let c = StreamMessagesCounterByUser::from_twitch(chat(ID, vec![], None));
    assert_eq!((c.streamer_id.as_str(), c.chatter_id.as_str(), c.messages_count), ("danielhe4rt", "42", None));
    let n = StreamMessageCountByUser::from_twitch_and_counter(chat(ID, vec![], None), 9);
    assert_eq!(n.messages_count, 10);
    assert_eq!(n.chatter_username, "viewer");
    let wrapped = StreamMessageCountByUser::from_twitch_and_counter(chat(ID, vec![], None), 1i64 << 32);
    assert_eq!(wrapped.messages_count, 1);
    let e = StreamersEventsCounter::for_event(19_000, "danielhe4rt".to_string());
    assert_eq!((e.day, e.events_count), (19_000, 0));
    let k = StreamersEventsCount::from_counter(19_000, "danielhe4rt".to_string(), 77);
    assert_eq!(k.events_count, 77);
    assert_eq!(StreamersEventsCount::from_counter(0, String::new(), (1i64 << 32) + 5).events_count, 5);
    let r = StreamLeaderboard::default();
    assert_eq!(r.messages_count, 0);
}

#[test]
fn transit_writes() {
    assert_eq!(TransitState::JOIN.to_string(), "JOIN");
    assert_eq!(TransitState::LEAVE.to_string(), "LEAVE");
    let p = plan_transit(TransitState::JOIN, "chan".to_string(), "user".to_string(), 10, 11);
    assert_eq!(p.change, PresenceChange::Insert);
    assert_eq!(p.connection.chatter_id.as_deref(), Some("user"));
    assert_eq!(p.connection.joined_at, Some(10));
    assert_eq!(p.history.event, "JOIN");
    assert_eq!(p.history.created_at, 11);
    let q = plan_transit(TransitState::LEAVE, "chan".to_string(), "user".to_string(), 10, 11);
    assert_eq!(q.change, PresenceChange::Delete);
    assert_eq!(q.history.event, "LEAVE");
    assert_eq!(q.history.streamer_id, "chan");
}

#[test]
fn live_events_become_steps() {
    let s = steps_for(ServerEvent::Join { channel_login: "chan".to_string(), user_login: "u".to_string() });
    assert_eq!(s.len(), 2);
    match (&s[0], &s[1]) {
        (WorkloadStep::RecordTransit { state, streamer_id, chatter_id }, WorkloadStep::CountEvent { streamer_id: counted }) => {
            assert_eq!(*state, TransitState::JOIN);
            assert_eq!((streamer_id.as_str(), chatter_id.as_str(), counted.as_str()), ("chan", "u", "chan"));
        }
        _ => panic!("unexpected steps"),
    }
    let s = steps_for(ServerEvent::Part { channel_login: "chan".to_string(), user_login: "u".to_string() });
    assert!(matches!(&s[0], WorkloadStep::RecordTransit { state: TransitState::LEAVE, .. }));
    let s = steps_for(ServerEvent::Privmsg(chat(ID, vec![], None)));
    assert!(matches!(&s[0], WorkloadStep::CountEvent { streamer_id } if streamer_id == "danielhe4rt"));
    assert!(matches!(&s[1], WorkloadStep::StoreMessage { message } if message.message_text == "hello chat"));
    assert!(steps_for(ServerEvent::Other).is_empty());
}

#[test]
fn channels_joined_and_registered() {
    assert_eq!(home_channel_name(), "danielhe4rt");
    let r = channels_to_register(&vec!["x".to_string(), "y".to_string()]);
    assert_eq!(r.len(), 2);
    assert_eq!(r[1].streamer_id, "y");
    assert!(r[0].streamer_username.is_none() && r[0].created_at.is_none());
}
