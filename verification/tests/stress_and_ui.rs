use twitch_dashboard::models::{Message, StreamLeaderboard, StreamersEventsLeaderboard, ConnectedUsersToChannel};
use twitch_dashboard::stressor::{generate_payload, pick, stress_round, stress_steps, EventTypes};
use twitch_dashboard::transit::TransitState;
use twitch_dashboard::ui::{chat_line, handle, react, App, Focus, Key, LoopAction, RightPane, TerminalEvent, Tint};
use twitch_dashboard::workload::WorkloadStep;

#[test]
fn rolls_pick_kinds() {
    assert_eq!(EventTypes::from_roll(0), EventTypes::Join);
    assert_eq!(EventTypes::from_roll(1), EventTypes::Part);
    assert_eq!(EventTypes::from_roll(2), EventTypes::Privmsg);
    assert_eq!(EventTypes::from_roll(255), EventTypes::Join);
    assert_eq!(EventTypes::from_roll(254), EventTypes::Privmsg);
    let _ = EventTypes::random();
}

#[test]
fn pick_wraps_around() {
    let l: Vec<String> = vec!["a".into(), "b".into(), "c".into()];
    assert_eq!(pick(&l, 4), "b");
    assert_eq!(pick(&l, 0), "a");
    assert_eq!(pick(&l, usize::MAX), "a");
}

#[test]
fn generated_payload_is_storable() {
    let p = generate_payload("chan".into(), "who".into(), "hi".into());
    assert_eq!((p.channel_login.as_str(), p.channel_id.as_str(), p.sender_login.as_str()), ("chan", "chan", "who"));
    assert!(p.badges.is_empty() && p.name_color.is_none());
    let q = generate_payload("chan".into(), "who".into(), "hi".into());
    assert_ne!(p.message_id, q.message_id);
    let m = Message::try_from_twitch(p, 3).unwrap();
    assert_eq!(m.content.as_deref(), Some("hi"));
    let id = m.message_id.unwrap();
    assert_eq!((id >> 76) & 0xf, 4);
    assert_eq!((id >> 62) & 0x3, 2);
}

#[test]
fn stress_steps_match_kinds() {
    let p = generate_payload("chan".into(), "who".into(), "hi".into());
    let s = stress_steps(EventTypes::Part, "chan".into(), "who".into(), p.clone());
    assert!(matches!(&s[0], WorkloadStep::RecordTransit { state: TransitState::LEAVE, .. }));
    assert!(matches!(&s[1], WorkloadStep::CountEvent { streamer_id } if streamer_id == "chan"));
    let s = stress_steps(EventTypes::Privmsg, "chan".into(), "who".into(), p);
    assert!(matches!(&s[1], WorkloadStep::StoreMessage { message } if message.message_text == "hi"));
    let r = stress_round(&vec!["chan".into()], &vec!["who".into()], &vec!["hi".into()]);
    assert_eq!((r.streamer.as_str(), r.chatter.as_str()), ("chan", "who"));
    assert_eq!(r.steps.len(), 2);
}

#[test]
fn new_app_state() {
    let app = App::new();
    assert_eq!(app.tabs, vec!["Connected Users", "Rankings"]);
    assert_eq!(app.active_tab, 0);
    assert_eq!(app.active_channels[0].streamer_id, "danielhe4rt");
    assert_eq!(app.focused, Focus::Sidebar);
    assert_eq!(app.connected_users[0].chatter_id.as_deref(), Some("User1"));
    assert_eq!(app.rankings.len(), 1);
    assert_eq!(app.right_pane(), RightPane::ConnectedUsers);
}

#[test]
fn keys_move_focus_and_tabs() {
    let mut app = App::new();
    assert!(!handle(&mut app, Key::Tab));
    assert_eq!(app.focused, Focus::MainChat);
    handle(&mut app, Key::Tab);
    handle(&mut app, Key::Tab);
    assert_eq!(app.focused, Focus::Sidebar);
    handle(&mut app, Key::BackTab);
    assert_eq!(app.focused, Focus::RightBar);
    handle(&mut app, Key::Tab);
    assert_eq!(app.focused, Focus::Sidebar);
    handle(&mut app, Key::Right);
    assert_eq!(app.active_tab, 1);
    assert_eq!(app.right_pane(), RightPane::Rankings);
    handle(&mut app, Key::Right);
    assert_eq!(app.active_tab, 0);
    handle(&mut app, Key::Left);
    assert_eq!(app.active_tab, 1);
    handle(&mut app, Key::Left);
    assert_eq!(app.active_tab, 0);
    assert!(handle(&mut app, Key::Char('q')));
    assert!(!handle(&mut app, Key::Char('x')));
    assert!(!handle(&mut app, Key::Enter));
    assert!(!handle(&mut app, Key::Other));
}

fn channel(name: &str, count: i32) -> StreamersEventsLeaderboard {
    StreamersEventsLeaderboard { streamer_id: name.to_string(), day: 0, events_count: count }
}

#[test]
fn keys_move_selection_in_sidebar_only() {
    let mut app = App::new();
    app.apply_fetched(vec![], vec![], vec![], vec![channel("a", 3), channel("b", -2), channel("c", 0)]);
    assert_eq!(app.active_channel, 0);
    handle(&mut app, Key::Up);
    assert_eq!(app.active_channel, 0);
    handle(&mut app, Key::Down);
    handle(&mut app, Key::Down);
    handle(&mut app, Key::Down);
    assert_eq!(app.active_channel, 2);
    handle(&mut app, Key::Up);
    assert_eq!(app.active_channel, 1);
    handle(&mut app, Key::Tab);
    handle(&mut app, Key::Down);
    assert_eq!(app.active_channel, 1);
    assert_eq!(app.selected_channel().streamer_id, "b");
    assert_eq!(app.border_tint(Focus::MainChat), Tint::Yellow);
    assert_eq!(app.border_tint(Focus::Sidebar), Tint::White);
    let rows = app.sidebar_rows();
    assert_eq!(rows.iter().map(|r| r.text.as_str()).collect::<Vec<_>>(), vec!["a (3) ", "b (-2) ", "c (0) "]);
    assert_eq!(rows.iter().map(|r| r.highlighted).collect::<Vec<_>>(), vec![false, true, false]);
}

#[test]
fn fetched_data_resets_selection_only_when_count_changes() {
    let mut app = App::new();
    app.apply_fetched(vec![], vec![], vec![], vec![channel("a", 1), channel("b", 1)]);
    handle(&mut app, Key::Down);
    assert_eq!(app.active_channel, 1);
    app.apply_fetched(vec![], vec![], vec![], vec![channel("c", 1), channel("d", 1)]);
    assert_eq!(app.active_channel, 1);
    app.apply_fetched(vec![], vec![], vec![], vec![channel("c", 1)]);
    assert_eq!(app.active_channel, 0);
    app.apply_fetched(vec![], vec![], vec![], vec![]);
    assert_eq!(app.active_channel, 0);
    assert!(app.sidebar_rows().is_empty());
}

#[test]
fn chat_pane_text() {
    let mut app = App::new();
    assert_eq!(app.chat_text(), "[[Unknown time]] [Unknown]: [No content]");
    let mut m = Message::default();
    m.chatter_username = Some("viewer".into());
    m.content = Some("hi there".into());
    m.sent_at = Some(3_723_000);
    assert_eq!(chat_line(&m), "[01:02:03] viewer: hi there");
    let mut late = Message::default();
    late.sent_at = Some(1_700_000_000_000 + 86_399_000);
    late.content = Some("x".into());
    app.apply_fetched(vec![], vec![m, late], vec![], vec![channel("a", 0)]);
    assert_eq!(app.chat_text(), "[01:02:03] viewer: hi there\n[22:13:19] [Unknown]: x");
    let mut before_epoch = Message::default();
    before_epoch.sent_at = Some(-1000);
    assert_eq!(chat_line(&before_epoch), "[23:59:59] [Unknown]: [No content]");
    let mut first = Message::default();
    first.sent_at = Some(-8_334_601_228_800_000);
    assert_eq!(chat_line(&first), "[00:00:00] [Unknown]: [No content]");
    first.sent_at = Some(-8_334_601_228_800_001);
    assert_eq!(chat_line(&first), "[[Unknown time]] [Unknown]: [No content]");
    let mut last = Message::default();
    last.sent_at = Some(8_210_266_876_799_999);
    assert_eq!(chat_line(&last), "[23:59:59] [Unknown]: [No content]");
    last.sent_at = Some(8_210_266_876_800_000);
    assert_eq!(chat_line(&last), "[[Unknown time]] [Unknown]: [No content]");
    let mut far = Message::default();
    far.sent_at = Some(i64::MAX);
    assert_eq!(chat_line(&far), "[[Unknown time]] [Unknown]: [No content]");
}

#[test]
fn right_bar_rows() {
    let mut app = App::new();
    let mut r = StreamLeaderboard::default();
    r.chatter_username = "top".into();
    r.messages_count = 9;
    app.apply_fetched(
        vec![
            ConnectedUsersToChannel { streamer_id: "a".into(), chatter_id: Some("u1".into()), joined_at: None },
            ConnectedUsersToChannel { streamer_id: "a".into(), chatter_id: None, joined_at: Some(1) },
        ],
        vec![],
        vec![r],
        vec![channel("a", 0)],
    );
    assert_eq!(app.chatter_rows(), vec!["u1".to_string(), String::new()]);
    assert_eq!(app.ranking_rows(), vec![("top".to_string(), "msg.to_string()".to_string())]);
}

#[test]
fn terminal_reacts_to_events() {
    let mut app = App::new();
    assert_eq!(react(&mut app, TerminalEvent::Tick), LoopAction::Redraw);
    assert_eq!(react(&mut app, TerminalEvent::DatabaseTick), LoopAction::Refresh);
    assert_eq!(react(&mut app, TerminalEvent::Pressed(Key::Tab)), LoopAction::Continue);
    assert_eq!(app.focused, Focus::MainChat);
    assert_eq!(react(&mut app, TerminalEvent::Pressed(Key::Char('q'))), LoopAction::Stop);
    assert_eq!(react(&mut app, TerminalEvent::Closed), LoopAction::Stop);
    assert_eq!(app.focused, Focus::MainChat);
}
