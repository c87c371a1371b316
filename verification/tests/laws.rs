use twitch_dashboard::args::parse_duration;
use twitch_dashboard::stressor::{generate_payload, stress_steps, EventTypes};
use twitch_dashboard::transit::TransitState;
use twitch_dashboard::ui::{handle, App, Focus, Key};
use twitch_dashboard::workload::{steps_for, ServerEvent, WorkloadStep};
use twitch_dashboard::models::ChatEvent;

fn describe(steps: &[WorkloadStep]) -> Vec<String> {
    steps
        .iter()
        .map(|s| match s {
            WorkloadStep::RecordTransit { state, streamer_id, chatter_id } => {
                format!("transit {} {} {}", state.to_string(), streamer_id, chatter_id)
            }
            WorkloadStep::CountEvent { streamer_id } => format!("count {}", streamer_id),
            WorkloadStep::StoreMessage { message } => {
                format!("store {} {} {} {}", message.channel_login, message.sender_login, message.message_text, message.message_id)
            }
        })
        .collect()
}

fn imitated(kind: EventTypes, payload: &ChatEvent) -> ServerEvent {
    match kind {
        EventTypes::Join => ServerEvent::Join { channel_login: payload.channel_login.clone(), user_login: payload.sender_login.clone() },
        EventTypes::Part => ServerEvent::Part { channel_login: payload.channel_login.clone(), user_login: payload.sender_login.clone() },
        EventTypes::Privmsg => ServerEvent::Privmsg(payload.clone()),
    }
}

#[test]
fn stress_rounds_ask_for_the_work_of_live_events() {
    for kind in [EventTypes::Join, EventTypes::Part, EventTypes::Privmsg] {
        let payload = generate_payload("chan".into(), "who".into(), "hello".into());
        let stressed = stress_steps(kind, "chan".into(), "who".into(), payload.clone());
        let live = steps_for(imitated(kind, &payload));
        assert_eq!(describe(&stressed), describe(&live));
    }
}

#[test]
fn focus_moves_undo_and_cycle() {
    for start in 0..3 {
        let mut app = App::new();
        for _ in 0..start {
            handle(&mut app, Key::Tab);
        }
        let first = app.focused;
        handle(&mut app, Key::Tab);
        handle(&mut app, Key::BackTab);
        assert_eq!(app.focused, first);
        handle(&mut app, Key::Tab);
        assert_ne!(app.focused, first);
        handle(&mut app, Key::Tab);
        handle(&mut app, Key::Tab);
        assert_eq!(app.focused, first);
    }
    assert_eq!(App::new().focused, Focus::Sidebar);
}

#[test]
fn transit_names_differ() {
    assert_ne!(TransitState::JOIN.to_string(), TransitState::LEAVE.to_string());
}

#[test]
fn decimal_seconds_parse_back() {
    for secs in [0u64, 9, 10, 99, 12345, u64::MAX] {
        assert_eq!(parse_duration(&secs.to_string()).unwrap(), secs);
        assert_eq!(parse_duration(&format!("+{}", secs)).unwrap(), secs);
    }
}
