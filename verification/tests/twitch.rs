use chooser_collector::arguments::Arguments;
use chooser_collector::choice::Choice;
use chooser_collector::engine::{Collector, MainState};
use chooser_collector::output::{encode_choice, encode_choice_with, encode_choices, join_objects};
use chooser_collector::twitch_mode::{acknowledgement, ChatEntry, Round, Tick, TwitchMode};

fn entry(message: &str, name: &str, display_name: Option<&str>, color: (u8, u8, u8)) -> ChatEntry {
    ChatEntry {
        message: message.to_string(),
        name: name.to_string(),
        display_name: display_name.map(|d| d.to_string()),
        color_rgb: color,
    }
}

fn mode_for(command: &str, deadline: u64) -> TwitchMode {
    let mut arguments = Arguments::default();
    arguments.twitch_command = command.to_string();
    arguments.deadline = deadline;
    TwitchMode::new(&arguments).0
}

#[test]
fn opening_announcement_text() {
    let mut arguments = Arguments::default();
    arguments.description = "a prize".to_string();
    arguments.twitch_command = "addme".to_string();
    arguments.deadline = 120;
    let (_, text) = TwitchMode::new(&arguments);
    assert_eq!(
        text,
        "-- Enter for a prize -- Use the command !addme to enter for the next 120 seconds"
    );
}

#[test]
fn command_matching_ignores_case_and_needs_the_start() {
    let mut mode = mode_for("here", 60);
    let accepted = mode.on_message(&entry("!HERE hello", "u1", None, (1, 2, 3)));
    assert_eq!(accepted.unwrap().name(), "u1");
    assert!(mode.on_message(&entry("hi !here", "u2", None, (1, 2, 3))).is_none());
    assert!(mode.on_message(&entry("!her", "u3", None, (1, 2, 3))).is_none());
    assert!(mode.on_message(&entry("here", "u4", None, (1, 2, 3))).is_none());
}

#[test]
fn admit_lowered_takes_the_text_as_given() {
    let mut mode = mode_for("here", 60);
    let sender = entry("ignored", "u1", None, (0, 0, 0));
    assert!(mode.admit_lowered("!HERE", &sender).is_none());
    assert!(mode.admit_lowered("!here", &sender).is_some());
    assert!(mode.admit_lowered("!here", &sender).is_none());
}

#[test]
fn identity_is_display_name_then_login() {
    let mut mode = mode_for("here", 60);
    let first = mode.on_message(&entry("!here", "login", Some("Shown"), (9, 8, 7))).unwrap();
    assert_eq!(first.name(), "Shown");
    assert_eq!((first.red(), first.green(), first.blue()), (9, 8, 7));
    assert_eq!(acknowledgement(&first), "Thanks for entering Shown");
    assert!(mode.on_message(&entry("!here", "other", Some("Shown"), (1, 1, 1))).is_none());
    let second = mode.on_message(&entry("!here", "login", None, (1, 1, 1))).unwrap();
    assert_eq!(second.name(), "login");
}

#[test]
fn live_scenario_same_identity_twice() {
    let mut mode = mode_for("addme", 1);
    let rounds = vec![
        Round { seconds: 0, nanos: 0, message: Some(entry("!addme", "x", None, (5, 6, 7))) },
        Round { seconds: 0, nanos: 500_000_000, message: Some(entry("!addme", "x", None, (5, 6, 7))) },
        Round { seconds: 1, nanos: 0, message: None },
        Round { seconds: 1, nanos: 1, message: Some(entry("!addme", "late", None, (0, 0, 0))) },
    ];
    let collected = mode.run_rounds(&rounds);
    assert_eq!(collected.rounds, 3);
    assert_eq!(collected.closing, Some("Thanks for entering, good luck!".to_string()));
    assert_eq!(collected.choices.len(), 1);
    assert_eq!(collected.choices[0].name(), "x");
    assert_eq!(
        encode_choices(&collected.choices).unwrap(),
        "[{\"name\":\"x\",\"red\":5,\"green\":6,\"blue\":7}]"
    );
}

#[test]
fn deadline_closes_without_messages_and_not_before() {
    let mode = mode_for("here", 2);
    assert!(matches!(mode.tick(0, 0), Tick::Poll));
    assert!(matches!(mode.tick(1, 999_999_999), Tick::Poll));
    assert!(matches!(mode.tick(2, 0), Tick::Poll));
    match mode.tick(2, 1) {
        Tick::Close(text) => assert_eq!(text, "Thanks for entering, good luck!"),
        Tick::Poll => panic!("the deadline has passed"),
    }
    assert!(matches!(mode.tick(3, 0), Tick::Close(_)));
}

#[test]
fn rounds_within_the_deadline_do_not_close() {
    let mut mode = mode_for("here", 10);
    let rounds = vec![
        Round { seconds: 1, nanos: 0, message: Some(entry("!here", "a", None, (0, 0, 0))) },
        Round { seconds: 2, nanos: 0, message: None },
        Round { seconds: 10, nanos: 0, message: Some(entry("!here", "b", None, (0, 0, 0))) },
    ];
    let collected = mode.run_rounds(&rounds);
    assert_eq!(collected.rounds, 3);
    assert!(collected.closing.is_none());
    assert_eq!(collected.choices.len(), 2);
}

#[test]
fn first_submission_wins_and_order_is_acceptance_order() {
    let mut mode = mode_for("here", 60);
    let entries = vec![
        entry("!here", "c", None, (1, 0, 0)),
        entry("hello", "a", None, (2, 0, 0)),
        entry("!Here now", "a", None, (3, 0, 0)),
        entry("!here", "c", None, (4, 0, 0)),
        entry("!here", "b", None, (5, 0, 0)),
        entry("!here", "a", None, (6, 0, 0)),
    ];
    let choices = mode.collect(&entries);
    let got: Vec<(&str, u8)> = choices.iter().map(|c| (c.name(), c.red())).collect();
    assert_eq!(got, vec![("c", 1), ("a", 3), ("b", 5)]);
    assert!(mode.collect(&entries).is_empty());
}

#[test]
fn collecting_in_two_parts_equals_collecting_at_once() {
    let all = || {
        vec![
            entry("!here", "a", None, (1, 0, 0)),
            entry("!here", "b", None, (2, 0, 0)),
            entry("!here", "a", None, (3, 0, 0)),
            entry("!here", "d", None, (4, 0, 0)),
        ]
    };
    let mut whole = mode_for("here", 60);
    let at_once: Vec<String> = whole.collect(&all()).iter().map(|c| c.name().to_string()).collect();
    let mut parts = mode_for("here", 60);
    let mut entries = all();
    let tail = entries.split_off(2);
    let mut in_parts: Vec<String> =
        parts.collect(&entries).iter().map(|c| c.name().to_string()).collect();
    in_parts.extend(parts.collect(&tail).iter().map(|c| c.name().to_string()));
    assert_eq!(at_once, in_parts);
    assert_eq!(at_once, vec!["a", "b", "d"]);
}

#[test]
fn engine_selects_twitch_with_announcement() {
    let mut arguments = Arguments::default();
    arguments.apply_twitch_mode(Some("fun".to_string()));
    let (state, announcement) = MainState::new(arguments).unwrap();
    assert!(matches!(state.collector, Collector::Twitch(_)));
    assert_eq!(
        announcement.unwrap(),
        "-- Enter for fun -- Use the command !here to enter for the next 60 seconds"
    );
}

#[test]
fn json_names_are_escaped() {
    let choice = Choice::new("say \"hi\"\\\n".to_string(), Some((0, 10, 200)));
    assert_eq!(
        encode_choice(&choice).unwrap(),
        "{\"name\":\"say \\\"hi\\\"\\\\\\n\",\"red\":0,\"green\":10,\"blue\":200}"
    );
    assert_eq!(
        encode_choice_with("\"q\"", &choice),
        "{\"name\":\"q\",\"red\":0,\"green\":10,\"blue\":200}"
    );
}

#[test]
fn json_array_joins_with_commas() {
    assert_eq!(join_objects(&Vec::new()), "[]");
    assert_eq!(join_objects(&vec!["{}".to_string()]), "[{}]");
    assert_eq!(join_objects(&vec!["1".to_string(), "2".to_string(), "3".to_string()]), "[1,2,3]");
}

#[test]
fn json_round_trip_gives_the_same_choices() {
    let choices = vec![
        Choice::new("Ünï \"c\" \t".to_string(), Some((255, 128, 0))),
        Choice::new("plain".to_string(), None),
        Choice::new(String::new(), Some((1, 2, 3))),
    ];
    let json = encode_choices(&choices).unwrap();
    let parsed: serde_json::Value = serde_json::from_str(&json).unwrap();
    let items = parsed.as_array().unwrap();
    assert_eq!(items.len(), choices.len());
    for (item, choice) in items.iter().zip(choices.iter()) {
        let object = item.as_object().unwrap();
        assert_eq!(object.len(), 4);
        assert_eq!(object["name"].as_str().unwrap(), choice.name());
        assert_eq!(object["red"].as_u64().unwrap(), choice.red() as u64);
        assert_eq!(object["green"].as_u64().unwrap(), choice.green() as u64);
        assert_eq!(object["blue"].as_u64().unwrap(), choice.blue() as u64);
    }
}
