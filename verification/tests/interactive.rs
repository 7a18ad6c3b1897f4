use chooser_collector::arguments::Arguments;
use chooser_collector::choice::Choice;
use chooser_collector::engine::{ChoiceChannel, Collector, MainState};
use chooser_collector::error::CollectError;
use chooser_collector::interactive_mode::{InteractiveMode, Prompt};
use chooser_collector::output::encode_choices;

fn lines(list: &[&str]) -> Vec<String> {
    list.iter().map(|w| w.to_string()).collect()
}

#[test]
fn interactive_scenario_alice_and_bob() {
    let mut mode = InteractiveMode::default();
    let choices = mode.run_lines(&lines(&["Alice", "#FF0000", "Bob", "", ""])).unwrap();
    assert_eq!(mode.prompt(), None);
    assert_eq!(
        encode_choices(&choices).unwrap(),
        "[{\"name\":\"Alice\",\"red\":255,\"green\":0,\"blue\":0},{\"name\":\"Bob\",\"red\":0,\"green\":0,\"blue\":0}]"
    );
}

#[test]
fn interactive_lines_are_trimmed() {
    let mut mode = InteractiveMode::default();
    assert_eq!(mode.prompt(), Some(Prompt::Name));
    assert!(mode.feed("  Carol \n").unwrap().is_none());
    assert_eq!(mode.prompt(), Some(Prompt::Color));
    let choice = mode.feed(" #00ff7f\n").unwrap().unwrap();
    assert_eq!(choice.name(), "Carol");
    assert_eq!((choice.red(), choice.green(), choice.blue()), (0, 255, 127));
    assert_eq!(mode.prompt(), Some(Prompt::Name));
    assert!(mode.feed("   \n").unwrap().is_none());
    assert_eq!(mode.prompt(), None);
    assert!(mode.feed("Dave").unwrap().is_none());
    assert_eq!(mode.prompt(), None);
}

#[test]
fn interactive_bad_color_gives_up() {
    let mut mode = InteractiveMode::default();
    let outcome = mode.run_lines(&lines(&["Alice", "not a colour", "Bob", ""]));
    assert!(matches!(outcome, Err(CollectError::BadColor(_))));
    assert_eq!(mode.prompt(), None);
}

#[test]
fn interactive_order_is_input_order() {
    let mut mode = InteractiveMode::default();
    let choices = mode.run_lines(&lines(&["b", "", "a", "", "b", "#000001"])).unwrap();
    let got: Vec<(&str, u8)> = choices.iter().map(|c| (c.name(), c.blue())).collect();
    assert_eq!(got, vec![("b", 0), ("a", 0), ("b", 1)]);
    assert_eq!(mode.prompt(), Some(Prompt::Name));
}

#[test]
fn convert_string_to_color_cases() {
    let mode = InteractiveMode::default();
    assert_eq!(mode.convert_string_to_color(String::new()).unwrap(), None);
    assert_eq!(mode.convert_string_to_color("#FF0000".to_string()).unwrap(), Some((255, 0, 0)));
    assert_eq!(mode.convert_string_to_color("0a0B0c".to_string()).unwrap(), Some((10, 11, 12)));
    let error = mode.convert_string_to_color("#GG0000".to_string()).unwrap_err();
    assert!(matches!(error, CollectError::BadColor(_)));
    assert!(!error.message().is_empty());
}

#[test]
fn feed_name_and_color_steps() {
    let mut mode = InteractiveMode::default();
    mode.feed_name("Erin".to_string());
    assert_eq!(mode.prompt(), Some(Prompt::Color));
    let choice = mode.feed_color(Some((4, 5, 6)));
    assert_eq!(choice.name(), "Erin");
    assert_eq!((choice.red(), choice.green(), choice.blue()), (4, 5, 6));
    assert_eq!(mode.prompt(), Some(Prompt::Name));
    mode.feed_name(String::new());
    assert_eq!(mode.prompt(), None);
}

#[test]
fn engine_selects_interactive_by_default() {
    let (state, announcement) = MainState::new(Arguments::default()).unwrap();
    assert!(matches!(state.collector, Collector::Interactive(_)));
    assert!(announcement.is_none());
    let mut state = state;
    assert_eq!(state.finish().unwrap(), "[]");
}

#[test]
fn engine_selects_file_then_nothing() {
    let mut arguments = Arguments::default();
    arguments.interactive_mode = false;
    assert!(matches!(MainState::new(arguments), Err(CollectError::NoCollector)));
    let mut arguments = Arguments::default();
    arguments.interactive_mode = false;
    arguments.file = Some("names".to_string());
    let (state, announcement) = MainState::new(arguments).unwrap();
    assert!(announcement.is_none());
    match state.collector {
        Collector::File(file) => assert_eq!(file, "names"),
        _ => panic!("a name file was selected"),
    }
    assert_eq!(CollectError::NoCollector.message(), "no collector available");
}

#[test]
fn engine_keeps_the_order_of_recording() {
    let (mut state, _) = MainState::new(Arguments::default()).unwrap();
    let mut mode = InteractiveMode::default();
    for choice in mode.run_lines(&lines(&["z", "#010203", "y", ""])).unwrap() {
        state.record(choice).unwrap();
    }
    assert_eq!(
        state.finish().unwrap(),
        "[{\"name\":\"z\",\"red\":1,\"green\":2,\"blue\":3},{\"name\":\"y\",\"red\":0,\"green\":0,\"blue\":0}]"
    );
    assert_eq!(state.finish().unwrap(), "[]");
}

#[test]
fn channel_hands_choices_on_oldest_first() {
    let mut channel = ChoiceChannel::new();
    assert!(channel.drain().is_empty());
    for name in ["c", "a", "b", "a"] {
        channel.emit(Choice::new(name.to_string(), None)).unwrap();
    }
    let names: Vec<String> = channel.drain().iter().map(|c| c.name().to_string()).collect();
    assert_eq!(names, vec!["c", "a", "b", "a"]);
    assert!(channel.drain().is_empty());
    channel.emit(Choice::new("d".to_string(), Some((1, 2, 3)))).unwrap();
    let again = channel.drain();
    assert_eq!(again.len(), 1);
    assert_eq!(again[0].name(), "d");
    assert_eq!(CollectError::ChannelClosed.message(), "sending on a disconnected channel");
}

#[test]
fn prompt_labels() {
    assert_eq!(Prompt::Name.label(), "Name");
    assert_eq!(Prompt::Color.label(), "Color");
}
