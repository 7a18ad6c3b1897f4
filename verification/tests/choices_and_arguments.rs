use chooser_collector::arguments::{ArgumentError, Arguments, HELP};
use chooser_collector::choice::Choice;
use chooser_collector::file_mode::file_choices;

fn words(list: &[&str]) -> Vec<String> {
    list.iter().map(|w| w.to_string()).collect()
}

#[test]
fn choice_without_color_is_black() {
    let choice = Choice::new("Rock".to_string(), None);
    assert_eq!(choice.name(), "Rock");
    assert_eq!((choice.red(), choice.green(), choice.blue()), (0, 0, 0));
}

#[test]
fn choice_keeps_color_and_name_verbatim() {
    let choice = Choice::new("  Paper ".to_string(), Some((1, 20, 255)));
    assert_eq!(choice.name(), "  Paper ");
    assert_eq!((choice.red(), choice.green(), choice.blue()), (1, 20, 255));
}

#[test]
fn file_names_become_black_choices_in_order() {
    let names = words(&["Rock", "Paper", "Scissors"]);
    let choices = file_choices(&names);
    assert_eq!(choices.len(), 3);
    let got: Vec<(&str, u8, u8, u8)> =
        choices.iter().map(|c| (c.name(), c.red(), c.green(), c.blue())).collect();
    assert_eq!(got, vec![("Rock", 0, 0, 0), ("Paper", 0, 0, 0), ("Scissors", 0, 0, 0)]);
}

#[test]
fn file_names_are_not_deduplicated() {
    let choices = file_choices(&words(&["a", "a"]));
    assert_eq!(choices.len(), 2);
    assert_eq!(choices[1].name(), "a");
}

#[test]
fn file_without_names_gives_nothing() {
    assert!(file_choices(&Vec::new()).is_empty());
}

#[test]
fn default_arguments() {
    let arguments = Arguments::default();
    assert!(arguments.interactive_mode);
    assert!(!arguments.twitch_mode);
    assert_eq!(arguments.file, None);
    assert_eq!(arguments.twitch_command, "here");
    assert_eq!(arguments.output_file, "choices.json");
    assert!(!arguments.help);
    assert_eq!(arguments.deadline, 60);
    assert_eq!(arguments.description, "something awesome");
    assert!(!arguments.standard_out);
}

#[test]
fn empty_command_line_is_interactive() {
    let arguments = Arguments::new(Vec::new()).unwrap();
    assert!(arguments.interactive_mode);
    assert!(!arguments.twitch_mode);
    assert_eq!(arguments.description, "");
    assert_eq!(arguments.deadline, 60);
}

#[test]
fn help_flag_stops_reading() {
    let arguments = Arguments::new(words(&["--help", "-f", "names"])).unwrap();
    assert!(arguments.help);
    assert_eq!(arguments.file, None);
    assert!(arguments.interactive_mode);
    assert_eq!(arguments.help_text(), HELP);
    assert!(arguments.help_text().starts_with("Chooser Collector\n"));
}

#[test]
fn twitch_options_are_read() {
    let arguments =
        Arguments::new(words(&["-t", "a prize", "-c", "addme", "-d", "5", "-s", "-o", "out.json"]))
            .unwrap();
    assert!(arguments.twitch_mode);
    assert!(!arguments.interactive_mode);
    assert_eq!(arguments.description, "a prize");
    assert_eq!(arguments.twitch_command, "addme");
    assert_eq!(arguments.deadline, 5);
    assert!(arguments.standard_out);
    assert_eq!(arguments.output_file, "out.json");
}

#[test]
fn file_option_switches_interactive_off() {
    let arguments = Arguments::new(words(&["--file", "game_names", "-o", "game_choices.json"])).unwrap();
    assert!(!arguments.interactive_mode);
    assert!(!arguments.twitch_mode);
    assert_eq!(arguments.file, Some("game_names".to_string()));
    assert_eq!(arguments.output_file, "game_choices.json");
}

#[test]
fn file_with_twitch_is_refused() {
    let error = Arguments::new(words(&["-t", "a prize", "-f", "names"])).unwrap_err();
    assert!(matches!(error, ArgumentError::FileWithMode));
    assert_eq!(
        error.message(),
        "Cannot read choices from a file if we are getting choices interactively or through Twitch Chat"
    );
}

#[test]
fn bad_deadline_is_a_parse_error() {
    let error = Arguments::new(words(&["-d", "soon"])).unwrap_err();
    assert!(matches!(error, ArgumentError::Parse(_)));
    assert!(!error.message().is_empty());
}

#[test]
fn validate_reports_clashing_modes_first() {
    let mut arguments = Arguments::default();
    arguments.twitch_mode = true;
    arguments.file = Some("names".to_string());
    let error = arguments.validate().unwrap_err();
    assert!(matches!(error, ArgumentError::ModesClash));
    assert_eq!(error.message(), "Cannot have interactive mode and twitch mode set at the same time");
}

#[test]
fn validate_accepts_a_single_mode() {
    let mut arguments = Arguments::default();
    assert!(arguments.validate().is_ok());
    arguments.interactive_mode = false;
    arguments.file = Some("names".to_string());
    assert!(arguments.validate().is_ok());
    arguments.interactive_mode = true;
    assert!(matches!(arguments.validate(), Err(ArgumentError::FileWithMode)));
}

#[test]
fn apply_functions_follow_their_rules() {
    let mut arguments = Arguments::default();
    arguments.apply_twitch_mode(Some(String::new()));
    assert!(!arguments.twitch_mode);
    assert!(arguments.interactive_mode);
    arguments.apply_twitch_mode(Some("x".to_string()));
    assert!(arguments.twitch_mode);
    assert!(!arguments.interactive_mode);
    arguments.apply_interactive_mode(false);
    assert!(!arguments.interactive_mode);
    arguments.apply_interactive_mode(true);
    assert!(arguments.interactive_mode);
    arguments.apply_file(None);
    assert!(arguments.interactive_mode);
    arguments.apply_file(Some("f".to_string()));
    assert!(!arguments.interactive_mode);
    arguments.apply_deadline(None);
    assert_eq!(arguments.deadline, 60);
    arguments.apply_deadline(Some(0));
    assert_eq!(arguments.deadline, 0);
    arguments.apply_twitch_command(None);
    assert_eq!(arguments.twitch_command, "here");
    arguments.apply_output_file(Some("o".to_string()));
    assert_eq!(arguments.output_file, "o");
    arguments.apply_standard_out(true);
    assert!(arguments.standard_out);
}

#[test]
fn flags_and_options_are_taken_at_their_first_place() {
    let arguments = Arguments::new(words(&["-c", "-s", "--command", "later", "-s"])).unwrap();
    assert_eq!(arguments.twitch_command, "-s");
    assert!(arguments.standard_out);
    assert!(arguments.interactive_mode);
}

#[test]
fn short_key_is_looked_for_before_the_long_one() {
    let arguments = Arguments::new(words(&["--output", "long.json", "-o", "short.json"])).unwrap();
    assert_eq!(arguments.output_file, "short.json");
}

#[test]
fn option_without_a_value_is_a_parse_error() {
    let error = Arguments::new(words(&["-i", "--file"])).unwrap_err();
    assert!(matches!(error, ArgumentError::Parse(_)));
}

#[test]
fn a_file_switches_the_interactive_flag_off() {
    let arguments = Arguments::new(words(&["-i", "-f", "names"])).unwrap();
    assert!(!arguments.interactive_mode);
    assert_eq!(arguments.file, Some("names".to_string()));
    let arguments = Arguments::new(words(&["-f", "names", "-i"])).unwrap();
    assert!(!arguments.interactive_mode);
}

#[test]
fn empty_description_leaves_interactive_on() {
    let arguments = Arguments::new(words(&["--twitch", ""])).unwrap();
    assert!(!arguments.twitch_mode);
    assert!(arguments.interactive_mode);
    assert_eq!(arguments.description, "");
}

#[test]
fn validate_refuses_settings_without_a_source() {
    let mut arguments = Arguments::default();
    arguments.interactive_mode = false;
    let error = arguments.validate().unwrap_err();
    assert!(matches!(error, ArgumentError::NoMode));
    assert_eq!(
        error.message(),
        "Must collect choices interactively, through Twitch Chat or from a file"
    );
    arguments.twitch_mode = true;
    assert!(arguments.validate().is_ok());
}

#[test]
fn validate_refuses_twitch_with_a_file() {
    let mut arguments = Arguments::default();
    arguments.interactive_mode = false;
    arguments.twitch_mode = true;
    arguments.file = Some("names".to_string());
    assert!(matches!(arguments.validate(), Err(ArgumentError::FileWithMode)));
}
