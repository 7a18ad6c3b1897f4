use vstd::prelude::*;
use vstd::string::StringExecFns;

verus! {

pub const HELP: &'static str = "\
Chooser Collector

Create a JSON choices file meant to be used with the random chooser physics program. Names must be unique, if a name is used twice the second will be ignored.

USAGE:

chooser_collector [OPTIONS]

FLAGS:

-h, --help            Prints help information

OPTIONS:

-i, --interactive (default) Collect choices by being interactively asked for the choice name and the color one at a time
-f, --file filename         Read choice names from a file and generate a choices file from the names
-t, --twitch DESCRIPTION    Collect choices by reading from twitch chat. With the Description of what chatters are entering for.
-c, --command command       Command to listen for in Twitch chat. Whatever this is will have a ! added to the front of it. By default \"here\" is used
-o, --output                File name to write to. By default the file name is choices.json
-d, --deadline              How long will we wait for twitch chat to collect choices before stopping listening to chat
-s, --standard-out          Print the resulting json file to standard out instead of to a file


EXAMPLES:

chooser_collector

chooser_collector -f game_names -o game_choices.json

chooser_collector -t -c addme
";

pub const DEFAULT_TWITCH_COMMAND: &'static str = "here";

pub const DEFAULT_OUTPUT_FILE: &'static str = "choices.json";

/// Seconds that a chat collection lasts unless told otherwise.
pub const DEFAULT_DEADLINE: u64 = 60;

pub const DEFAULT_DESCRIPTION: &'static str = "something awesome";

/// The words of a command line that have not been read yet, held by the
/// parser of `pico_args`: opaque here, and read only through the functions
/// below.
#[verifier::external_body]
pub struct CommandLine {
    words: pico_args::Arguments,
}

/// `pico_args::Error`, carried from the parser to [`describe`] and not looked
/// into.
#[verifier::external_type_specification]
#[verifier::external_body]
pub struct ExPicoError(pico_args::Error);

/// The words that a command line still holds, in their order.
pub uninterp spec fn words_of(line: CommandLine) -> Seq<Seq<char>>;

/// The number that `u64::from_str` reads out of a text, or `None` where it
/// turns the text down.
pub uninterp spec fn number_of(text: Seq<char>) -> Option<u64>;

/// A short key is a dash and one other character, a long key starts with two
/// dashes: the shapes that `pico_args` accepts for a pair of keys.
pub open spec fn key_pair(short: Seq<char>, long: Seq<char>) -> bool {
    &&& short.len() == 2
    &&& short[0] == '-'
    &&& short[1] != '-'
    &&& long.len() > 2
    &&& long[0] == '-'
    &&& long[1] == '-'
}

/// The first place at which `key` stands among the words.
pub open spec fn first_place(words: Seq<Seq<char>>, key: Seq<char>) -> Option<int>
    decreases words.len(),
{
    if words.len() == 0 {
        None
    } else if words[0] == key {
        Some(0)
    } else {
        match first_place(words.drop_first(), key) {
            Some(place) => Some(place + 1),
            None => None,
        }
    }
}

/// The place of an option among the words: that of the first short key, or
/// without one that of the first long key.
pub open spec fn key_place(words: Seq<Seq<char>>, short: Seq<char>, long: Seq<char>) -> Option<int> {
    match first_place(words, short) {
        Some(place) => Some(place),
        None => first_place(words, long),
    }
}

/// The words once a flag was looked for: its first occurrence is gone.
pub open spec fn without_flag(words: Seq<Seq<char>>, short: Seq<char>, long: Seq<char>) -> Seq<Seq<char>> {
    match key_place(words, short, long) {
        Some(place) => words.remove(place),
        None => words,
    }
}

/// The text given with an option: `Ok(None)` where the key is absent, `Err`
/// where the key is the last word and so has no value.
pub open spec fn text_read(words: Seq<Seq<char>>, short: Seq<char>, long: Seq<char>) -> Result<
    Option<Seq<char>>,
    (),
> {
    match key_place(words, short, long) {
        None => Ok(None),
        Some(place) => if place + 1 < words.len() {
            Ok(Some(words[place + 1]))
        } else {
            Err(())
        },
    }
}

/// The number given with an option: `Ok(None)` where the key is absent, `Err`
/// where it has no value or its value is no number.
pub open spec fn number_read(words: Seq<Seq<char>>, short: Seq<char>, long: Seq<char>) -> Result<
    Option<u64>,
    (),
> {
    match text_read(words, short, long) {
        Ok(Some(text)) => match number_of(text) {
            Some(number) => Ok(Some(number)),
            None => Err(()),
        },
        Ok(None) => Ok(None),
        Err(_) => Err(()),
    }
}

/// The words once an option's value was read: the key and the value are gone.
pub open spec fn without_option(words: Seq<Seq<char>>, short: Seq<char>, long: Seq<char>) -> Seq<
    Seq<char>,
> {
    match key_place(words, short, long) {
        Some(place) => if place + 1 < words.len() {
            words.remove(place).remove(place)
        } else {
            words
        },
        None => words,
    }
}

/// Calls `pico_args::Arguments::from_vec` on the words, each turned into the
/// platform's string type. Trusted: the parser holds the words as given.
#[verifier::external_body]
fn command_line(words: Vec<String>) -> (line: CommandLine)
    ensures
        words_of(line) == words@.map_values(|word: String| word@),
{
    CommandLine { words: pico_args::Arguments::from_vec(words.into_iter().map(Into::into).collect()) }
}

/// Calls `pico_args::Arguments::contains` with a short and a long key. Trusted:
/// the parser looks for the short key and then for the long one, each at its
/// first place, removes the word it found and says whether it found one.
#[verifier::external_body]
fn take_flag(line: &mut CommandLine, short: &'static str, long: &'static str) -> (present: bool)
    requires
        key_pair(short@, long@),
    ensures
        present == (key_place(words_of(*old(line)), short@, long@) is Some),
        words_of(*final(line)) == without_flag(words_of(*old(line)), short@, long@),
{
    line.words.contains([short, long])
}

/// Calls `pico_args::Arguments::opt_value_from_str` for a text value. Trusted:
/// the parser finds the key as for a flag and takes the word behind it as the
/// value; an absent key is `Ok(None)`, a key without a word behind it an
/// error; on success the key and the value are removed.
#[verifier::external_body]
fn take_text(line: &mut CommandLine, short: &'static str, long: &'static str) -> (value: Result<
    Option<String>,
    pico_args::Error,
>)
    requires
        key_pair(short@, long@),
    ensures
        match value {
            Ok(text) => text_read(words_of(*old(line)), short@, long@) == Ok::<Option<Seq<char>>, ()>(
                text_view(text),
            ) && words_of(*final(line)) == without_option(words_of(*old(line)), short@, long@),
            Err(_) => text_read(words_of(*old(line)), short@, long@) is Err,
        },
{
    line.words.opt_value_from_str([short, long])
}

/// Calls `pico_args::Arguments::opt_value_from_str` for a whole number.
/// Trusted: as for a text value, with the value read by `u64::from_str`, whose
/// outcome is named; a value that is no number is an error.
#[verifier::external_body]
fn take_number(line: &mut CommandLine, short: &'static str, long: &'static str) -> (value: Result<
    Option<u64>,
    pico_args::Error,
>)
    requires
        key_pair(short@, long@),
    ensures
        match text_read(words_of(*old(line)), short@, long@) {
            Ok(Some(text)) => match number_of(text) {
                Some(number) => value matches Ok(Some(read)) && read == number && words_of(*final(line))
                    == without_option(words_of(*old(line)), short@, long@),
                None => value is Err,
            },
            Ok(None) => value matches Ok(None) && words_of(*final(line)) == words_of(*old(line)),
            Err(_) => value is Err,
        },
{
    line.words.opt_value_from_str([short, long])
}

/// Writes a `pico_args::Error` out through its `Display` impl. Trusted:
/// nothing is claimed of the text.
#[verifier::external_body]
fn describe(error: &pico_args::Error) -> (text: String) {
    format!("{}", error)
}

/// Why a command line was turned down.
#[derive(Debug)]
pub enum ArgumentError {
    /// Interactive and chat collection were both asked for.
    ModesClash,
    /// A name file was given together with interactive or chat collection.
    FileWithMode,
    /// Neither interactive collection, chat collection nor a name file was
    /// selected.
    NoMode,
    /// An option's value was missing or could not be read; the text says which.
    Parse(String),
}

impl ArgumentError {
    /// The sentence shown to the user.
    pub fn message(&self) -> (text: String)
        ensures
            self is ModesClash ==> text@
                == "Cannot have interactive mode and twitch mode set at the same time"@,
            self is FileWithMode ==> text@
                == "Cannot read choices from a file if we are getting choices interactively or through Twitch Chat"@,
            self is NoMode ==> text@
                == "Must collect choices interactively, through Twitch Chat or from a file"@,
            self matches ArgumentError::Parse(why) ==> text@ == why@,
    {
        match self {
            ArgumentError::ModesClash => String::from_str(
                "Cannot have interactive mode and twitch mode set at the same time",
            ),
            ArgumentError::FileWithMode => String::from_str(
                "Cannot read choices from a file if we are getting choices interactively or through Twitch Chat",
            ),
            ArgumentError::NoMode => String::from_str(
                "Must collect choices interactively, through Twitch Chat or from a file",
            ),
            ArgumentError::Parse(why) => why.clone(),
        }
    }
}

/// What an [`Arguments`] holds, with each text as a sequence of characters.
pub ghost struct ArgumentsView {
    pub interactive_mode: bool,
    pub twitch_mode: bool,
    pub file: Option<Seq<char>>,
    pub twitch_command: Seq<char>,
    pub output_file: Seq<char>,
    pub help: bool,
    pub deadline: u64,
    pub description: Seq<char>,
    pub standard_out: bool,
}

/// The settings before any option is read.
pub open spec fn default_view() -> ArgumentsView {
    ArgumentsView {
        interactive_mode: true,
        twitch_mode: false,
        file: None,
        twitch_command: DEFAULT_TWITCH_COMMAND@,
        output_file: DEFAULT_OUTPUT_FILE@,
        help: false,
        deadline: DEFAULT_DEADLINE,
        description: DEFAULT_DESCRIPTION@,
        standard_out: false,
    }
}

/// The settings after the chat option was read: a non-empty description
/// switches chat collection on and interactive collection off.
pub open spec fn with_twitch(before: ArgumentsView, description: Option<Seq<char>>) -> ArgumentsView {
    let text = match description {
        Some(text) => text,
        None => Seq::<char>::empty(),
    };
    ArgumentsView {
        twitch_mode: text.len() > 0,
        interactive_mode: before.interactive_mode && text.len() == 0,
        description: text,
        ..before
    }
}

/// The settings after the file option was read: a file switches interactive
/// collection off.
pub open spec fn with_file(before: ArgumentsView, file: Option<Seq<char>>) -> ArgumentsView {
    match file {
        Some(file) => ArgumentsView { file: Some(file), interactive_mode: false, ..before },
        None => before,
    }
}

/// A value that replaces the one held only where it was given.
pub open spec fn given_or<T>(given: Option<T>, held: T) -> T {
    match given {
        Some(value) => value,
        None => held,
    }
}

/// The number of sources that the settings select: interactive collection,
/// chat collection and a name file each count once.
pub open spec fn sources_selected(view: ArgumentsView) -> int {
    (if view.interactive_mode {
        1int
    } else {
        0int
    }) + (if view.twitch_mode {
        1int
    } else {
        0int
    }) + (if view.file is Some {
        1int
    } else {
        0int
    })
}

/// Exactly one source is selected.
pub open spec fn consistent(view: ArgumentsView) -> bool {
    sources_selected(view) == 1
}

/// The settings read so far and the words still to read.
pub ghost struct Reading {
    pub settings: ArgumentsView,
    pub words: Seq<Seq<char>>,
}

/// Why a command line is turned down.
pub ghost enum Refusal {
    Parse,
    ModesClash,
    FileWithMode,
    NoMode,
}

pub open spec fn read_interactive(at: Reading) -> Reading {
    Reading {
        settings: ArgumentsView {
            interactive_mode: at.settings.interactive_mode || key_place(
                at.words,
                "-i"@,
                "--interactive"@,
            ) is Some,
            ..at.settings
        },
        words: without_flag(at.words, "-i"@, "--interactive"@),
    }
}

pub open spec fn read_twitch(at: Reading) -> Option<Reading> {
    match text_read(at.words, "-t"@, "--twitch"@) {
        Ok(description) => Some(
            Reading {
                settings: with_twitch(at.settings, description),
                words: without_option(at.words, "-t"@, "--twitch"@),
            },
        ),
        Err(_) => None,
    }
}

pub open spec fn read_file(at: Reading) -> Option<Reading> {
    match text_read(at.words, "-f"@, "--file"@) {
        Ok(file) => Some(
            Reading {
                settings: with_file(at.settings, file),
                words: without_option(at.words, "-f"@, "--file"@),
            },
        ),
        Err(_) => None,
    }
}

pub open spec fn read_command(at: Reading) -> Option<Reading> {
    match text_read(at.words, "-c"@, "--command"@) {
        Ok(command) => Some(
            Reading {
                settings: ArgumentsView {
                    twitch_command: given_or(command, at.settings.twitch_command),
                    ..at.settings
                },
                words: without_option(at.words, "-c"@, "--command"@),
            },
        ),
        Err(_) => None,
    }
}

pub open spec fn read_output(at: Reading) -> Option<Reading> {
    match text_read(at.words, "-o"@, "--output"@) {
        Ok(filename) => Some(
            Reading {
                settings: ArgumentsView {
                    output_file: given_or(filename, at.settings.output_file),
                    ..at.settings
                },
                words: without_option(at.words, "-o"@, "--output"@),
            },
        ),
        Err(_) => None,
    }
}

pub open spec fn read_deadline(at: Reading) -> Option<Reading> {
    match number_read(at.words, "-d"@, "--deadline"@) {
        Ok(deadline) => Some(
            Reading {
                settings: ArgumentsView {
                    deadline: given_or(deadline, at.settings.deadline),
                    ..at.settings
                },
                words: without_option(at.words, "-d"@, "--deadline"@),
            },
        ),
        Err(_) => None,
    }
}

pub open spec fn read_standard_out(at: Reading) -> Reading {
    Reading {
        settings: ArgumentsView {
            standard_out: key_place(at.words, "-s"@, "--standard-out"@) is Some,
            ..at.settings
        },
        words: without_flag(at.words, "-s"@, "--standard-out"@),
    }
}

/// The options that take a value, read in their fixed order: the chat
/// description, the name file, the chat command, the output file and the
/// deadline. `None` where one of them cannot be read.
pub open spec fn read_valued(at: Reading) -> Option<Reading> {
    match read_twitch(at) {
        None => None,
        Some(at) => match read_file(at) {
            None => None,
            Some(at) => match read_command(at) {
                None => None,
                Some(at) => match read_output(at) {
                    None => None,
                    Some(at) => read_deadline(at),
                },
            },
        },
    }
}

/// Which refusal inconsistent settings get: interactive together with chat
/// collection comes first, then a name file beside one of the two; what is
/// left selects no source at all.
pub open spec fn refusal_of(view: ArgumentsView) -> Refusal {
    if view.interactive_mode && view.twitch_mode {
        Refusal::ModesClash
    } else if (view.interactive_mode || view.twitch_mode) && view.file is Some {
        Refusal::FileWithMode
    } else {
        Refusal::NoMode
    }
}

/// The settings that the words of a command line give. With the help flag
/// nothing else is read. Otherwise the interactive flag, the options with a
/// value and the standard-output flag are read in this order, each taking its
/// words away, and the outcome must select no two sources together.
pub open spec fn parsed(words: Seq<Seq<char>>) -> Result<ArgumentsView, Refusal> {
    if key_place(words, "-h"@, "--help"@) is Some {
        Ok(ArgumentsView { help: true, ..default_view() })
    } else {
        let start = Reading {
            settings: default_view(),
            words: without_flag(words, "-h"@, "--help"@),
        };
        match read_valued(read_interactive(start)) {
            None => Err(Refusal::Parse),
            Some(at) => {
                let settings = read_standard_out(at).settings;
                if consistent(settings) {
                    Ok(settings)
                } else {
                    Err(refusal_of(settings))
                }
            },
        }
    }
}

/// The readers leave a source selected: a command line is never refused for
/// selecting none, and settings that were read off one without the help flag
/// select exactly one of interactive collection, chat collection and a name
/// file.
pub proof fn lemma_parsed_selects_one(words: Seq<Seq<char>>)
    ensures
        !(parsed(words) matches Err(Refusal::NoMode)),
        parsed(words) matches Ok(settings) ==> settings.help || sources_selected(settings) == 1,
{
}

/// The refusal that an error stands for.
pub open spec fn refusal(error: ArgumentError) -> Refusal {
    match error {
        ArgumentError::ModesClash => Refusal::ModesClash,
        ArgumentError::FileWithMode => Refusal::FileWithMode,
        ArgumentError::NoMode => Refusal::NoMode,
        ArgumentError::Parse(_) => Refusal::Parse,
    }
}

/// Where a reading stands: the settings held and the words left on the line.
pub open spec fn reading(settings: Arguments, line: CommandLine) -> Reading {
    Reading { settings: settings@, words: words_of(line) }
}

/// The views of an optional text.
pub open spec fn text_view(text: Option<String>) -> Option<Seq<char>> {
    match text {
        Some(text) => Some(text@),
        None => None,
    }
}

/// The settings of one run. `deadline` is in whole seconds.
#[derive(Debug)]
pub struct Arguments {
    pub interactive_mode: bool,
    pub twitch_mode: bool,
    pub file: Option<String>,
    pub twitch_command: String,
    pub output_file: String,
    pub help: bool,
    pub deadline: u64,
    pub description: String,
    pub standard_out: bool,
}

impl View for Arguments {
    type V = ArgumentsView;

    open spec fn view(&self) -> ArgumentsView {
        ArgumentsView {
            interactive_mode: self.interactive_mode,
            twitch_mode: self.twitch_mode,
            file: text_view(self.file),
            twitch_command: self.twitch_command@,
            output_file: self.output_file@,
            help: self.help,
            deadline: self.deadline,
            description: self.description@,
            standard_out: self.standard_out,
        }
    }
}

impl Default for Arguments {
    fn default() -> (arguments: Self)
        ensures
            arguments@ == default_view(),
    {
        Self {
            interactive_mode: true,
            twitch_mode: false,
            file: None,
            twitch_command: String::from_str(DEFAULT_TWITCH_COMMAND),
            output_file: String::from_str(DEFAULT_OUTPUT_FILE),
            help: false,
            deadline: DEFAULT_DEADLINE,
            description: String::from_str(DEFAULT_DESCRIPTION),
            standard_out: false,
        }
    }
}

impl Arguments {
    /// Reads the settings off the words of a command line, the program's name
    /// left out.
    pub fn new(words: Vec<String>) -> (outcome: Result<Self, ArgumentError>)
        ensures
            match outcome {
                Ok(arguments) => parsed(words@.map_values(|word: String| word@)) == Ok::<
                    ArgumentsView,
                    Refusal,
                >(arguments@),
                Err(error) => parsed(words@.map_values(|word: String| word@)) == Err::<
                    ArgumentsView,
                    Refusal,
                >(refusal(error)),
            },
    {
        let mut line = command_line(words);
        let mut arguments = Self::default();
        proof {
            reveal_strlit("-h");
            reveal_strlit("--help");
        }
        if take_flag(&mut line, "-h", "--help") {
            arguments.help = true;
            return Ok(arguments);
        }
        arguments.set_interactive_mode(&mut line);
        arguments.set_twitch_mode(&mut line)?;
        arguments.set_file(&mut line)?;
        arguments.set_twitch_command(&mut line)?;
        arguments.set_output_file(&mut line)?;
        arguments.set_deadline(&mut line)?;
        arguments.set_standard_out(&mut line);

        match arguments.validate() {
            Ok(()) => Ok(arguments),
            Err(error) => Err(error),
        }
    }

    /// Switches interactive collection on where its flag is present.
    pub fn apply_interactive_mode(&mut self, present: bool)
        ensures
            final(self)@ == (ArgumentsView {
                interactive_mode: old(self)@.interactive_mode || present,
                ..old(self)@
            }),
    {
        if present {
            self.interactive_mode = true;
        }
    }

    /// Takes the description given with the chat option.
    pub fn apply_twitch_mode(&mut self, description: Option<String>)
        ensures
            final(self)@ == with_twitch(old(self)@, text_view(description)),
    {
        let description = match description {
            Some(text) => text,
            None => String::new(),
        };
        self.twitch_mode = !description.as_str().is_empty();
        if self.twitch_mode {
            self.interactive_mode = false;
        }
        self.description = description;
    }

    /// Takes the name file, if one was given.
    pub fn apply_file(&mut self, file: Option<String>)
        ensures
            final(self)@ == with_file(old(self)@, text_view(file)),
    {
        if let Some(file) = file {
            self.file = Some(file);
            self.interactive_mode = false;
        }
    }

    /// Takes the chat command, if one was given.
    pub fn apply_twitch_command(&mut self, command: Option<String>)
        ensures
            final(self)@ == (ArgumentsView {
                twitch_command: given_or(text_view(command), old(self)@.twitch_command),
                ..old(self)@
            }),
    {
        if let Some(command) = command {
            self.twitch_command = command;
        }
    }

    /// Takes the output file's name, if one was given.
    pub fn apply_output_file(&mut self, filename: Option<String>)
        ensures
            final(self)@ == (ArgumentsView {
                output_file: given_or(text_view(filename), old(self)@.output_file),
                ..old(self)@
            }),
    {
        if let Some(filename) = filename {
            self.output_file = filename;
        }
    }

    /// Takes the deadline in seconds, if one was given.
    pub fn apply_deadline(&mut self, deadline: Option<u64>)
        ensures
            final(self)@ == (ArgumentsView {
                deadline: given_or(deadline, old(self)@.deadline),
                ..old(self)@
            }),
    {
        if let Some(deadline) = deadline {
            self.deadline = deadline;
        }
    }

    /// Sets whether the result goes to standard output.
    pub fn apply_standard_out(&mut self, present: bool)
        ensures
            final(self)@ == (ArgumentsView { standard_out: present, ..old(self)@ }),
    {
        self.standard_out = present;
    }

    /// Looks for `-i` / `--interactive` and switches interactive collection on
    /// where it is present.
    fn set_interactive_mode(&mut self, line: &mut CommandLine)
        ensures
            reading(*final(self), *final(line)) == read_interactive(reading(*old(self), *old(line))),
    {
        proof {
            reveal_strlit("-i");
            reveal_strlit("--interactive");
        }
        let present = take_flag(line, "-i", "--interactive");
        self.apply_interactive_mode(present);
    }

    /// Reads `-t` / `--twitch` with its description.
    fn set_twitch_mode(&mut self, line: &mut CommandLine) -> (outcome: Result<(), ArgumentError>)
        ensures
            match read_twitch(reading(*old(self), *old(line))) {
                Some(at) => outcome is Ok && reading(*final(self), *final(line)) == at,
                None => outcome matches Err(error) && error is Parse && final(self)@ == old(self)@,
            },
    {
        proof {
            reveal_strlit("-t");
            reveal_strlit("--twitch");
        }
        match take_text(line, "-t", "--twitch") {
            Ok(description) => {
                self.apply_twitch_mode(description);
                Ok(())
            },
            Err(error) => Err(ArgumentError::Parse(describe(&error))),
        }
    }

    /// Reads `-f` / `--file` with its file name.
    fn set_file(&mut self, line: &mut CommandLine) -> (outcome: Result<(), ArgumentError>)
        ensures
            match read_file(reading(*old(self), *old(line))) {
                Some(at) => outcome is Ok && reading(*final(self), *final(line)) == at,
                None => outcome matches Err(error) && error is Parse && final(self)@ == old(self)@,
            },
    {
        proof {
            reveal_strlit("-f");
            reveal_strlit("--file");
        }
        match take_text(line, "-f", "--file") {
            Ok(file) => {
                self.apply_file(file);
                Ok(())
            },
            Err(error) => Err(ArgumentError::Parse(describe(&error))),
        }
    }

    /// Reads `-c` / `--command` with its command.
    fn set_twitch_command(&mut self, line: &mut CommandLine) -> (outcome: Result<(), ArgumentError>)
        ensures
            match read_command(reading(*old(self), *old(line))) {
                Some(at) => outcome is Ok && reading(*final(self), *final(line)) == at,
                None => outcome matches Err(error) && error is Parse && final(self)@ == old(self)@,
            },
    {
        proof {
            reveal_strlit("-c");
            reveal_strlit("--command");
        }
        match take_text(line, "-c", "--command") {
            Ok(command) => {
                self.apply_twitch_command(command);
                Ok(())
            },
            Err(error) => Err(ArgumentError::Parse(describe(&error))),
        }
    }

    /// Reads `-o` / `--output` with its file name.
    fn set_output_file(&mut self, line: &mut CommandLine) -> (outcome: Result<(), ArgumentError>)
        ensures
            match read_output(reading(*old(self), *old(line))) {
                Some(at) => outcome is Ok && reading(*final(self), *final(line)) == at,
                None => outcome matches Err(error) && error is Parse && final(self)@ == old(self)@,
            },
    {
        proof {
            reveal_strlit("-o");
            reveal_strlit("--output");
        }
        match take_text(line, "-o", "--output") {
            Ok(filename) => {
                self.apply_output_file(filename);
                Ok(())
            },
            Err(error) => Err(ArgumentError::Parse(describe(&error))),
        }
    }

    /// Reads `-d` / `--deadline` with its number of seconds.
    fn set_deadline(&mut self, line: &mut CommandLine) -> (outcome: Result<(), ArgumentError>)
        ensures
            match read_deadline(reading(*old(self), *old(line))) {
                Some(at) => outcome is Ok && reading(*final(self), *final(line)) == at,
                None => outcome matches Err(error) && error is Parse && final(self)@ == old(self)@,
            },
    {
        proof {
            reveal_strlit("-d");
            reveal_strlit("--deadline");
        }
        match take_number(line, "-d", "--deadline") {
            Ok(deadline) => {
                self.apply_deadline(deadline);
                Ok(())
            },
            Err(error) => Err(ArgumentError::Parse(describe(&error))),
        }
    }

    /// Looks for `-s` / `--standard-out` and sets whether the result goes to
    /// standard output.
    fn set_standard_out(&mut self, line: &mut CommandLine)
        ensures
            reading(*final(self), *final(line)) == read_standard_out(reading(*old(self), *old(line))),
    {
        proof {
            reveal_strlit("-s");
            reveal_strlit("--standard-out");
        }
        let present = take_flag(line, "-s", "--standard-out");
        self.apply_standard_out(present);
    }

    /// Accepts the settings exactly when they select one source. Interactive
    /// with chat collection is reported first, then a name file beside one of
    /// the two, then no source at all.
    pub fn validate(&self) -> (outcome: Result<(), ArgumentError>)
        ensures
            outcome is Ok <==> consistent(self@),
            outcome matches Err(error) ==> refusal(error) == refusal_of(self@),
    {
        if self.interactive_mode && self.twitch_mode {
            return Err(ArgumentError::ModesClash);
        }
        if (self.interactive_mode || self.twitch_mode) && self.file.is_some() {
            return Err(ArgumentError::FileWithMode);
        }
        if !self.interactive_mode && !self.twitch_mode && self.file.is_none() {
            return Err(ArgumentError::NoMode);
        }
        Ok(())
    }

    /// The usage text.
    pub fn help_text(&self) -> (text: &str)
        ensures
            text@ == HELP@,
    {
        HELP
    }
}

} // verus!
