use vstd::prelude::*;
use crate::arguments::Arguments;
use crate::choice::{views_of, Choice, ChoiceView};
use crate::error::CollectError;
use crate::file_mode::{black_choices, file_choices};
use crate::interactive_mode::{emitted_through, fails_at, stage_through, InteractiveMode, Stage};
use crate::output::{encode_choices, json_array};
use crate::twitch_mode::{
    accepted, messages_in, opening_announcement, rounds_polled, seen_after, Round, TwitchMode,
};

verus! {

/// `crossbeam::channel::Sender`: the sending end of a channel, opaque here.
#[verifier::external_type_specification]
#[verifier::external_body]
#[verifier::reject_recursive_types(T)]
pub struct ExSender<T>(crossbeam::channel::Sender<T>);

/// `crossbeam::channel::Receiver`: the receiving end of a channel, opaque
/// here.
#[verifier::external_type_specification]
#[verifier::external_body]
#[verifier::reject_recursive_types(T)]
pub struct ExReceiver<T>(crossbeam::channel::Receiver<T>);

/// The choices that wait in a channel, oldest first.
pub uninterp spec fn queued(receiver: crossbeam::channel::Receiver<Choice>) -> Seq<ChoiceView>;

/// The sending end is the one sending end of the channel that the receiving
/// end reads.
pub uninterp spec fn feeds(
    sender: crossbeam::channel::Sender<Choice>,
    receiver: crossbeam::channel::Receiver<Choice>,
) -> bool;

/// Both ends of one unbounded channel, through which the choices of a source
/// reach the run that collects them.
pub struct ChoiceChannel {
    sender: crossbeam::channel::Sender<Choice>,
    receiver: crossbeam::channel::Receiver<Choice>,
}

/// Calls `crossbeam::channel::unbounded`. Trusted: the two ends belong to one
/// channel, which starts empty.
#[verifier::external_body]
fn unbounded() -> (channel: ChoiceChannel)
    ensures
        feeds(channel.sender, channel.receiver),
        queued(channel.receiver) == Seq::<ChoiceView>::empty(),
{
    let (sender, receiver) = crossbeam::channel::unbounded();
    ChoiceChannel { sender, receiver }
}

/// Calls `crossbeam::channel::Sender::send`. Trusted: the call fails only on
/// a channel whose receiving ends are all gone; here the receiving end is held
/// beside the sending end, so the message is taken and waits behind those sent
/// before it.
#[verifier::external_body]
fn send(channel: &mut ChoiceChannel, choice: Choice) -> (sent: Result<(), Choice>)
    requires
        feeds(old(channel).sender, old(channel).receiver),
    ensures
        sent is Ok,
        feeds(final(channel).sender, final(channel).receiver),
        queued(final(channel).receiver) == queued(old(channel).receiver).push(choice@),
{
    channel.sender.send(choice).map_err(|error| error.into_inner())
}

/// Calls `crossbeam::channel::Receiver::try_iter` and collects what it
/// yields. Trusted: with nobody sending meanwhile, every waiting message comes
/// out, oldest first, and none is left.
#[verifier::external_body]
fn try_iter(channel: &mut ChoiceChannel) -> (choices: Vec<Choice>)
    requires
        feeds(old(channel).sender, old(channel).receiver),
    ensures
        feeds(final(channel).sender, final(channel).receiver),
        views_of(choices@) == queued(old(channel).receiver),
        queued(final(channel).receiver) == Seq::<ChoiceView>::empty(),
{
    channel.receiver.try_iter().collect()
}

impl ChoiceChannel {
    /// The two ends belong together.
    pub closed spec fn wf(&self) -> bool {
        feeds(self.sender, self.receiver)
    }

    /// The choices that wait in the channel, oldest first.
    pub closed spec fn waiting(&self) -> Seq<ChoiceView> {
        queued(self.receiver)
    }

    /// Opens an empty channel.
    pub fn new() -> (channel: Self)
        ensures
            channel.wf(),
            channel.waiting() == Seq::<ChoiceView>::empty(),
    {
        unbounded()
    }

    /// Puts a choice behind those that wait.
    pub fn emit(&mut self, choice: Choice) -> (outcome: Result<(), CollectError>)
        requires
            old(self).wf(),
        ensures
            outcome is Ok,
            final(self).wf(),
            final(self).waiting() == old(self).waiting().push(choice@),
    {
        match send(self, choice) {
            Ok(()) => Ok(()),
            Err(_) => Err(CollectError::ChannelClosed),
        }
    }

    /// Puts the choices, in their order, behind those that wait.
    pub fn emit_all(&mut self, choices: &Vec<Choice>) -> (outcome: Result<(), CollectError>)
        requires
            old(self).wf(),
        ensures
            outcome is Ok,
            final(self).wf(),
            final(self).waiting() == old(self).waiting() + views_of(choices@),
    {
        let mut i: usize = 0;
        assert(old(self).waiting() + views_of(choices@).take(0) =~= old(self).waiting());
        while i < choices.len()
            invariant
                i <= choices.len(),
                self.wf(),
                self.waiting() == old(self).waiting() + views_of(choices@).take(i as int),
            decreases choices.len() - i,
        {
            let ghost before = self.waiting();
            match self.emit(choices[i].clone()) {
                Ok(()) => {},
                Err(error) => {
                    return Err(error);
                },
            }
            assert(before.push(choices@[i as int]@) =~= old(self).waiting() + views_of(choices@).take(
                i + 1,
            ));
            i += 1;
        }
        assert(views_of(choices@).take(i as int) =~= views_of(choices@));
        Ok(())
    }

    /// Takes out the choices that wait, oldest first.
    pub fn drain(&mut self) -> (choices: Vec<Choice>)
        requires
            old(self).wf(),
        ensures
            final(self).wf(),
            views_of(choices@) == old(self).waiting(),
            final(self).waiting() == Seq::<ChoiceView>::empty(),
    {
        try_iter(self)
    }
}

/// The source that a run collects from.
pub enum Collector {
    Interactive(InteractiveMode),
    Twitch(TwitchMode),
    /// The file that holds the names.
    File(String),
}

/// Which source the settings select: interactive collection before chat
/// collection before a name file.
pub ghost enum Selected {
    Interactive,
    Twitch,
    File,
    Nothing,
}

pub open spec fn selected(arguments: &Arguments) -> Selected {
    if arguments.interactive_mode {
        Selected::Interactive
    } else if arguments.twitch_mode {
        Selected::Twitch
    } else if arguments.file is Some {
        Selected::File
    } else {
        Selected::Nothing
    }
}

/// What a source is given to read in place of its live input.
pub enum Script {
    /// The lines entered at the prompts of an interactive collection.
    Lines(Vec<String>),
    /// The rounds of a chat collection, each with the time gone by.
    Rounds(Vec<Round>),
    /// The names read from a name file.
    Names(Vec<String>),
}

/// The choices that a source produces from a script, in the order in which it
/// accepts them: `None` where the script is of another kind than the source
/// reads, or an interactive collection is given up over a colour.
pub open spec fn produced(collector: Collector, script: Script) -> Option<Seq<ChoiceView>> {
    match (collector, script) {
        (Collector::Interactive(mode), Script::Lines(lines)) => if gives_up(mode@, lines@) {
            None
        } else {
            Some(emitted_through(mode@, lines@))
        },
        (Collector::Twitch(mode), Script::Rounds(rounds)) => Some(
            accepted(
                mode.command(),
                mode.entered(),
                messages_in(rounds@.take(rounds_polled(mode.deadline(), rounds@))),
            ),
        ),
        (Collector::File(_), Script::Names(names)) => Some(black_choices(names@)),
        _ => None,
    }
}

/// Some line is asked for as a colour and cannot be read as one.
pub open spec fn gives_up(stage: Stage, lines: Seq<String>) -> bool {
    exists|k: int| 0 <= k < lines.len() && #[trigger] fails_at(stage, lines, k)
}

/// The script is of the kind that the source reads.
pub open spec fn fits(collector: Collector, script: Script) -> bool {
    match (collector, script) {
        (Collector::Interactive(_), Script::Lines(_)) => true,
        (Collector::Twitch(_), Script::Rounds(_)) => true,
        (Collector::File(_), Script::Names(_)) => true,
        _ => false,
    }
}

/// What a source has become once it was run over a script: an interactive
/// collection stands where the lines leave it, or is done where it gave up; a
/// chat collection has recorded who entered in the rounds that were polled; a
/// name file, and a source whose script does not fit, are as before.
pub open spec fn ran(before: Collector, after: Collector, script: Script) -> bool {
    match (before, after, script) {
        (
            Collector::Interactive(before),
            Collector::Interactive(after),
            Script::Lines(lines),
        ) => if gives_up(before@, lines@) {
            after@ is Done
        } else {
            after@ == stage_through(before@, lines@)
        },
        (Collector::Twitch(before), Collector::Twitch(after), Script::Rounds(rounds)) => {
            &&& after.command() == before.command()
            &&& after.deadline() == before.deadline()
            &&& after.entered() == seen_after(
                before.command(),
                before.entered(),
                messages_in(rounds@.take(rounds_polled(before.deadline(), rounds@))),
            )
        },
        _ => after == before,
    }
}

/// One run: its settings, its source and the choices collected so far.
pub struct MainState {
    pub arguments: Arguments,
    pub collector: Collector,
    pub channel: ChoiceChannel,
}

impl MainState {
    /// The choices collected so far, in the order in which they came.
    pub open spec fn collected(&self) -> Seq<ChoiceView> {
        self.channel.waiting()
    }

    /// The channel's ends belong together, and the source of a chat
    /// collection holds the pattern of its command.
    pub open spec fn wf(&self) -> bool {
        &&& self.channel.wf()
        &&& self.collector matches Collector::Twitch(mode) ==> mode.wf()
    }

    /// Sets a run up with the source that the settings select and no choice
    /// collected. For a chat collection the text to announce comes with it.
    pub fn new(arguments: Arguments) -> (outcome: Result<(Self, Option<String>), CollectError>)
        ensures
            match outcome {
                Ok((state, announcement)) => {
                    &&& state.arguments == arguments
                    &&& state.wf()
                    &&& state.collected() == Seq::<ChoiceView>::empty()
                    &&& match state.collector {
                        Collector::Interactive(mode) => selected(&arguments) is Interactive && mode@
                            == Stage::AwaitingName && announcement is None,
                        Collector::Twitch(mode) => {
                            &&& selected(&arguments) is Twitch
                            &&& mode.wf()
                            &&& mode.command() == arguments.twitch_command@
                            &&& mode.deadline() == arguments.deadline
                            &&& mode.entered() == Set::<Seq<char>>::empty()
                            &&& announcement matches Some(text)
                            &&& text@ == opening_announcement(
                                arguments.description@,
                                arguments.twitch_command@,
                                arguments.deadline,
                            )
                        },
                        Collector::File(file) => selected(&arguments) is File && arguments.file
                            == Some(file) && announcement is None,
                    }
                },
                Err(error) => selected(&arguments) is Nothing && error is NoCollector,
            },
    {
        let mut announcement: Option<String> = None;
        let collector = if arguments.interactive_mode {
            Collector::Interactive(InteractiveMode::default())
        } else if arguments.twitch_mode {
            let (mode, text) = TwitchMode::new(&arguments);
            announcement = Some(text);
            Collector::Twitch(mode)
        } else {
            match &arguments.file {
                Some(file) => Collector::File(file.clone()),
                None => {
                    return Err(CollectError::NoCollector);
                },
            }
        };
        Ok((Self { arguments, collector, channel: ChoiceChannel::new() }, announcement))
    }

    /// Adds a choice that the source produced behind those collected before.
    pub fn record(&mut self, choice: Choice) -> (outcome: Result<(), CollectError>)
        requires
            old(self).channel.wf(),
        ensures
            outcome is Ok,
            final(self).channel.wf(),
            final(self).arguments == old(self).arguments,
            final(self).collector == old(self).collector,
            final(self).collected() == old(self).collected().push(choice@),
    {
        self.channel.emit(choice)
    }

    /// Runs the source to its end over a script, passes the choices it
    /// produces through the channel, and writes all that was collected, in
    /// the order of collection, as the JSON text of the run; the channel is
    /// then empty. A script that does not fit the source, and a colour that
    /// cannot be read, give the run up: nothing is written, and what was
    /// collected before stays in the channel.
    pub fn run(&mut self, script: &Script) -> (outcome: Result<String, CollectError>)
        requires
            old(self).wf(),
        ensures
            final(self).wf(),
            final(self).arguments == old(self).arguments,
            ran(old(self).collector, final(self).collector, *script),
            match produced(old(self).collector, *script) {
                Some(choices) => {
                    &&& outcome matches Ok(json)
                    &&& json@ == json_array(old(self).collected() + choices)
                    &&& final(self).collected() == Seq::<ChoiceView>::empty()
                },
                None => {
                    &&& outcome matches Err(error)
                    &&& final(self).collected() == old(self).collected()
                    &&& if fits(old(self).collector, *script) {
                        error is BadColor
                    } else {
                        error is WrongInput
                    }
                },
            },
    {
        let choices = match (&mut self.collector, script) {
            (Collector::Interactive(mode), Script::Lines(lines)) => mode.run_lines(lines)?,
            (Collector::Twitch(mode), Script::Rounds(rounds)) => mode.run_rounds(rounds).choices,
            (Collector::File(_), Script::Names(names)) => file_choices(names),
            _ => {
                return Err(CollectError::WrongInput);
            },
        };
        self.channel.emit_all(&choices)?;
        self.finish()
    }

    /// Takes the collected choices out and writes them, in the order in which
    /// they were collected, as the JSON text of the run.
    pub fn finish(&mut self) -> (outcome: Result<String, CollectError>)
        requires
            old(self).channel.wf(),
        ensures
            final(self).channel.wf(),
            final(self).arguments == old(self).arguments,
            final(self).collector == old(self).collector,
            final(self).collected() == Seq::<ChoiceView>::empty(),
            outcome matches Ok(json) && json@ == json_array(old(self).collected()),
    {
        let choices = self.channel.drain();
        encode_choices(&choices)
    }
}

} // verus!
