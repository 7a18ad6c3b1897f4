use vstd::prelude::*;
use vstd::hash_set::StringHashSet;
use vstd::string::StringExecFns;
use crate::arguments::Arguments;
use crate::choice::{choice_of, choice_view, views_of, Choice, ChoiceView};
use crate::text::{decimal, decimal_digits, lowercase_of, starts_with, to_lowercase};

verus! {

/// One message of the chat, as the transport hands it over.
#[derive(Debug)]
pub struct ChatEntry {
    pub message: String,
    /// The login name.
    pub name: String,
    pub display_name: Option<String>,
    pub color_rgb: (u8, u8, u8),
}

/// What the collection reads of a message: its text, the identity of who sent
/// it and their colour.
pub ghost struct EntryView {
    pub message: Seq<char>,
    pub identity: Seq<char>,
    pub color: (u8, u8, u8),
}

impl View for ChatEntry {
    type V = EntryView;

    /// The identity is the display name where there is one, else the login
    /// name.
    open spec fn view(&self) -> EntryView {
        EntryView {
            message: self.message@,
            identity: match self.display_name {
                Some(display_name) => display_name@,
                None => self.name@,
            },
            color: self.color_rgb,
        }
    }
}

/// The views of a sequence of messages, in the same order.
pub open spec fn entries_of(entries: Seq<ChatEntry>) -> Seq<EntryView> {
    entries.map_values(|e: ChatEntry| e@)
}

/// The text that an entry starts with: an exclamation mark and the command.
pub open spec fn entry_pattern(command: Seq<char>) -> Seq<char> {
    seq!['!'] + command
}

/// A message, already in lower case, asks to enter when it starts with the
/// pattern.
pub open spec fn is_entry_attempt(lowered: Seq<char>, command: Seq<char>) -> bool {
    entry_pattern(command).is_prefix_of(lowered)
}

/// The choice that a message in lower case `lowered` adds, given who has entered
/// so far: none unless it asks to enter and comes from a new identity.
pub open spec fn admitted_lowered(
    command: Seq<char>,
    seen: Set<Seq<char>>,
    lowered: Seq<char>,
    entry: EntryView,
) -> Option<ChoiceView> {
    if is_entry_attempt(lowered, command) && !seen.contains(entry.identity) {
        Some(choice_of(entry.identity, Some(entry.color)))
    } else {
        None
    }
}

/// The choice that a message adds, given who has entered so far.
pub open spec fn admitted(command: Seq<char>, seen: Set<Seq<char>>, entry: EntryView) -> Option<
    ChoiceView,
> {
    admitted_lowered(command, seen, lowercase_of(entry.message), entry)
}

/// Who has entered once a message was handled.
pub open spec fn seen_with(command: Seq<char>, seen: Set<Seq<char>>, entry: EntryView) -> Set<
    Seq<char>,
> {
    if admitted(command, seen, entry) is Some {
        seen.insert(entry.identity)
    } else {
        seen
    }
}

/// Who has entered once every message of `entries` was handled in turn.
pub open spec fn seen_after(command: Seq<char>, seen: Set<Seq<char>>, entries: Seq<EntryView>) -> Set<
    Seq<char>,
>
    decreases entries.len(),
{
    if entries.len() == 0 {
        seen
    } else {
        seen_with(command, seen_after(command, seen, entries.drop_last()), entries.last())
    }
}

/// The choices that the messages of `entries` add, handled in turn.
pub open spec fn accepted(command: Seq<char>, seen: Set<Seq<char>>, entries: Seq<EntryView>) -> Seq<
    ChoiceView,
>
    decreases entries.len(),
{
    if entries.len() == 0 {
        Seq::<ChoiceView>::empty()
    } else {
        let before = accepted(command, seen, entries.drop_last());
        match admitted(command, seen_after(command, seen, entries.drop_last()), entries.last()) {
            Some(choice) => before.push(choice),
            None => before,
        }
    }
}

/// A message asks to enter when its text in lower case starts with the pattern.
pub open spec fn enters(command: Seq<char>, entry: EntryView) -> bool {
    is_entry_attempt(lowercase_of(entry.message), command)
}

/// Some message of `entries` from the identity `identity` asks to enter.
pub open spec fn has_entry_from(command: Seq<char>, entries: Seq<EntryView>, identity: Seq<char>) -> bool {
    exists|j: int|
        0 <= j < entries.len() && #[trigger] enters(command, entries[j]) && entries[j].identity
            == identity
}

/// An identity has entered after the messages exactly when it had entered
/// before them or one of them, from that identity, asks to enter.
pub proof fn lemma_seen_after_members(
    command: Seq<char>,
    seen: Set<Seq<char>>,
    entries: Seq<EntryView>,
    identity: Seq<char>,
)
    ensures
        seen_after(command, seen, entries).contains(identity) <==> seen.contains(identity)
            || has_entry_from(command, entries, identity),
    decreases entries.len(),
{
    if entries.len() > 0 {
        let earlier = entries.drop_last();
        let last = entries.last();
        lemma_seen_after_members(command, seen, earlier, identity);
        if has_entry_from(command, earlier, identity) {
            let j = choose|j: int|
                0 <= j < earlier.len() && #[trigger] enters(command, earlier[j]) && earlier[j].identity
                    == identity;
            assert(enters(command, entries[j]) && entries[j].identity == identity);
        }
        if has_entry_from(command, entries, identity) {
            let j = choose|j: int|
                0 <= j < entries.len() && #[trigger] enters(command, entries[j]) && entries[j].identity
                    == identity;
            if j < earlier.len() {
                assert(enters(command, earlier[j]) && earlier[j].identity == identity);
            }
        }
        if enters(command, last) && last.identity == identity {
            assert(enters(command, entries[entries.len() - 1]));
        }
    }
}

/// Every choice that the messages add carries an identity that had not
/// entered before them and has entered after them.
pub proof fn lemma_accepted_names(command: Seq<char>, seen: Set<Seq<char>>, entries: Seq<EntryView>)
    ensures
        forall|i: int|
            0 <= i < accepted(command, seen, entries).len() ==> !seen.contains(
                (#[trigger] accepted(command, seen, entries)[i]).name,
            ) && seen_after(command, seen, entries).contains(accepted(command, seen, entries)[i].name),
    decreases entries.len(),
{
    if entries.len() > 0 {
        let earlier = entries.drop_last();
        lemma_accepted_names(command, seen, earlier);
        assert forall|i: int| 0 <= i < accepted(command, seen, entries).len() implies !seen.contains(
            (#[trigger] accepted(command, seen, entries)[i]).name,
        ) && seen_after(command, seen, entries).contains(accepted(command, seen, entries)[i].name) by {
            if i < accepted(command, seen, earlier).len() {
                assert(accepted(command, seen, entries)[i] == accepted(command, seen, earlier)[i]);
            } else {
                lemma_seen_after_members(command, seen, earlier, entries.last().identity);
            }
        }
    }
}

/// Uniqueness: no two of the choices that a run of messages adds share a
/// name, whoever had entered before.
pub proof fn lemma_accepted_unique(command: Seq<char>, seen: Set<Seq<char>>, entries: Seq<EntryView>)
    ensures
        forall|i: int, j: int|
            0 <= i < j < accepted(command, seen, entries).len() ==> (#[trigger] accepted(
                command,
                seen,
                entries,
            )[i]).name != (#[trigger] accepted(command, seen, entries)[j]).name,
    decreases entries.len(),
{
    if entries.len() > 0 {
        let earlier = entries.drop_last();
        lemma_accepted_unique(command, seen, earlier);
        lemma_accepted_names(command, seen, earlier);
        let out = accepted(command, seen, entries);
        assert forall|i: int, j: int| 0 <= i < j < out.len() implies (#[trigger] out[i]).name != (
        #[trigger] out[j]).name by {
            if j < accepted(command, seen, earlier).len() {
                assert(out[i] == accepted(command, seen, earlier)[i]);
                assert(out[j] == accepted(command, seen, earlier)[j]);
            } else {
                assert(out[i] == accepted(command, seen, earlier)[i]);
            }
        }
    }
}

/// First come, first kept: in a collection that starts with nobody entered,
/// the message at place `k` adds a choice exactly when it asks to enter and
/// no earlier message from the same identity did.
pub proof fn lemma_first_submission_wins(command: Seq<char>, entries: Seq<EntryView>, k: int)
    requires
        0 <= k < entries.len(),
    ensures
        admitted(command, seen_after(command, Set::empty(), entries.take(k)), entries[k]) is Some
            <==> enters(command, entries[k]) && !has_entry_from(
            command,
            entries.take(k),
            entries[k].identity,
        ),
{
    lemma_seen_after_members(command, Set::empty(), entries.take(k), entries[k].identity);
}

/// Order preservation: the choices of two runs of messages handled one after
/// the other are those of the first run followed by those of the second, and
/// so is who has entered.
pub proof fn lemma_accepted_in_order(
    command: Seq<char>,
    seen: Set<Seq<char>>,
    first: Seq<EntryView>,
    second: Seq<EntryView>,
)
    ensures
        seen_after(command, seen, first + second) == seen_after(
            command,
            seen_after(command, seen, first),
            second,
        ),
        accepted(command, seen, first + second) == accepted(command, seen, first) + accepted(
            command,
            seen_after(command, seen, first),
            second,
        ),
    decreases second.len(),
{
    if second.len() == 0 {
        assert(first + second =~= first);
        assert(accepted(command, seen, first) + Seq::<ChoiceView>::empty() =~= accepted(
            command,
            seen,
            first,
        ));
    } else {
        lemma_accepted_in_order(command, seen, first, second.drop_last());
        assert((first + second).drop_last() =~= first + second.drop_last());
        assert((first + second).last() == second.last());
        let middle = seen_after(command, seen, first);
        let before = accepted(command, middle, second.drop_last());
        match admitted(command, seen_after(command, middle, second.drop_last()), second.last()) {
            Some(choice) => {
                assert(accepted(command, seen, first) + before.push(choice) =~= (accepted(
                    command,
                    seen,
                    first,
                ) + before).push(choice));
            },
            None => {},
        }
    }
}

/// Each choice that the messages add is the choice of one of them that asks
/// to enter, and the choices stand in the order of those messages.
pub proof fn lemma_accepted_sources(command: Seq<char>, seen: Set<Seq<char>>, entries: Seq<EntryView>)
    ensures
        exists|places: Seq<int>|
            #![trigger places.len()]
            {
                &&& places.len() == accepted(command, seen, entries).len()
                &&& forall|i: int|
                    0 <= i < places.len() ==> 0 <= #[trigger] places[i] < entries.len() && enters(
                        command,
                        entries[places[i]],
                    ) && accepted(command, seen, entries)[i] == choice_of(
                        entries[places[i]].identity,
                        Some(entries[places[i]].color),
                    )
                &&& forall|i: int, j: int|
                    0 <= i < j < places.len() ==> #[trigger] places[i] < #[trigger] places[j]
            },
    decreases entries.len(),
{
    if entries.len() == 0 {
        let places = Seq::<int>::empty();
        assert(places.len() == accepted(command, seen, entries).len());
    } else {
        let earlier = entries.drop_last();
        lemma_accepted_sources(command, seen, earlier);
        let before = choose|places: Seq<int>|
            #![trigger places.len()]
            {
                &&& places.len() == accepted(command, seen, earlier).len()
                &&& forall|i: int|
                    0 <= i < places.len() ==> 0 <= #[trigger] places[i] < earlier.len() && enters(
                        command,
                        earlier[places[i]],
                    ) && accepted(command, seen, earlier)[i] == choice_of(
                        earlier[places[i]].identity,
                        Some(earlier[places[i]].color),
                    )
                &&& forall|i: int, j: int|
                    0 <= i < j < places.len() ==> #[trigger] places[i] < #[trigger] places[j]
            };
        let places = if admitted(command, seen_after(command, seen, earlier), entries.last()) is Some {
            before.push(entries.len() - 1)
        } else {
            before
        };
        assert(places.len() == accepted(command, seen, entries).len());
        assert forall|i: int| 0 <= i < places.len() implies 0 <= #[trigger] places[i] < entries.len()
            && enters(command, entries[places[i]]) && accepted(command, seen, entries)[i] == choice_of(
            entries[places[i]].identity,
            Some(entries[places[i]].color),
        ) by {
            if i < before.len() {
                assert(places[i] == before[i]);
                assert(earlier[before[i]] == entries[before[i]]);
            }
        }
        assert forall|i: int, j: int| 0 <= i < j < places.len() implies #[trigger] places[i]
            < #[trigger] places[j] by {
            assert(places[i] == before[i]);
            if j < before.len() {
                assert(places[j] == before[j]);
            }
        }
    }
}

/// The deadline has passed once more time than `deadline` whole seconds has
/// gone by.
pub open spec fn deadline_passed(deadline: u64, seconds: u64, nanos: u32) -> bool {
    seconds > deadline || (seconds == deadline && nanos > 0)
}

/// What is announced to the chat when collection starts.
pub open spec fn opening_announcement(description: Seq<char>, command: Seq<char>, deadline: u64) -> Seq<
    char,
> {
    "-- Enter for "@ + description + " -- Use the command !"@ + command
        + " to enter for the next "@ + decimal_digits(deadline as nat) + " seconds"@
}

/// What is announced to the chat when the deadline has passed.
pub open spec fn closing_announcement() -> Seq<char> {
    "Thanks for entering, good luck!"@
}

/// One round of the collection loop: the time gone by since the loop started,
/// and the message that was waiting, if any.
#[derive(Debug)]
pub struct Round {
    pub seconds: u64,
    pub nanos: u32,
    pub message: Option<ChatEntry>,
}

/// The messages that were waiting in the rounds, in their order.
pub open spec fn messages_in(rounds: Seq<Round>) -> Seq<EntryView>
    decreases rounds.len(),
{
    if rounds.len() == 0 {
        Seq::<EntryView>::empty()
    } else {
        match rounds.last().message {
            Some(entry) => messages_in(rounds.drop_last()).push(entry@),
            None => messages_in(rounds.drop_last()),
        }
    }
}

/// The number of rounds before the first whose time has passed the deadline:
/// the rounds in which a message is looked for.
pub open spec fn rounds_polled(deadline: u64, rounds: Seq<Round>) -> int
    decreases rounds.len(),
{
    if rounds.len() == 0 {
        0
    } else if deadline_passed(deadline, rounds[0].seconds, rounds[0].nanos) {
        0
    } else {
        1 + rounds_polled(deadline, rounds.drop_first())
    }
}

/// Where the deadline has passed in none of the first `n` rounds, and has in
/// the round behind them if there is one, `n` rounds are polled.
pub proof fn lemma_rounds_polled(deadline: u64, rounds: Seq<Round>, n: int)
    requires
        0 <= n <= rounds.len(),
        forall|k: int| 0 <= k < n ==> !deadline_passed(deadline, (#[trigger] rounds[k]).seconds, rounds[k].nanos),
        n < rounds.len() ==> deadline_passed(deadline, rounds[n].seconds, rounds[n].nanos),
    ensures
        rounds_polled(deadline, rounds) == n,
    decreases n,
{
    if n > 0 {
        let rest = rounds.drop_first();
        assert(!deadline_passed(deadline, rounds[0].seconds, rounds[0].nanos));
        assert forall|k: int| 0 <= k < n - 1 implies !deadline_passed(
            deadline,
            (#[trigger] rest[k]).seconds,
            rest[k].nanos,
        ) by {
            assert(rest[k] == rounds[k + 1]);
        }
        lemma_rounds_polled(deadline, rest, n - 1);
    }
}

/// What a run over given rounds comes to.
#[derive(Debug)]
pub struct Collected {
    /// The choices in the order in which they were accepted.
    pub choices: Vec<Choice>,
    /// The number of rounds in which a message was looked for.
    pub rounds: usize,
    /// The closing announcement, where the deadline passed within the rounds.
    pub closing: Option<String>,
}

/// What to do at the start of a round of the collection loop.
#[derive(Debug)]
pub enum Tick {
    /// The deadline has not passed: look for a message.
    Poll,
    /// The deadline has passed: send the text and stop.
    Close(String),
}

/// Collection from a chat: who has entered, the command and the deadline in
/// whole seconds.
pub struct TwitchMode {
    command: String,
    pattern: String,
    deadline: u64,
    who_has_entered: StringHashSet,
}

impl TwitchMode {
    pub closed spec fn command(&self) -> Seq<char> {
        self.command@
    }

    pub closed spec fn deadline(&self) -> u64 {
        self.deadline
    }

    /// The identities that have entered.
    pub closed spec fn entered(&self) -> Set<Seq<char>> {
        self.who_has_entered@
    }

    /// The pattern held is the one that the command gives.
    pub closed spec fn wf(&self) -> bool {
        self.pattern@ == entry_pattern(self.command@)
    }

    /// Starts a collection in which nobody has entered, and gives the text to
    /// announce to the chat.
    pub fn new(arguments: &Arguments) -> (started: (Self, String))
        ensures
            started.0.wf(),
            started.0.command() == arguments.twitch_command@,
            started.0.deadline() == arguments.deadline,
            started.0.entered() == Set::<Seq<char>>::empty(),
            started.1@ == opening_announcement(
                arguments.description@,
                arguments.twitch_command@,
                arguments.deadline,
            ),
    {
        let command = arguments.twitch_command.clone();
        let deadline = arguments.deadline;
        let mut pattern = String::from_str("!");
        pattern.append(command.as_str());
        proof {
            reveal_strlit("!");
            assert("!"@ =~= seq!['!']);
        }
        let mut announcement = String::from_str("-- Enter for ");
        announcement.append(arguments.description.as_str());
        announcement.append(" -- Use the command !");
        announcement.append(command.as_str());
        announcement.append(" to enter for the next ");
        announcement.append(decimal(deadline).as_str());
        announcement.append(" seconds");
        (Self { command, pattern, deadline, who_has_entered: StringHashSet::new() }, announcement)
    }

    /// Decides at the start of a round, from the time gone by since the loop
    /// started, whether the collection ends. It ends only once the deadline
    /// has passed, and then always: messages play no part.
    pub fn tick(&self, seconds: u64, nanos: u32) -> (tick: Tick)
        ensures
            match tick {
                Tick::Close(text) => deadline_passed(self.deadline(), seconds, nanos) && text@
                    == closing_announcement(),
                Tick::Poll => !deadline_passed(self.deadline(), seconds, nanos),
            },
    {
        if seconds > self.deadline || (seconds == self.deadline && nanos > 0) {
            Tick::Close(String::from_str("Thanks for entering, good luck!"))
        } else {
            Tick::Poll
        }
    }

    /// Handles a message whose text in lower case is `lowered`: where it asks to
    /// enter and its identity is new, the identity is recorded and its choice
    /// returned.
    pub fn admit_lowered(&mut self, lowered: &str, entry: &ChatEntry) -> (choice: Option<Choice>)
        requires
            old(self).wf(),
        ensures
            final(self).wf(),
            final(self).command() == old(self).command(),
            final(self).deadline() == old(self).deadline(),
            choice_view(choice) == admitted_lowered(
                old(self).command(),
                old(self).entered(),
                lowered@,
                entry@,
            ),
            final(self).entered() == if choice is Some {
                old(self).entered().insert(entry@.identity)
            } else {
                old(self).entered()
            },
    {
        if !starts_with(lowered, self.pattern.as_str()) {
            return None;
        }
        let name = match &entry.display_name {
            Some(display_name) => display_name.clone(),
            None => entry.name.clone(),
        };
        if self.who_has_entered.contains(name.as_str()) {
            return None;
        }
        let choice = Choice::new(name.clone(), Some(entry.color_rgb));
        self.who_has_entered.insert(name);
        Some(choice)
    }

    /// Handles a message from the chat.
    pub fn on_message(&mut self, entry: &ChatEntry) -> (choice: Option<Choice>)
        requires
            old(self).wf(),
        ensures
            final(self).wf(),
            final(self).command() == old(self).command(),
            final(self).deadline() == old(self).deadline(),
            choice_view(choice) == admitted(old(self).command(), old(self).entered(), entry@),
            final(self).entered() == seen_with(old(self).command(), old(self).entered(), entry@),
    {
        let lowered = to_lowercase(entry.message.as_str());
        self.admit_lowered(lowered.as_str(), entry)
    }

    /// Runs the collection loop over given rounds. The loop ends at the first
    /// round whose time has passed the deadline, with the closing
    /// announcement, and at no earlier round whatever the messages were; the
    /// messages of the rounds before it are handled in turn.
    pub fn run_rounds(&mut self, rounds: &Vec<Round>) -> (collected: Collected)
        requires
            old(self).wf(),
        ensures
            final(self).wf(),
            final(self).command() == old(self).command(),
            final(self).deadline() == old(self).deadline(),
            collected.rounds <= rounds@.len(),
            collected.rounds == rounds_polled(old(self).deadline(), rounds@),
            forall|k: int|
                0 <= k < collected.rounds ==> !deadline_passed(
                    old(self).deadline(),
                    (#[trigger] rounds@[k]).seconds,
                    rounds@[k].nanos,
                ),
            collected.closing is Some <==> collected.rounds < rounds@.len(),
            collected.closing matches Some(text) ==> text@ == closing_announcement()
                && deadline_passed(
                old(self).deadline(),
                rounds@[collected.rounds as int].seconds,
                rounds@[collected.rounds as int].nanos,
            ),
            views_of(collected.choices@) == accepted(
                old(self).command(),
                old(self).entered(),
                messages_in(rounds@.take(collected.rounds as int)),
            ),
            final(self).entered() == seen_after(
                old(self).command(),
                old(self).entered(),
                messages_in(rounds@.take(collected.rounds as int)),
            ),
    {
        let mut choices: Vec<Choice> = Vec::new();
        let mut i: usize = 0;
        let ghost command = self.command();
        let ghost seen = self.entered();
        assert(rounds@.take(0) =~= Seq::<Round>::empty());
        assert(views_of(choices@) =~= Seq::<ChoiceView>::empty());
        while i < rounds.len()
            invariant
                i <= rounds.len(),
                self.wf(),
                command == old(self).command(),
                seen == old(self).entered(),
                self.command() == command,
                self.deadline() == old(self).deadline(),
                forall|k: int|
                    0 <= k < i ==> !deadline_passed(
                        self.deadline(),
                        (#[trigger] rounds@[k]).seconds,
                        rounds@[k].nanos,
                    ),
                views_of(choices@) == accepted(command, seen, messages_in(rounds@.take(i as int))),
                self.entered() == seen_after(command, seen, messages_in(rounds@.take(i as int))),
            decreases rounds.len() - i,
        {
            let round = &rounds[i];
            if let Tick::Close(text) = self.tick(round.seconds, round.nanos) {
                proof {
                    lemma_rounds_polled(self.deadline(), rounds@, i as int);
                }
                return Collected { choices, rounds: i, closing: Some(text) };
            }
            proof {
                assert(rounds@.take(i + 1).drop_last() =~= rounds@.take(i as int));
                assert(rounds@.take(i + 1).last() == rounds@[i as int]);
            }
            if let Some(entry) = &round.message {
                let ghost before = views_of(choices@);
                let ghost handled = messages_in(rounds@.take(i as int));
                let added = self.on_message(entry);
                proof {
                    assert(handled.push(entry@).drop_last() =~= handled);
                    assert(handled.push(entry@).last() == entry@);
                }
                if let Some(choice) = added {
                    choices.push(choice);
                    assert(views_of(choices@) =~= before.push(choice@));
                }
            }
            i += 1;
        }
        proof {
            lemma_rounds_polled(self.deadline(), rounds@, i as int);
        }
        Collected { choices, rounds: i, closing: None }
    }

    /// Handles the messages in turn and returns the choices they add, in the
    /// order in which they were accepted.
    pub fn collect(&mut self, entries: &Vec<ChatEntry>) -> (choices: Vec<Choice>)
        requires
            old(self).wf(),
        ensures
            final(self).wf(),
            final(self).command() == old(self).command(),
            final(self).deadline() == old(self).deadline(),
            views_of(choices@) == accepted(
                old(self).command(),
                old(self).entered(),
                entries_of(entries@),
            ),
            final(self).entered() == seen_after(
                old(self).command(),
                old(self).entered(),
                entries_of(entries@),
            ),
    {
        let mut choices: Vec<Choice> = Vec::new();
        let mut i: usize = 0;
        let ghost all = entries_of(entries@);
        let ghost command = self.command();
        let ghost seen = self.entered();
        assert(all.take(0) =~= Seq::<EntryView>::empty());
        assert(views_of(choices@) =~= Seq::<ChoiceView>::empty());
        while i < entries.len()
            invariant
                i <= entries.len(),
                all == entries_of(entries@),
                self.wf(),
                command == old(self).command(),
                seen == old(self).entered(),
                self.command() == command,
                self.deadline() == old(self).deadline(),
                views_of(choices@) == accepted(command, seen, all.take(i as int)),
                self.entered() == seen_after(command, seen, all.take(i as int)),
            decreases entries.len() - i,
        {
            let ghost before = views_of(choices@);
            let added = self.on_message(&entries[i]);
            proof {
                assert(all.take(i + 1).drop_last() =~= all.take(i as int));
                assert(all.take(i + 1).last() == entries@[i as int]@);
            }
            if let Some(choice) = added {
                choices.push(choice);
                assert(views_of(choices@) =~= before.push(choice@));
            }
            i += 1;
        }
        assert(all.take(i as int) =~= all);
        choices
    }
}

/// What is logged when an identity has entered.
pub fn acknowledgement(choice: &Choice) -> (text: String)
    ensures
        text@ == "Thanks for entering "@ + choice@.name,
{
    let mut text = String::from_str("Thanks for entering ");
    text.append(choice.name());
    text
}

} // verus!
