use vstd::prelude::*;
use crate::choice::{choice_of, choice_view, views_of, Choice, ChoiceView};
use crate::error::CollectError;
use crate::text::{trim, trimmed_of};

verus! {

/// `colorsys::ParseError`, carried from the parser to [`describe`] and not
/// looked into.
#[verifier::external_type_specification]
#[verifier::external_body]
pub struct ExParseError(colorsys::ParseError);

/// The colour that `colorsys` reads out of a hexadecimal colour string, or
/// `None` where it turns the string down.
pub uninterp spec fn hex_color_of(text: Seq<char>) -> Option<(u8, u8, u8)>;

/// Calls `colorsys::Rgb::from_hex_str` and turns the colour into its three
/// components. Trusted: the outcome is named, not described; it depends on the
/// text alone.
#[verifier::external_body]
fn parse_hex(text: &str) -> (parsed: Result<(u8, u8, u8), colorsys::ParseError>)
    ensures
        parsed is Ok <==> hex_color_of(text@) is Some,
        parsed matches Ok(rgb) ==> hex_color_of(text@) == Some(rgb),
{
    colorsys::Rgb::from_hex_str(text).map(|rgb| rgb.into())
}

/// Writes a `colorsys::ParseError` out through its `Display` impl. Trusted:
/// nothing is claimed of the text.
#[verifier::external_body]
fn describe(error: &colorsys::ParseError) -> (text: String) {
    format!("{}", error)
}

/// Where an interactive collection stands.
pub ghost enum Stage {
    AwaitingName,
    /// The name was entered and its colour is asked for.
    AwaitingColor(Seq<char>),
    Done,
}

/// What is asked of the user next.
#[derive(Debug, Clone, Copy, PartialEq, Eq, Structural)]
pub enum Prompt {
    Name,
    Color,
}

impl Prompt {
    /// The word shown to the user.
    pub fn label(&self) -> (label: &'static str)
        ensures
            label@ == (match self {
                Prompt::Name => "Name"@,
                Prompt::Color => "Color"@,
            }),
    {
        match self {
            Prompt::Name => "Name",
            Prompt::Color => "Color",
        }
    }
}

/// The colour that an entered text stands for: none where it is empty; where it
/// is not, `Err` if it is no hexadecimal colour.
pub open spec fn color_of_input(input: Seq<char>) -> Result<Option<(u8, u8, u8)>, ()> {
    if input.len() == 0 {
        Ok(None)
    } else {
        match hex_color_of(input) {
            Some(rgb) => Ok(Some(rgb)),
            None => Err(()),
        }
    }
}

/// The input is asked for as a colour and cannot be read as one.
pub open spec fn refused(stage: Stage, input: Seq<char>) -> bool {
    stage is AwaitingColor && color_of_input(input) is Err
}

/// The stage after a trimmed line was entered.
pub open spec fn stage_after(stage: Stage, input: Seq<char>) -> Stage {
    match stage {
        Stage::AwaitingName => if input.len() == 0 {
            Stage::Done
        } else {
            Stage::AwaitingColor(input)
        },
        Stage::AwaitingColor(_) => if color_of_input(input) is Ok {
            Stage::AwaitingName
        } else {
            Stage::Done
        },
        Stage::Done => Stage::Done,
    }
}

/// The choice that a trimmed line completes, if any: a colour line that can be
/// read completes the choice of the name before it.
pub open spec fn emitted(stage: Stage, input: Seq<char>) -> Option<ChoiceView> {
    match (stage, color_of_input(input)) {
        (Stage::AwaitingColor(name), Ok(color)) => Some(choice_of(name, color)),
        _ => None,
    }
}

/// The stage after the lines were entered in turn, each trimmed.
pub open spec fn stage_through(stage: Stage, lines: Seq<String>) -> Stage
    decreases lines.len(),
{
    if lines.len() == 0 {
        stage
    } else {
        stage_after(stage_through(stage, lines.drop_last()), trimmed_of(lines.last()@))
    }
}

/// The choices that the lines complete, entered in turn and each trimmed.
pub open spec fn emitted_through(stage: Stage, lines: Seq<String>) -> Seq<ChoiceView>
    decreases lines.len(),
{
    if lines.len() == 0 {
        Seq::<ChoiceView>::empty()
    } else {
        let before = emitted_through(stage, lines.drop_last());
        match emitted(stage_through(stage, lines.drop_last()), trimmed_of(lines.last()@)) {
            Some(choice) => before.push(choice),
            None => before,
        }
    }
}

/// The line at place `k` is asked for as a colour and cannot be read as one.
pub open spec fn fails_at(stage: Stage, lines: Seq<String>, k: int) -> bool {
    refused(stage_through(stage, lines.take(k)), trimmed_of(lines[k]@))
}

/// The lines at places `2 * i` and `2 * i + 1` are a name and its colour: the
/// first is not empty once trimmed, the second is empty or a hexadecimal
/// colour.
pub open spec fn pair_at(lines: Seq<String>, i: int) -> bool {
    &&& trimmed_of(lines[2 * i]@).len() > 0
    &&& color_of_input(trimmed_of(lines[2 * i + 1]@)) is Ok
}

/// The choice of the name and colour at places `2 * i` and `2 * i + 1`.
pub open spec fn pair_choice(lines: Seq<String>, i: int) -> ChoiceView {
    choice_of(
        trimmed_of(lines[2 * i]@),
        color_of_input(trimmed_of(lines[2 * i + 1]@))->Ok_0,
    )
}

/// Where the first `k` pairs of lines are names with their colours, the
/// collection stands after `m` of those lines at the name or colour that
/// comes next, and has completed the choices of the pairs entered in full, in
/// their order.
proof fn lemma_pairs_entered(lines: Seq<String>, k: int, m: int)
    requires
        0 <= m <= 2 * k <= lines.len(),
        forall|i: int| 0 <= i < k ==> #[trigger] pair_at(lines, i),
    ensures
        m % 2 == 0 ==> stage_through(Stage::AwaitingName, lines.take(m)) == Stage::AwaitingName,
        m % 2 == 1 ==> stage_through(Stage::AwaitingName, lines.take(m)) == Stage::AwaitingColor(
            trimmed_of(lines[m - 1]@),
        ),
        emitted_through(Stage::AwaitingName, lines.take(m)).len() == m / 2,
        forall|i: int|
            0 <= i < m / 2 ==> #[trigger] emitted_through(Stage::AwaitingName, lines.take(m))[i]
                == pair_choice(lines, i),
    decreases m,
{
    if m > 0 {
        lemma_pairs_entered(lines, k, m - 1);
        assert(lines.take(m).drop_last() =~= lines.take(m - 1));
        assert(lines.take(m).last() == lines[m - 1]);
        let before = emitted_through(Stage::AwaitingName, lines.take(m - 1));
        if m % 2 == 1 {
            let i = (m - 1) / 2;
            assert(pair_at(lines, i));
            assert(2 * i == m - 1);
            assert(emitted_through(Stage::AwaitingName, lines.take(m)) == before);
        } else {
            let i = m / 2 - 1;
            assert(pair_at(lines, i));
            assert(2 * i + 1 == m - 1);
            assert(emitted_through(Stage::AwaitingName, lines.take(m)) == before.push(
                pair_choice(lines, i),
            ));
        }
    }
}

/// Order preservation: where `k` names, each followed by its colour, are
/// entered and then an empty line, no line is refused, the collection is
/// done, and it has completed exactly the `k` choices of the pairs, in the
/// order in which they were entered.
pub proof fn lemma_pairs_in_order(lines: Seq<String>, k: int)
    requires
        0 <= k,
        lines.len() == 2 * k + 1,
        forall|i: int| 0 <= i < k ==> #[trigger] pair_at(lines, i),
        trimmed_of(lines[2 * k]@).len() == 0,
    ensures
        forall|j: int| 0 <= j < lines.len() ==> !#[trigger] fails_at(Stage::AwaitingName, lines, j),
        stage_through(Stage::AwaitingName, lines) == Stage::Done,
        emitted_through(Stage::AwaitingName, lines).len() == k,
        forall|i: int|
            0 <= i < k ==> #[trigger] emitted_through(Stage::AwaitingName, lines)[i] == pair_choice(
                lines,
                i,
            ),
{
    assert forall|j: int| 0 <= j < lines.len() implies !#[trigger] fails_at(
        Stage::AwaitingName,
        lines,
        j,
    ) by {
        if j < 2 * k {
            lemma_pairs_entered(lines, k, j);
            if j % 2 == 1 {
                let i = (j - 1) / 2;
                assert(pair_at(lines, i));
                assert(2 * i + 1 == j);
            }
        } else {
            lemma_pairs_entered(lines, k, 2 * k);
        }
    }
    lemma_pairs_entered(lines, k, 2 * k);
    assert(lines.drop_last() =~= lines.take(2 * k));
    assert(lines.last() == lines[2 * k]);
    assert(emitted_through(Stage::AwaitingName, lines) == emitted_through(
        Stage::AwaitingName,
        lines.take(2 * k),
    ));
}

/// Collection by asking for a name and a colour in turn, until an empty name
/// is entered.
#[derive(Debug)]
pub struct InteractiveMode {
    pending: Option<String>,
    done: bool,
}

impl View for InteractiveMode {
    type V = Stage;

    closed spec fn view(&self) -> Stage {
        if self.done {
            Stage::Done
        } else {
            match self.pending {
                Some(name) => Stage::AwaitingColor(name@),
                None => Stage::AwaitingName,
            }
        }
    }
}

impl Default for InteractiveMode {
    fn default() -> (mode: Self)
        ensures
            mode@ == Stage::AwaitingName,
    {
        Self { pending: None, done: false }
    }
}

impl InteractiveMode {
    /// What to ask for next; nothing once the collection is done.
    pub fn prompt(&self) -> (prompt: Option<Prompt>)
        ensures
            prompt == match self@ {
                Stage::AwaitingName => Some(Prompt::Name),
                Stage::AwaitingColor(_) => Some(Prompt::Color),
                Stage::Done => None::<Prompt>,
            },
    {
        if self.done {
            None
        } else if self.pending.is_some() {
            Some(Prompt::Color)
        } else {
            Some(Prompt::Name)
        }
    }

    /// Reads a colour out of what was entered: nothing entered is no colour,
    /// anything else must be a hexadecimal colour.
    pub fn convert_string_to_color(&self, string: String) -> (color: Result<
        Option<(u8, u8, u8)>,
        CollectError,
    >)
        ensures
            match color {
                Ok(rgb) => color_of_input(string@) == Ok::<Option<(u8, u8, u8)>, ()>(rgb),
                Err(error) => color_of_input(string@) is Err && error is BadColor,
            },
    {
        if string.as_str().is_empty() {
            return Ok(None);
        }
        match parse_hex(string.as_str()) {
            Ok(rgb) => Ok(Some(rgb)),
            Err(error) => Err(CollectError::BadColor(describe(&error))),
        }
    }

    /// Takes the name that was entered, already trimmed: an empty one ends the
    /// collection.
    pub fn feed_name(&mut self, name: String)
        requires
            old(self)@ is AwaitingName,
        ensures
            final(self)@ == if name@.len() == 0 {
                Stage::Done
            } else {
                Stage::AwaitingColor(name@)
            },
    {
        if name.as_str().is_empty() {
            self.done = true;
        } else {
            self.pending = Some(name);
        }
    }

    /// Takes the colour that was read for the name entered before, and gives
    /// the choice of the two.
    pub fn feed_color(&mut self, color: Option<(u8, u8, u8)>) -> (choice: Choice)
        requires
            old(self)@ is AwaitingColor,
        ensures
            final(self)@ == Stage::AwaitingName,
            choice@ == choice_of(old(self)@->AwaitingColor_0, color),
    {
        let name = match self.pending.take() {
            Some(name) => name,
            None => String::new(),
        };
        Choice::new(name, color)
    }

    /// Takes a line that was entered, already trimmed. A name is kept until
    /// its colour comes; a colour completes a choice, or ends the collection
    /// with an error where it cannot be read.
    pub fn feed_trimmed(&mut self, input: String) -> (outcome: Result<Option<Choice>, CollectError>)
        ensures
            final(self)@ == stage_after(old(self)@, input@),
            outcome is Err <==> refused(old(self)@, input@),
            outcome matches Ok(choice) ==> choice_view(choice) == emitted(old(self)@, input@),
            outcome matches Err(error) ==> error is BadColor,
    {
        if self.done {
            return Ok(None);
        }
        if self.pending.is_none() {
            self.feed_name(input);
            return Ok(None);
        }
        match self.convert_string_to_color(input) {
            Ok(color) => Ok(Some(self.feed_color(color))),
            Err(error) => {
                self.done = true;
                Err(error)
            },
        }
    }

    /// Enters the lines in turn. Gives the choices they complete, in that
    /// order, unless one of them is asked for as a colour and cannot be read:
    /// then the collection is given up.
    pub fn run_lines(&mut self, lines: &Vec<String>) -> (outcome: Result<Vec<Choice>, CollectError>)
        ensures
            outcome is Err <==> exists|k: int|
                0 <= k < lines@.len() && #[trigger] fails_at(old(self)@, lines@, k),
            outcome matches Ok(choices) ==> views_of(choices@) == emitted_through(old(self)@, lines@)
                && final(self)@ == stage_through(old(self)@, lines@),
            outcome matches Err(error) ==> error is BadColor && final(self)@ is Done,
    {
        let mut choices: Vec<Choice> = Vec::new();
        let mut i: usize = 0;
        assert(lines@.take(0) =~= Seq::<String>::empty());
        assert(views_of(choices@) =~= Seq::<ChoiceView>::empty());
        while i < lines.len()
            invariant
                i <= lines.len(),
                forall|k: int| 0 <= k < i ==> !#[trigger] fails_at(old(self)@, lines@, k),
                self@ == stage_through(old(self)@, lines@.take(i as int)),
                views_of(choices@) == emitted_through(old(self)@, lines@.take(i as int)),
            decreases lines.len() - i,
        {
            let ghost before = views_of(choices@);
            proof {
                assert(lines@.take(i + 1).drop_last() =~= lines@.take(i as int));
                assert(lines@.take(i + 1).last() == lines@[i as int]);
            }
            match self.feed(lines[i].as_str()) {
                Ok(Some(choice)) => {
                    choices.push(choice);
                    assert(views_of(choices@) =~= before.push(choice@));
                },
                Ok(None) => {},
                Err(error) => {
                    assert(fails_at(old(self)@, lines@, i as int));
                    return Err(error);
                },
            }
            i += 1;
        }
        assert(lines@.take(i as int) =~= lines@);
        Ok(choices)
    }

    /// Takes a line as it was read, trims it and handles it.
    pub fn feed(&mut self, line: &str) -> (outcome: Result<Option<Choice>, CollectError>)
        ensures
            final(self)@ == stage_after(old(self)@, trimmed_of(line@)),
            outcome is Err <==> refused(old(self)@, trimmed_of(line@)),
            outcome matches Ok(choice) ==> choice_view(choice) == emitted(old(self)@, trimmed_of(line@)),
            outcome matches Err(error) ==> error is BadColor,
    {
        let input = trim(line).to_owned();
        self.feed_trimmed(input)
    }
}

} // verus!
