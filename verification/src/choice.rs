use vstd::prelude::*;

verus! {

/// What a [`Choice`] stands for: a name and the three components of its colour.
pub ghost struct ChoiceView {
    pub name: Seq<char>,
    pub red: u8,
    pub green: u8,
    pub blue: u8,
}

/// The choice that a name and an optional colour give: without a colour all
/// three components are zero.
pub open spec fn choice_of(name: Seq<char>, color: Option<(u8, u8, u8)>) -> ChoiceView {
    match color {
        Some(rgb) => ChoiceView { name, red: rgb.0, green: rgb.1, blue: rgb.2 },
        None => ChoiceView { name, red: 0, green: 0, blue: 0 },
    }
}

/// The views of a sequence of choices, in the same order.
pub open spec fn views_of(choices: Seq<Choice>) -> Seq<ChoiceView> {
    choices.map_values(|c: Choice| c@)
}

/// The view of an optional choice.
pub open spec fn choice_view(choice: Option<Choice>) -> Option<ChoiceView> {
    match choice {
        Some(choice) => Some(choice@),
        None => None,
    }
}

/// A named entry with a colour, immutable once made.
#[derive(Debug)]
pub struct Choice {
    name: String,
    red: u8,
    green: u8,
    blue: u8,
}

impl View for Choice {
    type V = ChoiceView;

    closed spec fn view(&self) -> ChoiceView {
        ChoiceView { name: self.name@, red: self.red, green: self.green, blue: self.blue }
    }
}

impl Clone for Choice {
    fn clone(&self) -> (copy: Self)
        ensures
            copy@ == self@,
    {
        Self { name: self.name.clone(), red: self.red, green: self.green, blue: self.blue }
    }
}

impl Choice {
    /// Stores `name` verbatim; an absent colour becomes black.
    pub fn new(name: String, color: Option<(u8, u8, u8)>) -> (choice: Self)
        ensures
            choice@ == choice_of(name@, color),
            color is None ==> choice@.red == 0 && choice@.green == 0 && choice@.blue == 0,
    {
        let mut red: u8 = 0;
        let mut green: u8 = 0;
        let mut blue: u8 = 0;

        if let Some((r, g, b)) = color {
            red = r;
            green = g;
            blue = b;
        }

        Self { name, red, green, blue }
    }

    pub fn name(&self) -> (name: &str)
        ensures
            name@ == self@.name,
    {
        self.name.as_str()
    }

    pub fn red(&self) -> (red: u8)
        ensures
            red == self@.red,
    {
        self.red
    }

    pub fn green(&self) -> (green: u8)
        ensures
            green == self@.green,
    {
        self.green
    }

    pub fn blue(&self) -> (blue: u8)
        ensures
            blue == self@.blue,
    {
        self.blue
    }
}

} // verus!
