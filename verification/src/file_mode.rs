use vstd::prelude::*;
use crate::choice::{choice_of, views_of, Choice, ChoiceView};

verus! {

/// The choices of a list of names: one for each name, in the order of the
/// names and without a colour.
pub open spec fn black_choices(names: Seq<String>) -> Seq<ChoiceView> {
    Seq::new(names.len(), |i: int| choice_of(names[i]@, None))
}

/// One choice for each name, in the order of the names and without a colour.
/// Names that occur twice are kept twice.
pub fn file_choices(names: &Vec<String>) -> (choices: Vec<Choice>)
    ensures
        views_of(choices@) == black_choices(names@),
{
    let mut choices: Vec<Choice> = Vec::new();
    let mut i: usize = 0;
    while i < names.len()
        invariant
            i <= names.len(),
            choices@.len() == i,
            forall|k: int| 0 <= k < i ==> (#[trigger] choices@[k])@ == choice_of(names@[k]@, None),
        decreases names.len() - i,
    {
        choices.push(Choice::new(names[i].clone(), None));
        i += 1;
    }
    assert(views_of(choices@) =~= black_choices(names@));
    choices
}

} // verus!
