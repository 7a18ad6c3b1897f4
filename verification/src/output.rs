use vstd::prelude::*;
use vstd::string::StringExecFns;
use crate::choice::{views_of, Choice, ChoiceView};
use crate::error::CollectError;
use crate::text::{decimal, decimal_digits};

verus! {

/// `serde_json::Error`, carried from the encoder to [`describe`] and not
/// looked into.
#[verifier::external_type_specification]
#[verifier::external_body]
pub struct ExJsonError(serde_json::Error);

/// A text as a JSON string, quotes included, as `serde_json` writes it.
pub uninterp spec fn json_string_of(text: Seq<char>) -> Seq<char>;

/// Calls `serde_json::to_string` on a text. Trusted: the JSON string that
/// comes back is named, not described; it depends on the text alone. The call
/// succeeds: the encoder fails only where a value refuses to be written or a
/// map has keys that are no strings, and a text is written as it is into a
/// buffer in memory.
#[verifier::external_body]
fn json_string(text: &str) -> (quoted: Result<String, serde_json::Error>)
    ensures
        quoted is Ok,
        quoted matches Ok(json) ==> json@ == json_string_of(text@),
{
    serde_json::to_string(text)
}

/// Writes a `serde_json::Error` out through its `Display` impl. Trusted:
/// nothing is claimed of the text.
#[verifier::external_body]
fn describe(error: &serde_json::Error) -> (text: String) {
    format!("{}", error)
}

/// One choice as a JSON object, given its name as a JSON string: the fields
/// `name`, `red`, `green` and `blue` in this order, without white space.
pub open spec fn json_object(quoted_name: Seq<char>, choice: ChoiceView) -> Seq<char> {
    "{\"name\":"@ + quoted_name + ",\"red\":"@ + decimal_digits(choice.red as nat)
        + ",\"green\":"@ + decimal_digits(choice.green as nat) + ",\"blue\":"@ + decimal_digits(
        choice.blue as nat,
    ) + "}"@
}

/// The objects of the choices in their order, with a comma between two.
pub open spec fn json_items(choices: Seq<ChoiceView>) -> Seq<char>
    decreases choices.len(),
{
    if choices.len() == 0 {
        Seq::<char>::empty()
    } else if choices.len() == 1 {
        json_object(json_string_of(choices[0].name), choices[0])
    } else {
        json_items(choices.drop_last()) + ","@ + json_object(
            json_string_of(choices.last().name),
            choices.last(),
        )
    }
}

/// The choices as a JSON array, in their order.
pub open spec fn json_array(choices: Seq<ChoiceView>) -> Seq<char> {
    "["@ + json_items(choices) + "]"@
}

/// Writes one choice as a JSON object around its name, which is given as a
/// JSON string.
pub fn encode_choice_with(quoted_name: &str, choice: &Choice) -> (json: String)
    ensures
        json@ == json_object(quoted_name@, choice@),
{
    let mut json = String::from_str("{\"name\":");
    json.append(quoted_name);
    json.append(",\"red\":");
    json.append(decimal(choice.red() as u64).as_str());
    json.append(",\"green\":");
    json.append(decimal(choice.green() as u64).as_str());
    json.append(",\"blue\":");
    json.append(decimal(choice.blue() as u64).as_str());
    json.append("}");
    json
}

/// Writes one choice as a JSON object.
pub fn encode_choice(choice: &Choice) -> (outcome: Result<String, CollectError>)
    ensures
        outcome matches Ok(json) && json@ == json_object(json_string_of(choice@.name), choice@),
{
    match json_string(choice.name()) {
        Ok(quoted) => Ok(encode_choice_with(quoted.as_str(), choice)),
        Err(error) => Err(CollectError::Encode(describe(&error))),
    }
}

/// Puts the objects of the choices, already written, into a JSON array.
pub fn join_objects(objects: &Vec<String>) -> (json: String)
    ensures
        json@ == "["@ + joined(objects@) + "]"@,
{
    let mut json = String::from_str("[");
    let mut i: usize = 0;
    assert(objects@.take(0) =~= Seq::<String>::empty());
    assert("["@ + joined(objects@.take(0)) =~= "["@);
    while i < objects.len()
        invariant
            i <= objects.len(),
            json@ == "["@ + joined(objects@.take(i as int)),
        decreases objects.len() - i,
    {
        proof {
            assert(objects@.take(i + 1).drop_last() =~= objects@.take(i as int));
            assert(objects@.take(i + 1).last() == objects@[i as int]);
            if i == 0 {
                assert(objects@.take(0) =~= Seq::<String>::empty());
                assert("["@ + joined(objects@.take(1)) =~= "["@ + objects@[0]@);
            } else {
                assert("["@ + joined(objects@.take(i + 1)) =~= "["@ + joined(objects@.take(i as int))
                    + ","@ + objects@[i as int]@);
            }
        }
        if i > 0 {
            json.append(",");
        }
        json.append(objects[i].as_str());
        i += 1;
    }
    assert(objects@.take(i as int) =~= objects@);
    json.append("]");
    json
}

/// Texts in their order, with a comma between two.
pub open spec fn joined(parts: Seq<String>) -> Seq<char>
    decreases parts.len(),
{
    if parts.len() == 0 {
        Seq::<char>::empty()
    } else if parts.len() == 1 {
        parts[0]@
    } else {
        joined(parts.drop_last()) + ","@ + parts.last()@
    }
}

/// Where each text is the object of the choice at its place, the texts joined
/// are the items of the choices.
proof fn lemma_joined_items(objects: Seq<String>, choices: Seq<ChoiceView>)
    requires
        objects.len() == choices.len(),
        forall|k: int|
            0 <= k < choices.len() ==> (#[trigger] objects[k])@ == json_object(
                json_string_of(choices[k].name),
                choices[k],
            ),
    ensures
        joined(objects) == json_items(choices),
    decreases choices.len(),
{
    if choices.len() > 1 {
        lemma_joined_items(objects.drop_last(), choices.drop_last());
    }
}

/// Writes the choices as a JSON array of objects, in their order.
pub fn encode_choices(choices: &Vec<Choice>) -> (outcome: Result<String, CollectError>)
    ensures
        outcome matches Ok(json) && json@ == json_array(views_of(choices@)),
{
    let mut objects: Vec<String> = Vec::new();
    let mut i: usize = 0;
    let ghost all = views_of(choices@);
    while i < choices.len()
        invariant
            i <= choices.len(),
            all == views_of(choices@),
            objects@.len() == i,
            forall|k: int|
                0 <= k < i ==> (#[trigger] objects@[k])@ == json_object(
                    json_string_of(all[k].name),
                    all[k],
                ),
        decreases choices.len() - i,
    {
        match encode_choice(&choices[i]) {
            Ok(object) => {
                objects.push(object);
            },
            Err(error) => {
                return Err(error);
            },
        }
        i += 1;
    }
    proof {
        lemma_joined_items(objects@, all);
    }
    Ok(join_objects(&objects))
}

} // verus!
