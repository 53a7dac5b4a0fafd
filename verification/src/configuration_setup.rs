//! What the setup dialogue on the terminal decides: whether an answer is
//! accepted, and which area a chosen line stands for.

use crate::find_area_page::AreaHit;
use crate::text::{byte_length, trim, trimmed};
use vstd::prelude::*;

verus! {

/// The verdict on an answer.
#[derive(Debug)]
pub enum Validation {
    /// The answer is accepted.
    Valid,
    /// The answer is refused, for this reason.
    Invalid(String),
}

/// What a search for an area, and the choice among what it found, ended in.
#[derive(Debug)]
pub enum AreaSearchOutcome {
    /// The user chose one of the areas found.
    Chosen,
    /// The user found the area in none of them.
    NotListed,
    /// The search failed, for this reason.
    Failed(String),
}

/// The line that stands for "my area is not in the list".
pub open spec fn not_listed_label() -> Seq<char> {
    "None of the above"@
}

/// The line that stands for an area in the list to choose from.
pub open spec fn label_of(hit: AreaHit) -> Seq<char> {
    hit.region@ + " - "@ + hit.name@
}

/// A key is worth testing against the service if, without the white space
/// around it, it is longer than five bytes.
pub open spec fn token_plausible(input: Seq<char>) -> bool {
    byte_length(trimmed(input)) > 5
}

/// A search term is worth sending if, without the white space around it, it
/// is longer than one byte.
pub open spec fn term_plausible(input: Seq<char>) -> bool {
    byte_length(trimmed(input)) > 1
}

/// Says whether a key is worth testing against the service.
pub fn token_worth_testing(input: &str) -> (worth: bool)
    ensures
        worth == token_plausible(input@),
{
    trim(input).len() > 5
}

/// Says whether a search term is worth sending to the service.
pub fn term_worth_searching(input: &str) -> (worth: bool)
    ensures
        worth == term_plausible(input@),
{
    trim(input).len() > 1
}

/// Judges a key, given whether the service accepted it. A key that is too
/// short is refused whatever the service said; the service is not even to be
/// asked about it.
pub fn token_validator(input: &str, accepted: bool) -> (verdict: Validation)
    ensures
        token_plausible(input@) && accepted ==> verdict is Valid,
        token_plausible(input@) && !accepted ==> (verdict matches Validation::Invalid(why) && why@
            == "An error occured while testing the token. Please test again later or check if you have internet access"@),
        !token_plausible(input@) ==> (verdict matches Validation::Invalid(why) && why@
            == "The token '"@ + input@ + "' is invalid"@),
{
    if token_worth_testing(input) {
        if accepted {
            Validation::Valid
        } else {
            Validation::Invalid(
                String::from_str(
                    "An error occured while testing the token. Please test again later or check if you have internet access",
                ),
            )
        }
    } else {
        Validation::Invalid(String::from_str("The token '").concat(input).concat("' is invalid"))
    }
}

/// Judges a search term, given what the search for it ended in. A term that
/// is too short is refused whatever the outcome; it is not even to be
/// searched for.
pub fn area_validator(input: &str, outcome: AreaSearchOutcome) -> (verdict: Validation)
    ensures
        !term_plausible(input@) ==> (verdict matches Validation::Invalid(why) && why@
            == "The area "@ + trimmed(input@) + " is empty. It needs to have a value"@),
        term_plausible(input@) ==> match outcome {
            AreaSearchOutcome::Chosen => verdict is Valid,
            AreaSearchOutcome::NotListed => (verdict matches Validation::Invalid(why) && why@
                == "It seems your area was not in the list. Please type in another search term."@),
            AreaSearchOutcome::Failed(reason) => (verdict matches Validation::Invalid(why) && why@
                == "An error occurred while getting a list of the similar areas: "@ + reason@),
        },
{
    if term_worth_searching(input) {
        match outcome {
            AreaSearchOutcome::Chosen => Validation::Valid,
            AreaSearchOutcome::NotListed => Validation::Invalid(
                String::from_str(
                    "It seems your area was not in the list. Please type in another search term.",
                ),
            ),
            AreaSearchOutcome::Failed(reason) => Validation::Invalid(
                String::from_str(
                    "An error occurred while getting a list of the similar areas: ",
                ).concat(reason.as_str()),
            ),
        }
    } else {
        Validation::Invalid(
            String::from_str("The area ").concat(trim(input)).concat(
                " is empty. It needs to have a value",
            ),
        )
    }
}

/// The lines to choose from: one for each area found, in the order found,
/// and after them the line for "not in the list".
pub fn area_labels(hits: &Vec<AreaHit>) -> (labels: Vec<String>)
    ensures
        labels@.len() == hits@.len() + 1,
        forall|i: int| 0 <= i < hits@.len() ==> (#[trigger] labels@[i])@ == label_of(hits@[i]),
        labels@.last()@ == not_listed_label(),
{
    let mut labels: Vec<String> = Vec::new();
    let mut i: usize = 0;
    while i < hits.len()
        invariant
            i <= hits@.len(),
            labels@.len() == i,
            forall|j: int| 0 <= j < i ==> (#[trigger] labels@[j])@ == label_of(hits@[j]),
        decreases hits@.len() - i,
    {
        let hit = &hits[i];
        labels.push(hit.region.clone().concat(" - ").concat(hit.name.as_str()));
        i += 1;
    }
    labels.push(String::from_str("None of the above"));
    labels
}

/// Finds the area that the chosen line stands for: nothing for the line "not
/// in the list", and otherwise the position of the first line that reads like
/// the chosen one. The chosen line has to be one of the lines.
pub fn select_area(labels: &Vec<String>, selected: &String) -> (chosen: Option<usize>)
    requires
        exists|i: int| 0 <= i < labels@.len() && (#[trigger] labels@[i])@ == selected@,
    ensures
        chosen.is_none() == (selected@ == not_listed_label()),
        chosen matches Some(k) ==> {
            &&& k < labels@.len()
            &&& labels@[k as int]@ == selected@
            &&& forall|j: int| 0 <= j < k ==> (#[trigger] labels@[j])@ != selected@
        },
{
    let not_listed = String::from_str("None of the above");
    if *selected == not_listed {
        return None;
    }
    let mut i: usize = 0;
    while i < labels.len()
        invariant
            i <= labels@.len(),
            selected@ != not_listed_label(),
            forall|j: int| 0 <= j < i ==> (#[trigger] labels@[j])@ != selected@,
        decreases labels@.len() - i,
    {
        if labels[i] == *selected {
            return Some(i);
        }
        i += 1;
    }
    None
}

} // verus!
