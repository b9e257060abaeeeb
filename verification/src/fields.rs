//! Named text values, as cookies and HTTP headers are, and the lookup of
//! the first value whose name is exactly the one asked for.

use crate::text::{optional_text, same_text};
use vstd::prelude::*;

verus! {

/// A name with its value.
#[derive(Debug, PartialEq, Eq)]
pub struct Field {
    pub name: String,
    pub value: String,
}

/// The value of the first field whose name is exactly `name`, if there is
/// one.
pub open spec fn first_value(fields: Seq<Field>, name: Seq<char>) -> Option<Seq<char>>
    decreases fields.len(),
{
    if fields.len() == 0 {
        None
    } else {
        match first_value(fields.drop_last(), name) {
            Some(value) => Some(value),
            None => if fields.last().name@ == name {
                Some(fields.last().value@)
            } else {
                None
            },
        }
    }
}

/// Looks up the value of the first field named `name`. Names are compared
/// character by character.
pub fn lookup(fields: &Vec<Field>, name: &str) -> (value: Option<String>)
    ensures
        optional_text(value) == first_value(fields@, name@),
{
    let mut value: Option<String> = None;
    let mut i: usize = 0;
    while i < fields.len()
        invariant
            i <= fields@.len(),
            optional_text(value) == first_value(fields@.take(i as int), name@),
        decreases fields@.len() - i,
    {
        assert(fields@.take(i + 1).drop_last() =~= fields@.take(i as int));
        if value.is_none() && same_text(fields[i].name.as_str(), name) {
            value = Some(fields[i].value.clone());
        }
        i = i + 1;
    }
    assert(fields@.take(fields@.len() as int) =~= fields@);
    value
}

/// The lookup gives the value of the first field with the name, and gives
/// nothing exactly when no field has it.
pub proof fn first_value_is_first_match(fields: Seq<Field>, name: Seq<char>)
    ensures
        match first_value(fields, name) {
            Some(value) => exists|i: int|
                0 <= i < fields.len() && #[trigger] fields[i].name@ == name && fields[i].value@
                    == value && forall|j: int| 0 <= j < i ==> #[trigger] fields[j].name@ != name,
            None => forall|i: int| 0 <= i < fields.len() ==> #[trigger] fields[i].name@ != name,
        },
    decreases fields.len(),
{
    if fields.len() > 0 {
        let front = fields.drop_last();
        first_value_is_first_match(front, name);
        match first_value(front, name) {
            Some(value) => {
                let i = choose|i: int|
                    0 <= i < front.len() && #[trigger] front[i].name@ == name && front[i].value@
                        == value && forall|j: int|
                        0 <= j < i ==> #[trigger] front[j].name@ != name;
                assert(fields[i].name@ == name && fields[i].value@ == value);
                assert forall|j: int| 0 <= j < i implies #[trigger] fields[j].name@ != name by {
                    assert(front[j].name@ != name);
                }
            },
            None => {
                assert forall|j: int| 0 <= j < fields.len() - 1 implies #[trigger] fields[j].name@
                    != name by {
                    assert(front[j].name@ != name);
                }
                if fields.last().name@ == name {
                    let i = fields.len() - 1;
                    assert(fields[i].name@ == name && fields[i].value@ == fields.last().value@);
                }
            },
        }
    }
}

} // verus!
