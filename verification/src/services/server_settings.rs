//! The game server's settings file: giving it the new season's name and
//! description. The file is JSON; the library edits it as a `JsonValue`, and
//! the server reads and writes the text.
use vstd::prelude::*;
use vstd::string::*;

use crate::domain::SeasonId;
use crate::services::rotation::{
    server_description, server_name, spec_server_description, spec_server_name,
};
use crate::text::str_eq;

verus! {

/// A JSON value as plain data.
#[derive(Debug)]
pub enum JsonValue {
    Null,
    Bool(bool),
    /// A whole number that fits `u64`.
    PosInt(u64),
    /// A negative whole number that fits `i64`.
    NegInt(i64),
    /// Any other number, held as the bits of its IEEE `f64`.
    Float(u64),
    Text(String),
    Array(Vec<JsonValue>),
    /// The members of an object, in order.
    Object(Vec<(String, JsonValue)>),
}

/// `e` is the member `key` holding the string `text`.
pub open spec fn member_with_text(e: (String, JsonValue), key: Seq<char>, text: Seq<char>) -> bool {
    &&& e.0@ == key
    &&& e.1 matches JsonValue::Text(t) && t@ == text
}

/// Some member of `fields` is named `key`.
pub open spec fn has_key(fields: Seq<(String, JsonValue)>, key: Seq<char>) -> bool {
    exists|i: int| 0 <= i < fields.len() && #[trigger] fields[i].0@ == key
}

/// What becomes of one member: `name` and `description` get the season's
/// texts, every other member is kept as it is.
pub open spec fn member_after(
    b: (String, JsonValue),
    a: (String, JsonValue),
    name: Seq<char>,
    description: Seq<char>,
) -> bool {
    if b.0@ == "name"@ {
        member_with_text(a, "name"@, name)
    } else if b.0@ == "description"@ {
        member_with_text(a, "description"@, description)
    } else {
        a == b
    }
}

/// The settings' members after the season's name and description are set:
/// each member keeps its place, `name` and `description` get the new texts,
/// every other member is unchanged, and a missing `name`, then a missing
/// `description`, is added at the end.
pub open spec fn season_members(
    before: Seq<(String, JsonValue)>,
    after: Seq<(String, JsonValue)>,
    name: Seq<char>,
    description: Seq<char>,
) -> bool {
    let n = before.len() as int;
    let name_added: int = if has_key(before, "name"@) { 0 } else { 1 };
    let description_added: int = if has_key(before, "description"@) { 0 } else { 1 };
    &&& after.len() == n + name_added + description_added
    &&& forall|i: int|
        0 <= i < n ==> #[trigger] member_after(before[i], after[i], name, description)
    &&& name_added == 1 ==> member_with_text(after[n], "name"@, name)
    &&& description_added == 1 ==> member_with_text(
        after[n + name_added],
        "description"@,
        description,
    )
}

/// Sets the `name` and `description` members (see `season_members`).
fn set_season_members(fields: &mut Vec<(String, JsonValue)>, name: &String, description: &String)
    ensures
        season_members(old(fields)@, final(fields)@, name@, description@),
{
    proof {
        reveal_strlit("name");
        reveal_strlit("description");
        assert("name"@.len() != "description"@.len());
    }
    let ghost before = fields@;
    let mut has_name = false;
    let mut has_description = false;
    let mut i: usize = 0;
    while i < fields.len()
        invariant
            before == old(fields)@,
            "name"@ != "description"@,
            fields@.len() == before.len(),
            0 <= i <= fields@.len(),
            forall|j: int| 0 <= j < i ==> #[trigger] member_after(before[j], fields@[j], name@, description@),
            forall|j: int| i <= j < fields@.len() ==> #[trigger] fields@[j] == before[j],
            has_name <==> exists|j: int| 0 <= j < i && #[trigger] before[j].0@ == "name"@,
            has_description <==> exists|j: int| 0 <= j < i && #[trigger] before[j].0@ == "description"@,
        decreases fields@.len() - i,
    {
        if str_eq(fields[i].0.as_str(), "name") {
            fields[i] = (String::from_str("name"), JsonValue::Text(name.clone()));
            has_name = true;
        } else if str_eq(fields[i].0.as_str(), "description") {
            fields[i] = (String::from_str("description"), JsonValue::Text(description.clone()));
            has_description = true;
        }
        assert(member_after(before[i as int], fields@[i as int], name@, description@));
        i = i + 1;
    }
    assert(has_name == has_key(before, "name"@));
    assert(has_description == has_key(before, "description"@));
    let ghost middle = fields@;
    if !has_name {
        fields.push((String::from_str("name"), JsonValue::Text(name.clone())));
    }
    if !has_description {
        fields.push((String::from_str("description"), JsonValue::Text(description.clone())));
    }
    assert forall|j: int| 0 <= j < before.len() implies #[trigger] member_after(
        before[j],
        fields@[j],
        name@,
        description@,
    ) by {
        assert(fields@[j] == middle[j]);
    }
}

/// The settings with the season's name and description written in: an object
/// keeps its other members, `null` becomes an object with just these two, and
/// any other value, which cannot take members, gives `None`.
pub fn server_settings_with_name(
    settings: JsonValue,
    hardcore: bool,
    public_url: &str,
    season_id: SeasonId,
) -> (r: Option<JsonValue>)
    ensures
        match settings {
            JsonValue::Null => r matches Some(JsonValue::Object(f)) && season_members(
                Seq::empty(),
                f@,
                spec_server_name(hardcore, season_id@),
                spec_server_description(hardcore, public_url@, season_id@),
            ),
            JsonValue::Object(fs) => r matches Some(JsonValue::Object(f)) && season_members(
                fs@,
                f@,
                spec_server_name(hardcore, season_id@),
                spec_server_description(hardcore, public_url@, season_id@),
            ),
            _ => r is None,
        },
{
    let mut fields = match settings {
        JsonValue::Null => Vec::new(),
        JsonValue::Object(fs) => fs,
        _ => return None,
    };
    let name = server_name(hardcore, season_id);
    let description = server_description(hardcore, public_url, season_id);
    set_season_members(&mut fields, &name, &description);
    Some(JsonValue::Object(fields))
}

} // verus!
