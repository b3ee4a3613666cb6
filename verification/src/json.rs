//! Flat JSON objects, read and written by `serde_json`.

use vstd::prelude::*;
use serde_json::Value;
use vstd::string::*;

verus! {

/// One member of a flat JSON object. `text` holds the member's value where
/// that is a JSON string. `None` stands, in an object that was read, for a
/// value of any other kind, and is written as `null`.
#[derive(Debug)]
pub struct JsonMember {
    pub name: String,
    pub text: Option<String>,
}

/// The mathematical value of a member: its name and its text.
pub type MemberView = (Seq<char>, Option<Seq<char>>);

impl View for JsonMember {
    type V = MemberView;

    open spec fn view(&self) -> MemberView {
        (
            self.name@,
            match self.text {
                Some(t) => Some(t@),
                None => None,
            },
        )
    }
}

/// The values of a list of members, in order.
pub open spec fn member_views(members: Seq<JsonMember>) -> Seq<MemberView> {
    members.map_values(|m: JsonMember| m@)
}

/// The text that an object with these members is written as, or `None`
/// where the serializer reports an error.
pub uninterp spec fn json_object_text(members: Seq<MemberView>) -> Option<Seq<char>>;

/// The members of the JSON object that `text` holds, in the order in which
/// the parser keeps them, or `None` where `text` is not one JSON object.
pub uninterp spec fn json_object_members(text: Seq<char>) -> Option<Seq<MemberView>>;

/// `serde_json::Map::insert` for each member in turn, then
/// `serde_json::to_string`: the text is a function of the members alone.
#[verifier::external_body]
pub(crate) fn write_object(members: &Vec<JsonMember>) -> (text: Option<String>)
    ensures
        text matches Some(t) ==> json_object_text(member_views(members@)) == Some(t@),
        text is None ==> json_object_text(member_views(members@)) is None,
{
    let mut object = serde_json::Map::new();
    for m in members {
        let value = match &m.text {
            Some(t) => Value::String(t.clone()),
            None => Value::Null,
        };
        object.insert(m.name.clone(), value);
    }
    serde_json::to_string(&object).ok()
}

/// `serde_json::from_str` into a `serde_json::Map`, each value then taken
/// with `Value::as_str`: the members are a function of `text` alone, and
/// there are none where the parser refuses `text`.
#[verifier::external_body]
pub(crate) fn read_object(text: &str) -> (members: Option<Vec<JsonMember>>)
    ensures
        members matches Some(v) ==> json_object_members(text@) == Some(member_views(v@)),
        members is None ==> json_object_members(text@) is None,
{
    let object: serde_json::Map<String, Value> = serde_json::from_str(text).ok()?;
    Some(
        object.into_iter().map(
            |(name, value)| JsonMember { name, text: value.as_str().map(String::from) },
        ).collect(),
    )
}

/// The text of the first member called `name`: `None` where there is no
/// such member or its value is not a JSON string.
pub open spec fn member_text(members: Seq<MemberView>, name: Seq<char>) -> Option<Seq<char>>
    decreases members.len(),
{
    if members.len() == 0 {
        None
    } else if members[0].0 == name {
        members[0].1
    } else {
        member_text(members.drop_first(), name)
    }
}

/// The text of the first member called `name`.
pub fn find_text(members: &Vec<JsonMember>, name: &str) -> (text: Option<String>)
    ensures
        text matches Some(t) ==> member_text(member_views(members@), name@) == Some(t@),
        text is None ==> member_text(member_views(members@), name@) is None,
{
    let wanted = String::from_str(name);
    let mut i: usize = 0;
    let ghost all = member_views(members@);
    assert(all.skip(0) =~= all);
    while i < members.len()
        invariant
            i <= members.len(),
            all == member_views(members@),
            wanted@ == name@,
            member_text(all, name@) == member_text(all.skip(i as int), name@),
        decreases members.len() - i,
    {
        let ghost rest = all.skip(i as int);
        assert(rest[0] == members@[i as int]@);
        assert(rest.drop_first() =~= all.skip(i + 1));
        if members[i].name == wanted {
            return match &members[i].text {
                Some(t) => Some(t.clone()),
                None => None,
            };
        }
        i += 1;
    }
    None
}

/// A member whose value is the JSON string `text`.
pub fn text_member(name: &str, text: &str) -> (member: JsonMember)
    ensures
        member@ == (name@, Some(text@)),
{
    JsonMember { name: String::from_str(name), text: Some(String::from_str(text)) }
}

/// A member whose value is `null`.
pub fn null_member(name: &str) -> (member: JsonMember)
    ensures
        member@ == (name@, None::<Seq<char>>),
{
    JsonMember { name: String::from_str(name), text: None }
}

} // verus!
