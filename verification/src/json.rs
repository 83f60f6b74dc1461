//! What the client reads of a JSON value.

use vstd::prelude::*;

use crate::errors::text_option;
use crate::text::text_eq;

verus! {

/// A JSON value: its compact text, its form in diagnostics, and, if it is an
/// object, its members in order. A member has a string where its value is a JSON
/// string.
#[derive(Debug)]
pub struct JsonValue {
    /// The value, written compactly.
    pub text: String,
    /// The value, as a diagnostic shows it.
    pub debug: String,
    /// The members of an object.
    pub members: Option<Vec<(String, Option<String>)>>,
}

/// A [`JsonValue`] as a mathematical value.
pub struct JsonView {
    pub text: Seq<char>,
    pub debug: Seq<char>,
    pub members: Option<Seq<(Seq<char>, Option<Seq<char>>)>>,
}

/// The members of an object by their views.
pub open spec fn members_view(members: Seq<(String, Option<String>)>) -> Seq<
    (Seq<char>, Option<Seq<char>>),
> {
    members.map_values(|m: (String, Option<String>)| (m.0@, text_option(m.1)))
}

/// The members of an object, or nothing, by their views.
pub open spec fn members_option(members: Option<Vec<(String, Option<String>)>>) -> Option<
    Seq<(Seq<char>, Option<Seq<char>>)>,
> {
    match members {
        Some(m) => Some(members_view(m@)),
        None => None,
    }
}

impl View for JsonValue {
    type V = JsonView;

    open spec fn view(&self) -> JsonView {
        JsonView {
            text: self.text@,
            debug: self.debug@,
            members: members_option(self.members),
        }
    }
}

/// A JSON value, or nothing, by its view.
pub open spec fn json_option(value: Option<JsonValue>) -> Option<JsonView> {
    match value {
        Some(v) => Some(v@),
        None => None,
    }
}

/// The value that `serde_json::Value::from_str` reads from a text: what it
/// displays as, what `{:?}` prints for it, and its members if it is an object.
pub uninterp spec fn parsed_json(text: Seq<char>) -> Option<JsonView>;

/// `serde_json::Value::from_str`, and what the client reads of the value: its
/// `Display` form, its `Debug` form, and, of an object, each key in the order of the map with the
/// string under it, if a string stands there. The contract names the result
/// [`parsed_json`].
#[verifier::external_body]
fn read_json(text: &str) -> (value: Option<JsonValue>)
    ensures
        json_option(value) == parsed_json(text@),
{
    let value: serde_json::Value = text.parse().ok()?;
    let members = value.as_object().map(
        |object|
            object.iter().map(|(key, v)| (key.clone(), v.as_str().map(String::from))).collect(),
    );
    Some(JsonValue { text: value.to_string(), debug: format!("{:?}", value), members })
}

/// The members whose value is a string, in order.
pub open spec fn string_members(members: Seq<(Seq<char>, Option<Seq<char>>)>) -> Seq<
    (Seq<char>, Seq<char>),
> {
    members.filter_map(|m: (Seq<char>, Option<Seq<char>>)| string_member(m))
}

/// A member with its string, if it has one.
pub open spec fn string_member(member: (Seq<char>, Option<Seq<char>>)) -> Option<
    (Seq<char>, Seq<char>),
> {
    match member.1 {
        Some(s) => Some((member.0, s)),
        None => None,
    }
}

/// Pairs of strings by their views.
pub open spec fn pairs_view(pairs: Seq<(String, String)>) -> Seq<(Seq<char>, Seq<char>)> {
    pairs.map_values(|p: (String, String)| (p.0@, p.1@))
}

/// The string of the member with the given name, if the value is an object that
/// has such a member and a string stands there.
pub open spec fn string_field(value: JsonView, name: Seq<char>) -> Option<Seq<char>> {
    match value.members {
        Some(members) => match crate::text_map::lookup(members, name) {
            Some(field) => field,
            None => None,
        },
        None => None,
    }
}

impl Clone for JsonValue {
    fn clone(&self) -> (copy: JsonValue)
        ensures
            copy@ == self@,
    {
        let members = match &self.members {
            Some(members) => {
                let mut copies: Vec<(String, Option<String>)> = Vec::new();
                for i in 0..members.len()
                    invariant
                        members_view(copies@) == members_view(members@).take(i as int),
                {
                    let ghost before = members_view(copies@);
                    let value = match &members[i].1 {
                        Some(s) => Some(s.clone()),
                        None => None,
                    };
                    copies.push((members[i].0.clone(), value));
                    let ghost member = (members@[i as int].0@, text_option(members@[i as int].1));
                    assert(members_view(copies@) == before.push(member));
                    assert(members_view(members@).take(i + 1) == members_view(members@).take(
                        i as int,
                    ).push(member));
                }
                assert(members_view(members@).take(members@.len() as int) == members_view(members@));
                Some(copies)
            },
            None => None,
        };
        JsonValue { text: self.text.clone(), debug: self.debug.clone(), members }
    }
}

impl JsonValue {
    /// Reads a JSON value from its text.
    pub fn parse(text: &str) -> (value: Option<JsonValue>)
        ensures
            json_option(value) == parsed_json(text@),
    {
        read_json(text)
    }

    /// Whether the value is an object.
    pub fn is_object(&self) -> (object: bool)
        ensures
            object == (self@.members is Some),
    {
        self.members.is_some()
    }

    /// The string of the member with the given name, if there is one.
    pub fn get_str(&self, name: &str) -> (field: Option<String>)
        ensures
            text_option(field) == string_field(self@, name@),
    {
        match &self.members {
            Some(members) => {
                let ghost view = members_view(members@);
                for i in 0..members.len()
                    invariant
                        view == members_view(members@),
                        self@.members == Some(view),
                        forall|k: int| 0 <= k < i ==> (#[trigger] view[k]).0 != name@,
                {
                    assert(view[i as int] == (
                        members@[i as int].0@,
                        text_option(members@[i as int].1),
                    ));
                    if text_eq(members[i].0.as_str(), name) {
                        proof {
                            crate::text_map::lemma_position_unique(view, name@, i as int);
                        }
                        return match &members[i].1 {
                            Some(s) => Some(s.clone()),
                            None => None,
                        };
                    }
                }
                proof {
                    crate::text_map::lemma_position_unique(view, name@, view.len() as int);
                }
                None
            },
            None => None,
        }
    }

    /// The members of an object whose value is a string, in order.
    pub fn string_members(&self) -> (pairs: Vec<(String, String)>)
        requires
            self@.members is Some,
        ensures
            pairs_view(pairs@) == string_members(self@.members->0),
    {
        let mut pairs: Vec<(String, String)> = Vec::new();
        match &self.members {
            Some(members) => {
                let ghost view = members_view(members@);
                let ghost f = |m: (Seq<char>, Option<Seq<char>>)| string_member(m);
                for i in 0..members.len()
                    invariant
                        view == members_view(members@),
                        f == (|m: (Seq<char>, Option<Seq<char>>)| string_member(m)),
                        pairs_view(pairs@) == view.take(i as int).filter_map(f),
                {
                    let ghost before = pairs_view(pairs@);
                    proof {
                        view.lemma_filter_map_take_succ(f, i as int);
                        assert(view[i as int] == (
                            members@[i as int].0@,
                            text_option(members@[i as int].1),
                        ));
                    }
                    match &members[i].1 {
                        Some(s) => {
                            pairs.push((members[i].0.clone(), s.clone()));
                            assert(pairs_view(pairs@) == before.push(
                                (members@[i as int].0@, s@),
                            ));
                        },
                        None => {},
                    }
                }
                assert(view.take(view.len() as int) == view);
            },
            None => {},
        }
        pairs
    }
}

/// The strings of an object are those of its members that are strings, each with
/// its key, all of them and in order: `at` gives the place of each.
pub proof fn law_all_strings_of_an_object(members: Seq<(Seq<char>, Option<Seq<char>>)>) -> (at: Seq<
    int,
>)
    ensures
        at.len() == string_members(members).len(),
        forall|j: int|
            0 <= j < at.len() ==> {
                &&& 0 <= #[trigger] at[j] < members.len()
                &&& members[at[j]].0 == string_members(members)[j].0
                &&& members[at[j]].1 == Some(string_members(members)[j].1)
            },
        forall|j: int, k: int| 0 <= j < k < at.len() ==> #[trigger] at[j] < #[trigger] at[k],
        forall|i: int|
            0 <= i < members.len() && (#[trigger] members[i]).1 is Some ==> at.contains(i),
    decreases members.len(),
{
    if members.len() == 0 {
        Seq::empty()
    } else {
        let init = members.drop_last();
        let before = law_all_strings_of_an_object(init);
        let n = members.len() - 1;
        assert(forall|i: int| 0 <= i < n ==> #[trigger] members[i] == init[i]);
        match members.last().1 {
            Some(text) => {
                let at = before.push(n);
                assert(string_members(members) == string_members(init).push(
                    (members.last().0, text),
                ));
                assert forall|i: int|
                    0 <= i < members.len() && (#[trigger] members[i]).1 is Some implies at.contains(
                    i,
                ) by {
                    if i == n {
                        assert(at[before.len() as int] == i);
                    } else {
                        assert(init[i].1 is Some);
                        let j = choose|j: int| 0 <= j < before.len() && before[j] == i;
                        assert(at[j] == i);
                    }
                }
                at
            },
            None => {
                assert(string_members(members) == string_members(init));
                assert forall|i: int|
                    0 <= i < members.len() && (#[trigger] members[i]).1 is Some implies before.contains(
                    i,
                ) by {
                    assert(i < n);
                    assert(init[i].1 is Some);
                }
                before
            },
        }
    }
}

/// The views of members and of pairs leave nothing out.
pub proof fn law_members_are_seen_whole(
    members: Seq<(String, Option<String>)>,
    pairs: Seq<(String, String)>,
)
    ensures
        members_view(members).len() == members.len(),
        forall|i: int|
            0 <= i < members.len() ==> {
                &&& (#[trigger] members_view(members)[i]).0 == members[i].0@
                &&& members_view(members)[i].1 == (match members[i].1 {
                    Some(text) => Some(text@),
                    None => None,
                })
            },
        pairs_view(pairs).len() == pairs.len(),
        forall|i: int|
            0 <= i < pairs.len() ==> #[trigger] pairs_view(pairs)[i] == (pairs[i].0@, pairs[i].1@),
{
}

/// The view of a JSON value leaves nothing out.
pub proof fn law_values_are_seen_whole(value: JsonValue)
    ensures
        value@.text == value.text@,
        value@.debug == value.debug@,
        value@.members is Some <==> value.members is Some,
        value.members matches Some(members) ==> value@.members->0.len() == members@.len() && (
        forall|i: int|
            0 <= i < members@.len() ==> {
                &&& (#[trigger] value@.members->0[i]).0 == members@[i].0@
                &&& value@.members->0[i].1 == (match members@[i].1 {
                    Some(text) => Some(text@),
                    None => None,
                })
            }),
        json_option(Some(value)) == Some(value@),
        json_option(None) is None,
{
}

/// The string of a member is that of the first member with the name, if a string stands
/// there.
pub proof fn law_the_string_of_a_member(
    value: JsonView,
    members: Seq<(Seq<char>, Option<Seq<char>>)>,
    name: Seq<char>,
    at: int,
)
    requires
        value.members == Some(members),
    ensures
        (forall|i: int| 0 <= i < members.len() ==> (#[trigger] members[i]).0 != name)
            ==> string_field(value, name) is None,
        (0 <= at < members.len() && members[at].0 == name && forall|i: int|
            0 <= i < at ==> (#[trigger] members[i]).0 != name) ==> string_field(value, name)
            == members[at].1,
{
    crate::text_map::law_lookup_finds_the_first(members, name, at);
}

} // verus!
