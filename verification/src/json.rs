//! JSON values.
//!
//! [`Json`] holds what a parsed JSON text holds.  Its mathematical value is a
//! [`JsonValue`]: objects are maps from member names to values, so two objects that list
//! the same members in another order have the same value.

use serde_json::Value as Parsed;
use vstd::prelude::*;

verus! {

/// A JSON number, in the three forms in which a parser keeps it.
///
/// `Float` holds the IEEE 754 bits of a finite double.
#[derive(Debug, Clone, Copy, PartialEq, Eq, Structural)]
pub enum JsonNumber {
    /// A whole number that is not negative.
    PosInt(u64),
    /// A whole number below zero.
    NegInt(i64),
    /// Any other number, as the bits of a double.
    Float(u64),
}

/// The bits of the double `-0.0`, which equals `0.0`.
pub const NEGATIVE_ZERO: u64 = 0x8000_0000_0000_0000;

impl JsonNumber {
    /// The number itself: the two zeros among the doubles are one number.
    pub open spec fn value(self) -> JsonNumber {
        match self {
            JsonNumber::Float(bits) => if bits == NEGATIVE_ZERO {
                JsonNumber::Float(0)
            } else {
                self
            },
            _ => self,
        }
    }

    /// Whether two numbers are equal.  A whole number and a double are never equal.
    pub fn equals(&self, other: &JsonNumber) -> (same: bool)
        ensures
            same == (self.value() == other.value()),
    {
        match (*self, *other) {
            (JsonNumber::PosInt(a), JsonNumber::PosInt(b)) => a == b,
            (JsonNumber::NegInt(a), JsonNumber::NegInt(b)) => a == b,
            (JsonNumber::Float(a), JsonNumber::Float(b)) => a == b || ((a == 0 || a
                == NEGATIVE_ZERO) && (b == 0 || b == NEGATIVE_ZERO)),
            _ => false,
        }
    }
}

/// A parsed JSON value.
#[derive(Debug)]
pub enum Json {
    Null,
    Bool(bool),
    Number(JsonNumber),
    String(String),
    Array(Vec<Json>),
    Object(JsonObject),
}

/// The members of a JSON object.  No member name occurs twice.
#[derive(Debug)]
pub struct JsonObject {
    entries: Vec<(String, Json)>,
}

/// The mathematical value of a [`Json`].
pub enum JsonValue {
    Null,
    Bool(bool),
    Number(JsonNumber),
    Text(Seq<char>),
    List(Seq<JsonValue>),
    Members(Map<Seq<char>, JsonValue>),
}

/// The map that a list of members stands for.
pub open spec fn member_map(entries: Seq<(String, Json)>) -> Map<Seq<char>, JsonValue>
    decreases entries,
{
    if entries.len() == 0 {
        Map::empty()
    } else {
        member_map(entries.drop_last()).insert(entries.last().0@, entries.last().1.value())
    }
}

/// Whether no two members have the same name.
pub open spec fn distinct_names(entries: Seq<(String, Json)>) -> bool {
    forall|i: int, j: int|
        0 <= i < j < entries.len() ==> #[trigger] entries[i].0@ != #[trigger] entries[j].0@
}

/// Whether a value is an object that has the member `name`.
pub open spec fn has_member(value: JsonValue, name: Seq<char>) -> bool {
    value matches JsonValue::Members(members) && members.contains_key(name)
}

/// The member `name` of a value: null where the value is no object or has no such member.
pub open spec fn member_value(value: JsonValue, name: Seq<char>) -> JsonValue {
    match value {
        JsonValue::Members(members) => if members.contains_key(name) {
            members[name]
        } else {
            JsonValue::Null
        },
        _ => JsonValue::Null,
    }
}

/// The text of a value, where it is a string.
pub open spec fn text_value(value: JsonValue) -> Option<Seq<char>> {
    match value {
        JsonValue::Text(text) => Some(text),
        _ => None,
    }
}

/// The text of the member `name`, where there is such a member and it is a string.
pub open spec fn member_text(value: JsonValue, name: Seq<char>) -> Option<Seq<char>> {
    text_value(member_value(value, name))
}

/// The values of the items of an array.
pub open spec fn item_values(items: Seq<Json>) -> Seq<JsonValue> {
    items.map_values(|item: Json| item.value())
}

impl Json {
    /// The mathematical value.
    pub open spec fn value(&self) -> JsonValue
        decreases self,
    {
        match self {
            Json::Null => JsonValue::Null,
            Json::Bool(b) => JsonValue::Bool(*b),
            Json::Number(n) => JsonValue::Number(n.value()),
            Json::String(s) => JsonValue::Text(s@),
            Json::Array(items) => JsonValue::List(
                Seq::new(
                    items@.len(),
                    |i: int|
                        if 0 <= i < items@.len() {
                            items@[i].value()
                        } else {
                            JsonValue::Null
                        },
                ),
            ),
            Json::Object(object) => JsonValue::Members(object.members()),
        }
    }
}

/// A member list stands for a map whose keys are its names, each with its value.
proof fn lemma_member_map(entries: Seq<(String, Json)>)
    requires
        distinct_names(entries),
    ensures
        forall|name: Seq<char>| #[trigger]
            member_map(entries).contains_key(name) <==> exists|i: int|
                0 <= i < entries.len() && #[trigger] entries[i].0@ == name,
        forall|i: int|
            0 <= i < entries.len() ==> member_map(entries)[#[trigger] entries[i].0@]
                == entries[i].1.value(),
    decreases entries.len(),
{
    if entries.len() > 0 {
        let init = entries.drop_last();
        assert forall|i: int, j: int| 0 <= i < j < init.len() implies #[trigger] init[i].0@
            != #[trigger] init[j].0@ by {
            assert(init[i] == entries[i] && init[j] == entries[j]);
        }
        lemma_member_map(init);
        let last = entries.last();
        assert forall|name: Seq<char>| #[trigger]
            member_map(entries).contains_key(name) <==> exists|i: int|
                0 <= i < entries.len() && #[trigger] entries[i].0@ == name by {
            if member_map(init).contains_key(name) {
                let i = choose|i: int| 0 <= i < init.len() && #[trigger] init[i].0@ == name;
                assert(entries[i].0@ == name);
            }
            if name == last.0@ {
                assert(entries[entries.len() - 1].0@ == name);
            }
            if exists|i: int| 0 <= i < entries.len() && #[trigger] entries[i].0@ == name {
                let i = choose|i: int| 0 <= i < entries.len() && #[trigger] entries[i].0@ == name;
                if i < init.len() {
                    assert(init[i].0@ == name);
                }
            }
        }
        assert forall|i: int| 0 <= i < entries.len() implies member_map(
            entries,
        )[#[trigger] entries[i].0@] == entries[i].1.value() by {
            if i < init.len() {
                assert(init[i] == entries[i]);
                assert(entries[i].0@ != entries[entries.len() - 1].0@);
            }
        }
    }
}

/// Two member lists with the same names at the same places, and the same values at all
/// places but one, stand for maps that differ in that one name at most.
proof fn lemma_member_map_update(entries: Seq<(String, Json)>, at: int, entry: (String, Json))
    requires
        distinct_names(entries),
        0 <= at < entries.len(),
        entries[at].0@ == entry.0@,
    ensures
        distinct_names(entries.update(at, entry)),
        member_map(entries.update(at, entry)) == member_map(entries).insert(
            entry.0@,
            entry.1.value(),
        ),
{
    let updated = entries.update(at, entry);
    assert forall|i: int, j: int| 0 <= i < j < updated.len() implies #[trigger] updated[i].0@
        != #[trigger] updated[j].0@ by {
        assert(entries[i].0@ != entries[j].0@);
    }
    lemma_member_map(entries);
    lemma_member_map(updated);
    let expected = member_map(entries).insert(entry.0@, entry.1.value());
    assert forall|name: Seq<char>| #[trigger]
        member_map(updated).contains_key(name) <==> expected.contains_key(name) by {
        if member_map(updated).contains_key(name) {
            let i = choose|i: int| 0 <= i < updated.len() && #[trigger] updated[i].0@ == name;
            assert(entries[i].0@ == name);
        }
        if expected.contains_key(name) {
            if name == entry.0@ {
                assert(updated[at].0@ == name);
            } else {
                let i = choose|i: int| 0 <= i < entries.len() && #[trigger] entries[i].0@ == name;
                assert(updated[i].0@ == name);
            }
        }
    }
    assert forall|name: Seq<char>| #[trigger]
        member_map(updated).contains_key(name) implies member_map(updated)[name]
        == expected[name] by {
        let i = choose|i: int| 0 <= i < updated.len() && #[trigger] updated[i].0@ == name;
        assert(member_map(updated)[updated[i].0@] == updated[i].1.value());
        assert(member_map(entries)[entries[i].0@] == entries[i].1.value());
        if i != at {
            assert(updated[i] == entries[i]);
            if i < at {
                assert(entries[i].0@ != entries[at].0@);
            } else {
                assert(entries[at].0@ != entries[i].0@);
            }
        }
    }
    assert(member_map(updated) =~= expected);
}

impl JsonObject {
    #[verifier::type_invariant]
    spec fn wf(self) -> bool {
        distinct_names(self.entries@)
    }

    /// The members, by name.
    pub closed spec fn members(&self) -> Map<Seq<char>, JsonValue>
        decreases self,
    {
        member_map(self.entries@)
    }

    /// The object without members.
    pub fn new() -> (object: JsonObject)
        ensures
            object.members() == Map::<Seq<char>, JsonValue>::empty(),
    {
        JsonObject { entries: Vec::new() }
    }

    /// Where the member `name` stands, if there is one.
    fn find(entries: &Vec<(String, Json)>, name: &str) -> (at: Option<usize>)
        ensures
            match at {
                Some(i) => i < entries@.len() && entries@[i as int].0@ == name@,
                None => forall|i: int|
                    0 <= i < entries@.len() ==> #[trigger] entries@[i].0@ != name@,
            },
    {
        let mut i: usize = 0;
        while i < entries.len()
            invariant
                i <= entries@.len(),
                forall|j: int| 0 <= j < i ==> #[trigger] entries@[j].0@ != name@,
            decreases entries@.len() - i,
        {
            if *entries[i].0.as_str() == *name {
                return Some(i);
            }
            i += 1;
        }
        None
    }

    /// Gives the member `name` the value `value`, in place of the one it had.
    pub fn insert(&mut self, name: String, value: Json)
        ensures
            final(self).members() == old(self).members().insert(name@, value.value()),
    {
        proof {
            use_type_invariant(&*self);
        }
        let mut entries: Vec<(String, Json)> = Vec::new();
        std::mem::swap(&mut entries, &mut self.entries);
        let ghost before = entries@;
        match JsonObject::find(&entries, name.as_str()) {
            Some(i) => {
                proof {
                    lemma_member_map_update(before, i as int, (name, value));
                }
                entries.set(i, (name, value));
            },
            None => {
                entries.push((name, value));
                proof {
                    assert(entries@.drop_last() =~= before);
                }
            },
        }
        self.entries = entries;
    }

    /// The member `name`, if there is one.
    pub fn get(&self, name: &str) -> (found: Option<&Json>)
        ensures
            match found {
                Some(value) => self.members().contains_key(name@) && value.value()
                    == self.members()[name@],
                None => !self.members().contains_key(name@),
            },
    {
        proof {
            use_type_invariant(self);
            lemma_member_map(self.entries@);
        }
        match JsonObject::find(&self.entries, name) {
            Some(i) => Some(&self.entries[i].1),
            None => None,
        }
    }

    /// How many members there are.
    pub fn len(&self) -> (count: usize)
        ensures
            count == self.names().len(),
            self.names().no_duplicates(),
            forall|name: Seq<char>| #[trigger]
                self.members().contains_key(name) <==> self.names().contains(name),
    {
        proof {
            use_type_invariant(self);
            lemma_member_map(self.entries@);
            let names = self.names();
            assert forall|i: int, j: int|
                0 <= i < names.len() && 0 <= j < names.len() && i != j implies names[i]
                != names[j] by {
                assert(self.entries@[i].0@ == names[i] && self.entries@[j].0@ == names[j]);
                if i < j {
                    assert(self.entries@[i].0@ != self.entries@[j].0@);
                } else {
                    assert(self.entries@[j].0@ != self.entries@[i].0@);
                }
            }
            assert forall|name: Seq<char>| #[trigger]
                self.members().contains_key(name) <==> names.contains(name) by {
                if self.members().contains_key(name) {
                    let i = choose|i: int|
                        0 <= i < self.entries@.len() && #[trigger] self.entries@[i].0@ == name;
                    assert(names[i] == name);
                }
                if names.contains(name) {
                    let i = choose|i: int| 0 <= i < names.len() && names[i] == name;
                    assert(self.entries@[i].0@ == name);
                }
            }
        }
        self.entries.len()
    }

    /// The member names, in the order in which they are listed.
    pub closed spec fn names(&self) -> Seq<Seq<char>> {
        self.entries@.map_values(|entry: (String, Json)| entry.0@)
    }

    /// The member at a place in the list, where the list reaches that far.
    pub fn entry(&self, i: usize) -> (entry: Option<(&String, &Json)>)
        ensures
            match entry {
                Some((name, value)) => {
                    &&& i < self.names().len()
                    &&& name@ == self.names()[i as int]
                    &&& self.members().contains_key(name@)
                    &&& value.value() == self.members()[name@]
                },
                None => i >= self.names().len(),
            },
    {
        if i >= self.entries.len() {
            return None;
        }
        proof {
            use_type_invariant(self);
            lemma_member_map(self.entries@);
            assert(self.entries@[i as int].0@ == self.names()[i as int]);
        }
        let entry = &self.entries[i];
        Some((&entry.0, &entry.1))
    }
}

/// The value of an array lists the values of its items.
pub proof fn lemma_array_value(items: Vec<Json>)
    ensures
        Json::Array(items).value() == JsonValue::List(item_values(items@)),
{
    assert(Json::Array(items).value()->List_0 =~= item_values(items@));
}

impl Json {
    /// The member `name` of this value, if it is an object that has one.
    pub fn get(&self, name: &str) -> (found: Option<&Json>)
        ensures
            match found {
                Some(member) => has_member(self.value(), name@) && member.value() == member_value(
                    self.value(),
                    name@,
                ),
                None => !has_member(self.value(), name@),
            },
    {
        match self {
            Json::Object(object) => object.get(name),
            _ => None,
        }
    }

    /// The text, where this is a string.
    pub fn as_str(&self) -> (text: Option<&str>)
        ensures
            match text {
                Some(text) => text_value(self.value()) == Some(text@),
                None => text_value(self.value()) is None,
            },
    {
        match self {
            Json::String(text) => Some(text.as_str()),
            _ => None,
        }
    }

    /// The text of the member `name`, where it is a string.
    pub fn get_str(&self, name: &str) -> (text: Option<&str>)
        ensures
            match text {
                Some(text) => member_text(self.value(), name@) == Some(text@),
                None => member_text(self.value(), name@) is None,
            },
    {
        match self.get(name) {
            Some(member) => member.as_str(),
            None => None,
        }
    }

    /// Whether the two values are equal.
    pub fn equals(&self, other: &Json) -> (same: bool)
        ensures
            same == (self.value() == other.value()),
        decreases self, 1int,
    {
        match (self, other) {
            (Json::Null, Json::Null) => true,
            (Json::Bool(a), Json::Bool(b)) => *a == *b,
            (Json::Number(a), Json::Number(b)) => a.equals(b),
            (Json::String(a), Json::String(b)) => *a == *b,
            (Json::Array(a), Json::Array(b)) => {
                proof {
                    lemma_array_value(*a);
                    lemma_array_value(*b);
                }
                let ghost left = item_values(a@);
                let ghost right = item_values(b@);
                if a.len() != b.len() {
                    assert(left.len() != right.len());
                    return false;
                }
                let mut i: usize = 0;
                #[verifier::loop_isolation(false)]
                while i < a.len()
                    invariant
                        i <= a@.len(),
                        forall|j: int| 0 <= j < i ==> left[j] == right[j],
                    decreases a@.len() - i,
                {
                    if !a[i].equals(&b[i]) {
                        assert(left[i as int] != right[i as int]);
                        return false;
                    }
                    i += 1;
                }
                assert(left =~= right);
                true
            },
            (Json::Object(a), Json::Object(b)) => a.equals(b),
            _ => false,
        }
    }
}

impl JsonObject {
    /// Whether the two objects have the same members.
    pub fn equals(&self, other: &JsonObject) -> (same: bool)
        ensures
            same == (self.members() == other.members()),
        decreases self, 0int,
    {
        let ghost left = self.members();
        let ghost right = other.members();
        let count: usize = self.len();
        let mut i: usize = 0;
        #[verifier::loop_isolation(false)]
        while i < count
            invariant
                i <= count,
                forall|j: int|
                    0 <= j < i ==> right.contains_key(#[trigger] self.names()[j])
                        && left[self.names()[j]] == right[self.names()[j]],
            decreases count - i,
        {
            let entry = &self.entries[i];
            proof {
                use_type_invariant(self);
                lemma_member_map(self.entries@);
                assert(self.entries@[i as int].0@ == self.names()[i as int]);
            }
            match other.get(entry.0.as_str()) {
                Some(value) => {
                    if !entry.1.equals(value) {
                        assert(left[entry.0@] != right[entry.0@]);
                        return false;
                    }
                },
                None => {
                    assert(left.contains_key(entry.0@) && !right.contains_key(entry.0@));
                    return false;
                },
            }
            i += 1;
        }
        let other_count: usize = other.len();
        let mut j: usize = 0;
        #[verifier::loop_isolation(false)]
        while j < other_count
            invariant
                j <= other_count,
                forall|k: int| 0 <= k < j ==> left.contains_key(#[trigger] other.names()[k]),
            decreases other_count - j,
        {
            if let Some((name, _)) = other.entry(j) {
                if self.get(name.as_str()).is_none() {
                    assert(!left.contains_key(name@) && right.contains_key(name@));
                    return false;
                }
            }
            j += 1;
        }
        proof {
            assert forall|name: Seq<char>| #[trigger]
                left.contains_key(name) <==> right.contains_key(name) by {
                if left.contains_key(name) {
                    let k = choose|k: int|
                        0 <= k < self.names().len() && self.names()[k] == name;
                    assert(right.contains_key(self.names()[k]));
                }
                if right.contains_key(name) {
                    let k = choose|k: int|
                        0 <= k < other.names().len() && other.names()[k] == name;
                    assert(left.contains_key(other.names()[k]));
                }
            }
            assert forall|name: Seq<char>| left.contains_key(name) implies left[name]
                == right[name] by {
                let k = choose|k: int| 0 <= k < self.names().len() && self.names()[k] == name;
                assert(left[self.names()[k]] == right[self.names()[k]]);
            }
            assert(left =~= right);
        }
        true
    }
}

impl Clone for Json {
    fn clone(&self) -> (copy: Json)
        ensures
            copy.value() == self.value(),
        decreases self,
    {
        match self {
            Json::Null => Json::Null,
            Json::Bool(b) => Json::Bool(*b),
            Json::Number(n) => Json::Number(*n),
            Json::String(s) => Json::String(s.clone()),
            Json::Array(items) => {
                let mut copies: Vec<Json> = Vec::new();
                let mut i: usize = 0;
                #[verifier::loop_isolation(false)]
                while i < items.len()
                    invariant
                        i <= items@.len(),
                        copies@.len() == i,
                        forall|j: int|
                            0 <= j < i ==> (#[trigger] copies@[j]).value() == items@[j].value(),
                    decreases items@.len() - i,
                {
                    copies.push(items[i].clone());
                    i += 1;
                }
                proof {
                    lemma_array_value(*items);
                    lemma_array_value(copies);
                    assert(item_values(copies@) =~= item_values(items@));
                }
                Json::Array(copies)
            },
            Json::Object(object) => {
                proof {
                    use_type_invariant(object);
                    assert(object.entries@.take(0) =~= Seq::empty());
                }
                let mut entries: Vec<(String, Json)> = Vec::new();
                let mut i: usize = 0;
                #[verifier::loop_isolation(false)]
                while i < object.entries.len()
                    invariant
                        i <= object.entries@.len(),
                        entries@.len() == i,
                        forall|j: int|
                            0 <= j < i ==> (#[trigger] entries@[j]).0@ == object.entries@[j].0@,
                        member_map(entries@) == member_map(object.entries@.take(i as int)),
                    decreases object.entries@.len() - i,
                {
                    let ghost before = entries@;
                    let entry = &object.entries[i];
                    entries.push((entry.0.clone(), entry.1.clone()));
                    proof {
                        let taken = object.entries@.take(i + 1);
                        assert(entries@.drop_last() =~= before);
                        assert(taken.drop_last() =~= object.entries@.take(i as int));
                    }
                    i += 1;
                }
                proof {
                    assert(object.entries@.take(i as int) =~= object.entries@);
                }
                let copy = JsonObject { entries };
                assert(copy.members() == object.members());
                Json::Object(copy)
            },
        }
    }
}

/// A JSON value as `serde_json` parses it.
#[verifier::external_type_specification]
#[verifier::external_body]
pub struct ExParsedValue(serde_json::Value);

/// What a `serde_json::Value` holds: its items, its members and what those hold in turn.
pub uninterp spec fn parsed_value(value: serde_json::Value) -> JsonValue;

/// Takes a `serde_json::Value` apart, variant by variant, and keeps everything it holds.
/// Its map has each name once, and a number that is no `u64` and no `i64` is a finite
/// double (`serde_json::Number::as_u64`, `as_i64`, `as_f64`).
#[verifier::external_body]
fn take_apart(value: serde_json::Value) -> (json: Json)
    ensures
        json.value() == parsed_value(value),
{
    match value {
        Parsed::Null => Json::Null,
        Parsed::Bool(b) => Json::Bool(b),
        Parsed::Number(n) => Json::Number(match (n.as_u64(), n.as_i64()) {
            (Some(n), _) => JsonNumber::PosInt(n),
            (_, Some(n)) => JsonNumber::NegInt(n),
            _ => JsonNumber::Float(n.as_f64().unwrap().to_bits()),
        }),
        Parsed::String(s) => Json::String(s),
        Parsed::Array(a) => Json::Array(a.into_iter().map(take_apart).collect()),
        Parsed::Object(m) => Json::Object(
            JsonObject { entries: m.into_iter().map(|(k, v)| (k, take_apart(v))).collect() },
        ),
    }
}

impl Json {
    /// The JSON value that a parser read.
    pub fn from_parsed(value: serde_json::Value) -> (json: Json)
        ensures
            json.value() == parsed_value(value),
    {
        take_apart(value)
    }
}

} // verus!
