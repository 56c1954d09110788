//! JSON documents as trees, and the mathematical values they stand for.

use vstd::prelude::*;
use crate::error::DecodeError;

verus! {

/// A JSON document.
///
/// Integers are kept exactly: `Unsigned` and `Signed` together cover every
/// integer from `i64::MIN` to `u64::MAX`. A number with a fraction or an
/// exponent is kept as the bit pattern of its binary64 value. An object is a
/// list of members; where a name occurs twice, the later member counts.
#[derive(Debug, PartialEq, Eq)]
pub enum Json {
    Null,
    Bool(bool),
    Unsigned(u64),
    Signed(i64),
    Float(u64),
    Text(String),
    Array(Vec<Json>),
    Object(Vec<(String, Json)>),
}

/// The value that a JSON document denotes.
pub enum JsonValue {
    Null,
    Bool(bool),
    Integer(int),
    Float(u64),
    Text(Seq<char>),
    Array(Seq<JsonValue>),
    Object(Map<Seq<char>, JsonValue>),
}

/// The map built by inserting the members in order, later ones replacing
/// earlier ones of the same name.
pub open spec fn map_of_members(members: Seq<(Seq<char>, JsonValue)>) -> Map<Seq<char>, JsonValue>
    decreases members.len(),
{
    if members.len() == 0 {
        Map::empty()
    } else {
        map_of_members(members.drop_last()).insert(members.last().0, members.last().1)
    }
}

/// The values of a list of documents.
pub open spec fn items_view(items: Seq<Json>) -> Seq<JsonValue>
    decreases items,
{
    Seq::new(
        items.len(),
        |i: int|
            if 0 <= i < items.len() {
                items[i].view()
            } else {
                JsonValue::Null
            },
    )
}

/// The names and values of a list of members.
pub open spec fn members_view(members: Seq<(String, Json)>) -> Seq<(Seq<char>, JsonValue)>
    decreases members,
{
    Seq::new(
        members.len(),
        |i: int|
            if 0 <= i < members.len() {
                (members[i].0@, members[i].1.view())
            } else {
                (Seq::empty(), JsonValue::Null)
            },
    )
}

impl View for Json {
    type V = JsonValue;

    open spec fn view(&self) -> JsonValue
        decreases self,
    {
        match self {
            Json::Null => JsonValue::Null,
            Json::Bool(b) => JsonValue::Bool(*b),
            Json::Unsigned(n) => JsonValue::Integer(*n as int),
            Json::Signed(n) => JsonValue::Integer(*n as int),
            Json::Float(bits) => JsonValue::Float(*bits),
            Json::Text(s) => JsonValue::Text(s@),
            Json::Array(items) => JsonValue::Array(items_view(items@)),
            Json::Object(members) => JsonValue::Object(map_of_members(members_view(members@))),
        }
    }
}

/// Whether every tree of a list can be written.
pub open spec fn items_writable(items: Seq<Json>) -> bool
    decreases items,
{
    forall|i: int| 0 <= i < items.len() ==> writable(#[trigger] items[i])
}

/// Whether the value of every member of a list can be written.
pub open spec fn members_writable(members: Seq<(String, Json)>) -> bool
    decreases members,
{
    forall|i: int| 0 <= i < members.len() ==> writable((#[trigger] members[i]).1)
}

/// Whether a tree can be written: it holds no number with a fraction or an
/// exponent, at any depth and in any member, shadowed ones included.
pub open spec fn writable(j: Json) -> bool
    decreases j,
{
    match j {
        Json::Float(_) => false,
        Json::Array(items) => items_writable(items@),
        Json::Object(members) => members_writable(members@),
        _ => true,
    }
}

impl JsonValue {
    /// The member of that name, where the value is an object that has one.
    pub open spec fn member(self, name: Seq<char>) -> Option<JsonValue> {
        match self {
            JsonValue::Object(map) => if map.contains_key(name) {
                Some(map[name])
            } else {
                None
            },
            _ => None,
        }
    }

    /// The member of that name, as a record's decoder asks for it.
    pub open spec fn field(self, name: Seq<char>) -> Result<JsonValue, DecodeError> {
        match self {
            JsonValue::Object(map) => if map.contains_key(name) {
                Ok(map[name])
            } else {
                Err(DecodeError::MissingField)
            },
            _ => Err(DecodeError::NotAnObject),
        }
    }

    /// The value as an unsigned 64-bit integer.
    pub open spec fn as_u64(self) -> Result<u64, DecodeError> {
        match self {
            JsonValue::Integer(n) => if 0 <= n <= u64::MAX {
                Ok(n as u64)
            } else {
                Err(DecodeError::WrongType)
            },
            _ => Err(DecodeError::WrongType),
        }
    }

    /// The value as a signed 64-bit integer.
    pub open spec fn as_i64(self) -> Result<i64, DecodeError> {
        match self {
            JsonValue::Integer(n) => if i64::MIN <= n <= i64::MAX {
                Ok(n as i64)
            } else {
                Err(DecodeError::WrongType)
            },
            _ => Err(DecodeError::WrongType),
        }
    }

    /// The value as a truth value.
    pub open spec fn as_bool(self) -> Result<bool, DecodeError> {
        match self {
            JsonValue::Bool(b) => Ok(b),
            _ => Err(DecodeError::WrongType),
        }
    }

    /// The value as a text.
    pub open spec fn as_text(self) -> Result<Seq<char>, DecodeError> {
        match self {
            JsonValue::Text(s) => Ok(s),
            _ => Err(DecodeError::WrongType),
        }
    }

    /// The value as a list.
    pub open spec fn as_array(self) -> Result<Seq<JsonValue>, DecodeError> {
        match self {
            JsonValue::Array(items) => Ok(items),
            _ => Err(DecodeError::WrongType),
        }
    }

    /// The member `name` as an unsigned 64-bit integer.
    pub open spec fn u64_field(self, name: Seq<char>) -> Result<u64, DecodeError> {
        match self.field(name) {
            Ok(value) => value.as_u64(),
            Err(e) => Err(e),
        }
    }

    /// The member `name` as a truth value.
    pub open spec fn bool_field(self, name: Seq<char>) -> Result<bool, DecodeError> {
        match self.field(name) {
            Ok(value) => value.as_bool(),
            Err(e) => Err(e),
        }
    }

    /// The member `name` as a text.
    pub open spec fn text_field(self, name: Seq<char>) -> Result<Seq<char>, DecodeError> {
        match self.field(name) {
            Ok(value) => value.as_text(),
            Err(e) => Err(e),
        }
    }

    /// The member `name` as a list.
    pub open spec fn array_field(self, name: Seq<char>) -> Result<Seq<JsonValue>, DecodeError> {
        match self.field(name) {
            Ok(value) => value.as_array(),
            Err(e) => Err(e),
        }
    }
}

/// Appending a member to a list inserts it into the map of the list.
pub proof fn lemma_members_push(members: Seq<(String, Json)>, name: String, value: Json)
    ensures
        map_of_members(members_view(members.push((name, value)))) == map_of_members(
            members_view(members),
        ).insert(name@, value@),
{
    let longer = members_view(members.push((name, value)));
    assert(longer.drop_last() =~= members_view(members));
    assert(longer.last() == (name@, value@));
}

/// A name that no member bears is not in the map of the list.
pub proof fn lemma_members_absent(members: Seq<(Seq<char>, JsonValue)>, name: Seq<char>)
    requires
        forall|j: int| 0 <= j < members.len() ==> (#[trigger] members[j]).0 != name,
    ensures
        !map_of_members(members).contains_key(name),
    decreases members.len(),
{
    if members.len() > 0 {
        lemma_members_absent(members.drop_last(), name);
    }
}

/// The map of a list gives each name the value of the last member that bears it.
pub proof fn lemma_members_last(members: Seq<(Seq<char>, JsonValue)>, i: int, name: Seq<char>)
    requires
        0 <= i < members.len(),
        members[i].0 == name,
        forall|j: int| i < j < members.len() ==> (#[trigger] members[j]).0 != name,
    ensures
        map_of_members(members).contains_key(name),
        map_of_members(members)[name] == members[i].1,
    decreases members.len(),
{
    if i < members.len() - 1 {
        lemma_members_last(members.drop_last(), i, name);
    }
}

impl Json {
    /// A text value with the characters of `s`.
    pub fn text(s: &str) -> (j: Json)
        ensures
            j@ == JsonValue::Text(s@),
            writable(j),
    {
        Json::Text(s.to_owned())
    }

    /// The list of the given unsigned integers, in their order.
    pub fn unsigned_array(numbers: &Vec<u64>) -> (j: Json)
        ensures
            j@ == JsonValue::Array(numbers@.map(|i: int, n: u64| JsonValue::Integer(n as int))),
            writable(j),
    {
        let mut items: Vec<Json> = Vec::new();
        let mut i: usize = 0;
        while i < numbers.len()
            invariant
                i <= numbers.len(),
                items@.len() == i,
                forall|j: int| 0 <= j < i ==> writable(#[trigger] items@[j]),
                forall|j: int| 0 <= j < i ==> (#[trigger] items@[j])@ == JsonValue::Integer(numbers@[j] as int),
            decreases numbers.len() - i,
        {
            items.push(Json::Unsigned(numbers[i]));
            i = i + 1;
        }
        assert(items_view(items@) =~= numbers@.map(|i: int, n: u64| JsonValue::Integer(n as int)));
        Json::Array(items)
    }

    /// Looks a member up by name; of several members with one name the last counts.
    pub fn get(&self, name: &str) -> (r: Option<&Json>)
        ensures
            match r {
                Some(value) => self@.member(name@) == Some(value@),
                None => self@.member(name@) is None,
            },
    {
        match self {
            Json::Object(members) => {
                let wanted: String = name.to_owned();
                let ghost pairs = members_view(members@);
                let mut i: usize = members.len();
                while i > 0
                    invariant
                        i <= members.len(),
                        pairs == members_view(members@),
                        self@ == JsonValue::Object(map_of_members(pairs)),
                        wanted@ == name@,
                        forall|j: int| i <= j < members.len() ==> (#[trigger] pairs[j]).0 != name@,
                    decreases i,
                {
                    i = i - 1;
                    if members[i].0 == wanted {
                        proof {
                            assert(pairs[i as int] == (members@[i as int].0@, members@[i as int].1@));
                            lemma_members_last(pairs, i as int, name@);
                        }
                        return Some(&members[i].1);
                    }
                }
                proof {
                    lemma_members_absent(pairs, name@);
                }
                None
            },
            _ => None,
        }
    }

    /// The member of that name, or why a record cannot be read from this value.
    pub fn field(&self, name: &str) -> (r: Result<&Json, DecodeError>)
        ensures
            match r {
                Ok(value) => self@.field(name@) == Ok::<JsonValue, DecodeError>(value@),
                Err(e) => self@.field(name@) == Err::<JsonValue, DecodeError>(e),
            },
    {
        match self {
            Json::Object(_) => match self.get(name) {
                Some(value) => Ok(value),
                None => Err(DecodeError::MissingField),
            },
            _ => Err(DecodeError::NotAnObject),
        }
    }

    /// Reads an unsigned 64-bit integer.
    pub fn as_u64(&self) -> (r: Result<u64, DecodeError>)
        ensures
            r == self@.as_u64(),
    {
        match self {
            Json::Unsigned(n) => Ok(*n),
            Json::Signed(n) => if *n >= 0 {
                Ok(*n as u64)
            } else {
                Err(DecodeError::WrongType)
            },
            _ => Err(DecodeError::WrongType),
        }
    }

    /// Reads a signed 64-bit integer.
    pub fn as_i64(&self) -> (r: Result<i64, DecodeError>)
        ensures
            r == self@.as_i64(),
    {
        match self {
            Json::Unsigned(n) => if *n <= 0x7fff_ffff_ffff_ffff {
                Ok(*n as i64)
            } else {
                Err(DecodeError::WrongType)
            },
            Json::Signed(n) => Ok(*n),
            _ => Err(DecodeError::WrongType),
        }
    }

    /// Reads a truth value.
    pub fn as_bool(&self) -> (r: Result<bool, DecodeError>)
        ensures
            r == self@.as_bool(),
    {
        match self {
            Json::Bool(b) => Ok(*b),
            _ => Err(DecodeError::WrongType),
        }
    }

    /// Reads a text.
    pub fn as_text(&self) -> (r: Result<&str, DecodeError>)
        ensures
            match r {
                Ok(s) => self@.as_text() == Ok::<Seq<char>, DecodeError>(s@),
                Err(e) => self@.as_text() == Err::<Seq<char>, DecodeError>(e),
            },
    {
        match self {
            Json::Text(s) => Ok(s.as_str()),
            _ => Err(DecodeError::WrongType),
        }
    }

    /// Whether the value is the text `expected`.
    pub fn is_text(&self, expected: &str) -> (r: bool)
        ensures
            r == (self@ == JsonValue::Text(expected@)),
    {
        match self {
            Json::Text(s) => {
                let wanted: String = expected.to_owned();
                *s == wanted
            },
            _ => false,
        }
    }

    /// Reads the member `name` as an unsigned 64-bit integer.
    pub fn u64_field(&self, name: &str) -> (r: Result<u64, DecodeError>)
        ensures
            r == self@.u64_field(name@),
    {
        match self.field(name) {
            Ok(value) => value.as_u64(),
            Err(e) => Err(e),
        }
    }

    /// Reads the member `name` as a truth value.
    pub fn bool_field(&self, name: &str) -> (r: Result<bool, DecodeError>)
        ensures
            r == self@.bool_field(name@),
    {
        match self.field(name) {
            Ok(value) => value.as_bool(),
            Err(e) => Err(e),
        }
    }

    /// Reads the member `name` as a text.
    pub fn text_field(&self, name: &str) -> (r: Result<String, DecodeError>)
        ensures
            match r {
                Ok(s) => self@.text_field(name@) == Ok::<Seq<char>, DecodeError>(s@),
                Err(e) => self@.text_field(name@) == Err::<Seq<char>, DecodeError>(e),
            },
    {
        match self.field(name) {
            Ok(value) => match value.as_text() {
                Ok(s) => Ok(s.to_owned()),
                Err(e) => Err(e),
            },
            Err(e) => Err(e),
        }
    }

    /// Reads the member `name` as a list.
    pub fn array_field(&self, name: &str) -> (r: Result<&Vec<Json>, DecodeError>)
        ensures
            match r {
                Ok(items) => self@.array_field(name@) == Ok::<Seq<JsonValue>, DecodeError>(
                    items_view(items@),
                ),
                Err(e) => self@.array_field(name@) == Err::<Seq<JsonValue>, DecodeError>(e),
            },
    {
        match self.field(name) {
            Ok(value) => value.as_array(),
            Err(e) => Err(e),
        }
    }

    /// Reads a list.
    pub fn as_array(&self) -> (r: Result<&Vec<Json>, DecodeError>)
        ensures
            match r {
                Ok(items) => self@.as_array() == Ok::<Seq<JsonValue>, DecodeError>(
                    items_view(items@),
                ),
                Err(e) => self@.as_array() == Err::<Seq<JsonValue>, DecodeError>(e),
            },
    {
        match self {
            Json::Array(items) => Ok(items),
            _ => Err(DecodeError::WrongType),
        }
    }
}

/// Collects the members of an object one by one; a member whose name is
/// already there replaces the earlier one.
pub struct ObjectBuilder {
    members: Vec<(String, Json)>,
}

impl View for ObjectBuilder {
    type V = Map<Seq<char>, JsonValue>;

    closed spec fn view(&self) -> Map<Seq<char>, JsonValue> {
        map_of_members(members_view(self.members@))
    }
}

impl ObjectBuilder {
    /// Whether every value given to the builder can be written.
    pub closed spec fn all_writable(&self) -> bool {
        members_writable(self.members@)
    }

    /// A builder without members.
    pub fn new() -> (b: ObjectBuilder)
        ensures
            b@ == Map::<Seq<char>, JsonValue>::empty(),
            b.all_writable(),
    {
        ObjectBuilder { members: Vec::new() }
    }

    /// Sets the member `name` to `value`.
    pub fn insert(&mut self, name: &str, value: Json)
        ensures
            final(self)@ == old(self)@.insert(name@, value@),
            final(self).all_writable() == (old(self).all_writable() && writable(value)),
    {
        let owned: String = name.to_owned();
        let ghost before = self.members@;
        proof {
            lemma_members_push(self.members@, owned, value);
        }
        self.members.push((owned, value));
        proof {
            let after = self.members@;
            assert(after == before.push((owned, value)));
            if members_writable(before) && writable(value) {
                assert forall|i: int| 0 <= i < after.len() implies writable((#[trigger] after[i]).1) by {
                    if i < before.len() {
                        assert(after[i] == before[i]);
                    }
                }
            }
            if members_writable(after) {
                assert(after[before.len() as int] == (owned, value));
                assert forall|i: int| 0 <= i < before.len() implies writable(
                    (#[trigger] before[i]).1,
                ) by {
                    assert(after[i] == before[i]);
                }
            }
        }
    }

    /// The members collected so far, in the order they were given.
    pub fn into_members(self) -> (members: Vec<(String, Json)>)
        ensures
            map_of_members(members_view(members@)) == self@,
            members_writable(members@) == self.all_writable(),
    {
        self.members
    }

    /// The object with the members collected so far.
    pub fn finish(self) -> (j: Json)
        ensures
            j@ == JsonValue::Object(self@),
            writable(j) == self.all_writable(),
    {
        Json::Object(self.members)
    }
}

} // verus!

