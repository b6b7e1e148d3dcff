//! What a recipe gets back from the host besides files: decoded JSON as
//! values of the scripting context, and the groups captured by a regular
//! expression.

use vstd::prelude::*;

verus! {

/// A number of a JSON text, in the readings that it has.
#[derive(Debug, Clone, PartialEq, Eq)]
pub struct JsonNumber {
    /// The number as an integer, where it is one and fits.
    pub integer: Option<i64>,
    /// The number as a fraction, written out in decimal digits.
    pub decimal: Option<String>,
}

/// A member of a JSON object.
#[derive(Debug, PartialEq, Eq)]
pub struct JsonMember {
    pub key: String,
    pub value: JsonValue,
}

/// A decoded JSON text.
#[derive(Debug, PartialEq, Eq)]
pub enum JsonValue {
    Null,
    Bool(bool),
    Number(JsonNumber),
    Text(String),
    Array(Vec<JsonValue>),
    Object(Vec<JsonMember>),
}

/// The key of a table entry.
#[derive(Debug, Clone, PartialEq, Eq)]
pub enum ScriptKey {
    Name(String),
    Index(usize),
}

/// An entry of a table.
#[derive(Debug, PartialEq, Eq)]
pub struct ScriptEntry {
    pub key: ScriptKey,
    pub value: ScriptValue,
}

/// A value of the scripting context.
#[derive(Debug, PartialEq, Eq)]
pub enum ScriptValue {
    /// The absence of a value.
    Nil,
    Boolean(bool),
    Integer(i64),
    /// A fraction, written out in decimal digits.
    Number(String),
    Text(String),
    /// A table, as the entries that are set on it, in order.
    Table(Vec<ScriptEntry>),
}

/// What a `JsonValue` stands for.
pub enum JsonModel {
    Null,
    Bool(bool),
    Number { integer: Option<i64>, decimal: Option<Seq<char>> },
    Text(Seq<char>),
    Array(Seq<JsonModel>),
    Object(Seq<(Seq<char>, JsonModel)>),
}

/// What a `ScriptKey` stands for.
pub enum KeyModel {
    Name(Seq<char>),
    Index(int),
}

/// What a `ScriptValue` stands for.
pub enum ScriptModel {
    Nil,
    Boolean(bool),
    Integer(i64),
    Number(Seq<char>),
    Text(Seq<char>),
    Table(Seq<(KeyModel, ScriptModel)>),
}

impl JsonValue {
    /// The JSON value that `self` holds.
    pub open spec fn model(self) -> JsonModel
        decreases self,
    {
        match self {
            JsonValue::Null => JsonModel::Null,
            JsonValue::Bool(b) => JsonModel::Bool(b),
            JsonValue::Number(n) => JsonModel::Number {
                integer: n.integer,
                decimal: match n.decimal {
                    Some(d) => Some(d@),
                    None => None,
                },
            },
            JsonValue::Text(s) => JsonModel::Text(s@),
            JsonValue::Array(items) => JsonModel::Array(
                Seq::new(
                    items.len() as nat,
                    |i: int|
                        if 0 <= i < items.len() {
                            items[i].model()
                        } else {
                            JsonModel::Null
                        },
                ),
            ),
            JsonValue::Object(members) => JsonModel::Object(
                Seq::new(
                    members.len() as nat,
                    |i: int|
                        if 0 <= i < members.len() {
                            (members[i].key@, members[i].value.model())
                        } else {
                            (Seq::<char>::empty(), JsonModel::Null)
                        },
                ),
            ),
        }
    }
}

impl ScriptKey {
    /// The key that `self` holds.
    pub open spec fn model(self) -> KeyModel {
        match self {
            ScriptKey::Name(name) => KeyModel::Name(name@),
            ScriptKey::Index(index) => KeyModel::Index(index as int),
        }
    }
}

impl ScriptValue {
    /// The value that `self` holds.
    pub open spec fn model(self) -> ScriptModel
        decreases self,
    {
        match self {
            ScriptValue::Nil => ScriptModel::Nil,
            ScriptValue::Boolean(b) => ScriptModel::Boolean(b),
            ScriptValue::Integer(i) => ScriptModel::Integer(i),
            ScriptValue::Number(d) => ScriptModel::Number(d@),
            ScriptValue::Text(s) => ScriptModel::Text(s@),
            ScriptValue::Table(entries) => ScriptModel::Table(
                Seq::new(
                    entries.len() as nat,
                    |i: int|
                        if 0 <= i < entries.len() {
                            (entries[i].key.model(), entries[i].value.model())
                        } else {
                            (KeyModel::Index(0), ScriptModel::Nil)
                        },
                ),
            ),
        }
    }
}

/// The value of the scripting context that a JSON value becomes.
///
/// An object becomes a table with its members under their keys, an array a
/// table with its items under the indices from 1 on. A number stays an
/// integer where it is one, and is a fraction otherwise. `null` becomes the
/// absence of a value.
pub open spec fn script_of(json: JsonModel) -> ScriptModel
    decreases json,
{
    match json {
        JsonModel::Null => ScriptModel::Nil,
        JsonModel::Bool(b) => ScriptModel::Boolean(b),
        JsonModel::Number { integer, decimal } => match (integer, decimal) {
            (Some(i), _) => ScriptModel::Integer(i),
            (None, Some(d)) => ScriptModel::Number(d),
            (None, None) => ScriptModel::Nil,
        },
        JsonModel::Text(s) => ScriptModel::Text(s),
        JsonModel::Array(items) => ScriptModel::Table(
            Seq::new(
                items.len(),
                |i: int|
                    if 0 <= i < items.len() {
                        (KeyModel::Index(i + 1), script_of(items[i]))
                    } else {
                        (KeyModel::Index(0), ScriptModel::Nil)
                    },
            ),
        ),
        JsonModel::Object(members) => ScriptModel::Table(
            Seq::new(
                members.len(),
                |i: int|
                    if 0 <= i < members.len() {
                        (KeyModel::Name(members[i].0), script_of(members[i].1))
                    } else {
                        (KeyModel::Index(0), ScriptModel::Nil)
                    },
            ),
        ),
    }
}

/// Turns a decoded JSON text into a value of the scripting context.
pub fn json_to_lua_table(value: &JsonValue) -> (script: ScriptValue)
    ensures
        script.model() == script_of(value.model()),
    decreases value,
{
    match value {
        JsonValue::Object(members) => {
            let mut entries: Vec<ScriptEntry> = Vec::new();
            let mut i: usize = 0;
            while i < members.len()
                invariant
                    i <= members.len(),
                    entries.len() == i,
                    decreases_to!(*value => *members),
                    forall|j: int|
                        0 <= j < i ==> (#[trigger] entries[j]).key.model() == KeyModel::Name(
                            members[j].key@,
                        ) && entries[j].value.model() == script_of(members[j].value.model()),
                decreases members.len() - i,
            {
                let member = &members[i];
                let converted = json_to_lua_table(&member.value);
                entries.push(
                    ScriptEntry { key: ScriptKey::Name(member.key.clone()), value: converted },
                );
                i += 1;
            }
            let table = ScriptValue::Table(entries);
            proof {
                let wanted = script_of(value.model());
                assert(table.model()->Table_0 =~= wanted->Table_0);
            }
            table
        },
        JsonValue::Array(items) => {
            let mut entries: Vec<ScriptEntry> = Vec::new();
            let mut i: usize = 0;
            while i < items.len()
                invariant
                    i <= items.len(),
                    entries.len() == i,
                    decreases_to!(*value => *items),
                    forall|j: int|
                        0 <= j < i ==> (#[trigger] entries[j]).key.model() == KeyModel::Index(
                            j + 1,
                        ) && entries[j].value.model() == script_of(items[j].model()),
                decreases items.len() - i,
            {
                let converted = json_to_lua_table(&items[i]);
                entries.push(ScriptEntry { key: ScriptKey::Index(i + 1), value: converted });
                i += 1;
            }
            let table = ScriptValue::Table(entries);
            proof {
                let wanted = script_of(value.model());
                assert(table.model()->Table_0 =~= wanted->Table_0);
            }
            table
        },
        JsonValue::Text(s) => ScriptValue::Text(s.clone()),
        JsonValue::Number(n) => match (&n.integer, &n.decimal) {
            (Some(i), _) => ScriptValue::Integer(*i),
            (None, Some(d)) => ScriptValue::Number(d.clone()),
            (None, None) => ScriptValue::Nil,
        },
        JsonValue::Bool(b) => ScriptValue::Boolean(*b),
        JsonValue::Null => ScriptValue::Nil,
    }
}

/// What a search with a regular expression gives: the reason why the
/// pattern was refused; or nothing, where the pattern matches nowhere in the
/// text; or the groups of the leftmost match, the whole match first, each
/// with the text it captured if it took part in the match.
pub uninterp spec fn regex_search(pattern: Seq<char>, text: Seq<char>) -> Result<
    Option<Seq<Option<Seq<char>>>>,
    Seq<char>,
>;

/// The characters of a text that may be absent.
pub open spec fn text_of(text: Option<String>) -> Option<Seq<char>> {
    match text {
        Some(t) => Some(t@),
        None => None,
    }
}

/// The characters of each text in a list of texts that may be absent.
pub open spec fn texts_of(list: Seq<Option<String>>) -> Seq<Option<Seq<char>>> {
    Seq::new(list.len(), |i: int| text_of(list[i]))
}

/// What the groups of a match, if there was one, stand for.
pub open spec fn groups_model(found: Option<Vec<Option<String>>>) -> Option<
    Seq<Option<Seq<char>>>,
> {
    match found {
        Some(groups) => Some(texts_of(groups@)),
        None => None,
    }
}

/// What the outcome of a search stands for.
pub open spec fn search_model(found: Result<Option<Vec<Option<String>>>, String>) -> Result<
    Option<Seq<Option<Seq<char>>>>,
    Seq<char>,
> {
    match found {
        Ok(groups) => Ok(groups_model(groups)),
        Err(reason) => Err(reason@),
    }
}

/// Compiles `pattern` with `regex::Regex::new` and searches `text` with
/// `Regex::captures`. A pattern that does not compile gives the text of
/// the error. A match gives what `Captures::iter` yields: one item for each
/// group of the pattern, in the order of their indices. The outcome is a
/// function of the pattern and the text; the contract gives it its name.
#[verifier::external_body]
fn search(text: &str, pattern: &str) -> (found: Result<Option<Vec<Option<String>>>, String>)
    ensures
        search_model(found) == regex_search(pattern@, text@),
{
    let re = regex::Regex::new(pattern).map_err(|e| e.to_string())?;
    Ok(re.captures(text).map(|c| c.iter().map(|m| m.map(|m| m.as_str().to_string())).collect()))
}

/// The text captured by the group with the given index: nothing where
/// there was no match, where the pattern has no such group, or where the
/// group took no part in the match.
pub open spec fn group_at(found: Option<Seq<Option<Seq<char>>>>, index: int) -> Option<Seq<char>> {
    match found {
        Some(groups) => if 0 <= index < groups.len() {
            groups[index]
        } else {
            None
        },
        None => None,
    }
}

/// The text captured by the group with the given index, if there is one.
fn group(found: &Option<Vec<Option<String>>>, index: usize) -> (text: Option<String>)
    ensures
        text_of(text) == group_at(groups_model(*found), index as int),
{
    match found {
        Some(groups) => if index < groups.len() {
            match &groups[index] {
                Some(t) => Some(t.clone()),
                None => None,
            }
        } else {
            None
        },
        None => None,
    }
}

/// The first four groups after the whole match, each present or absent on
/// its own. `found` is what the search gave: nothing where the pattern did
/// not match, else its groups with the whole match first.
pub fn first_four_groups(found: &Option<Vec<Option<String>>>) -> (groups: (
    Option<String>,
    Option<String>,
    Option<String>,
    Option<String>,
))
    ensures
        text_of(groups.0) == group_at(groups_model(*found), 1),
        text_of(groups.1) == group_at(groups_model(*found), 2),
        text_of(groups.2) == group_at(groups_model(*found), 3),
        text_of(groups.3) == group_at(groups_model(*found), 4),
{
    (group(found, 1), group(found, 2), group(found, 3), group(found, 4))
}

/// Searches `text` for `pattern` and returns up to four captured groups,
/// commonly the parts of a version number. A pattern that is not a valid
/// regular expression is an error; a pattern that does not match gives four
/// absent groups.
pub fn regex_match(text: &str, pattern: &str) -> (result: Result<
    (Option<String>, Option<String>, Option<String>, Option<String>),
    String,
>)
    ensures
        match regex_search(pattern@, text@) {
            Err(reason) => result matches Err(e) && e@ == reason,
            Ok(found) => result matches Ok(groups) && text_of(groups.0) == group_at(found, 1)
                && text_of(groups.1) == group_at(found, 2) && text_of(groups.2) == group_at(
                found,
                3,
            ) && text_of(groups.3) == group_at(found, 4),
        },
{
    match search(text, pattern) {
        Ok(found) => Ok(first_four_groups(&found)),
        Err(reason) => Err(reason),
    }
}

} // verus!
