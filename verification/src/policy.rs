//! Policy values and tables of them, as browsers read them.

use crate::ids::hex_digit;
use crate::table::{ascending, rows_map, TextTable};
use crate::text;
use vstd::prelude::*;

verus! {

/// A policy value.
#[derive(Debug, PartialEq, Eq)]
pub enum PolicyValue {
    /// A switch.
    Flag(bool),
    /// A number.
    Number(i64),
    /// A text.
    Words(String),
}

/// The model of a policy value.
pub enum PolicyModel {
    /// A switch.
    Flag(bool),
    /// A number.
    Number(int),
    /// A text.
    Words(Seq<char>),
}

impl View for PolicyValue {
    type V = PolicyModel;

    open spec fn view(&self) -> PolicyModel {
        match self {
            PolicyValue::Flag(b) => PolicyModel::Flag(*b),
            PolicyValue::Number(n) => PolicyModel::Number(*n as int),
            PolicyValue::Words(s) => PolicyModel::Words(s@),
        }
    }
}

impl Clone for PolicyValue {
    fn clone(&self) -> (r: PolicyValue)
        ensures
            r == *self,
    {
        match self {
            PolicyValue::Flag(b) => PolicyValue::Flag(*b),
            PolicyValue::Number(n) => PolicyValue::Number(*n),
            PolicyValue::Words(s) => PolicyValue::Words(s.clone()),
        }
    }
}

/// How a character stands inside a JSON string.
pub open spec fn json_escaped(c: char) -> Seq<char> {
    let n = c as u32;
    if c == '"' || c == '\\' {
        seq!['\\', c]
    } else if n == 8 {
        seq!['\\', 'b']
    } else if n == 9 {
        seq!['\\', 't']
    } else if n == 10 {
        seq!['\\', 'n']
    } else if n == 12 {
        seq!['\\', 'f']
    } else if n == 13 {
        seq!['\\', 'r']
    } else if n < 32 {
        seq!['\\', 'u', '0', '0', hex_digit(n as int / 16), hex_digit(n as int % 16)]
    } else {
        seq![c]
    }
}

/// The inside of a JSON string.
pub open spec fn json_inside(s: Seq<char>) -> Seq<char>
    decreases s.len(),
{
    if s.len() == 0 {
        Seq::empty()
    } else {
        json_inside(s.drop_last()) + json_escaped(s.last())
    }
}

/// The JSON notation of a value.
pub open spec fn json_text(v: PolicyModel) -> Seq<char> {
    match v {
        PolicyModel::Flag(b) => if b {
            "true"@
        } else {
            "false"@
        },
        PolicyModel::Number(n) => text::signed_dec(n),
        PolicyModel::Words(s) => seq!['"'] + json_inside(s) + seq!['"'],
    }
}

/// The text that `serde_json::Value` displays. Claimed: switches and numbers are
/// written as literals, and texts between double quotes, with quotes,
/// backslashes and control characters escaped.
#[verifier::external_body]
fn display_json(v: &PolicyValue) -> (r: String)
    ensures
        r@ == json_text(v@),
{
    match v {
        PolicyValue::Flag(b) => serde_json::Value::from(*b).to_string(),
        PolicyValue::Number(n) => serde_json::Value::from(*n).to_string(),
        PolicyValue::Words(s) => serde_json::Value::from(s.as_str()).to_string(),
    }
}

impl PolicyValue {
    /// A text value.
    #[must_use]
    pub fn words(s: &str) -> (r: PolicyValue)
        ensures
            r@ == PolicyModel::Words(s@),
    {
        PolicyValue::Words(s.to_owned())
    }

    /// The JSON notation.
    #[must_use]
    pub fn to_json(&self) -> (r: String)
        ensures
            r@ == json_text(self@),
    {
        display_json(self)
    }
}

/// A table of policy values in the order of their keys.
#[derive(Debug)]
pub struct PolicyTable {
    values: TextTable<PolicyValue>,
}

impl View for PolicyTable {
    type V = Map<Seq<char>, PolicyModel>;

    closed spec fn view(&self) -> Map<Seq<char>, PolicyModel> {
        self.values@.map_values(|v: PolicyValue| v@)
    }
}

impl PolicyTable {
    /// The pairs of the table, in the order of the keys.
    pub closed spec fn rows(self) -> Seq<(Seq<char>, PolicyValue)> {
        self.values.rows()
    }

    /// Whether the rows ascend and hold what the table holds.
    pub open spec fn lists(self) -> bool {
        &&& ascending(self.rows())
        &&& rows_map(self.rows()).map_values(|v: PolicyValue| v@) == self@
    }

    /// The empty table.
    #[must_use]
    pub fn new() -> (r: PolicyTable)
        ensures
            r@ == Map::<Seq<char>, PolicyModel>::empty(),
    {
        let r = PolicyTable { values: TextTable::new() };
        assert(r@ =~= Map::<Seq<char>, PolicyModel>::empty());
        r
    }

    /// Sets the value under `key`.
    pub fn put(&mut self, key: &str, value: PolicyValue)
        ensures
            final(self)@ == old(self)@.insert(key@, value@),
    {
        self.values.insert(key.to_owned(), value);
        assert(self@ =~= old(self)@.insert(key@, value@));
    }

    /// The value under `key`.
    #[must_use]
    pub fn get(&self, key: &str) -> (r: Option<&PolicyValue>)
        ensures
            match r {
                Some(v) => self@.contains_key(key@) && v@ == self@[key@],
                None => !self@.contains_key(key@),
            },
    {
        self.values.get(key)
    }

    /// The number of keys.
    #[must_use]
    pub fn len(&self) -> (r: usize)
        ensures
            r == self.rows().len(),
            self.lists(),
    {
        self.values.len()
    }

    /// The key in the given row.
    #[must_use]
    pub fn key(&self, i: usize) -> (r: &str)
        requires
            i < self.rows().len(),
        ensures
            r@ == self.rows()[i as int].0,
    {
        self.values.key(i)
    }

    /// The value in the given row.
    #[must_use]
    pub fn value(&self, i: usize) -> (r: &PolicyValue)
        requires
            i < self.rows().len(),
        ensures
            *r == self.rows()[i as int].1,
    {
        self.values.value(i)
    }
}

} // verus!
