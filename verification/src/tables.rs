use vstd::prelude::*;
use vstd::string::*;
use crate::text::{copy_texts, texts};

verus! {

/// What a table holds under one key, as far as a table of headers cares.
#[derive(Clone, Debug, PartialEq, Eq)]
pub enum LuaField {
    /// A string.
    Text(String),
    /// An array whose items are all strings.
    Sequence(Vec<String>),
    /// A value of another kind: a number, a boolean, a function and so on.
    Unsupported,
    /// A key or a value that could not be read as text; the reason is kept.
    Malformed(String),
}

/// One pair of a table, in the order in which the table yields its pairs.
#[derive(Clone, Debug, PartialEq, Eq)]
pub struct TableItem {
    pub key: String,
    pub value: LuaField,
}

/// Why a table could not be taken as a map of headers.
#[derive(Clone, Debug, PartialEq, Eq)]
pub enum TableError {
    /// A value is neither a string nor an array of strings.
    Runtime(String),
    /// A key or a value could not be read as text.
    Conversion(String),
}

impl TableError {
    /// The text of the error.
    pub open spec fn text(self) -> Seq<char> {
        match self {
            TableError::Runtime(message) => message@,
            TableError::Conversion(message) => message@,
        }
    }

    /// The text of the error.
    pub fn message(&self) -> (message: &String)
        ensures
            message@ == self.text(),
    {
        match self {
            TableError::Runtime(message) => message,
            TableError::Conversion(message) => message,
        }
    }
}

/// One key of a map of headers with all its values.
#[derive(Clone, Debug, PartialEq, Eq)]
pub struct HeaderValues {
    pub name: String,
    pub values: Vec<String>,
}

/// The pair can be taken into a map of headers.
pub open spec fn usable(item: TableItem) -> bool {
    item.value is Text || item.value is Sequence
}

/// The values that a usable pair stands for.
pub open spec fn values_in(field: LuaField) -> Seq<Seq<char>> {
    match field {
        LuaField::Text(text) => seq![text@],
        LuaField::Sequence(items) => texts(items@),
        _ => Seq::empty(),
    }
}

/// The message for a value of the wrong kind; `origin` names the table.
pub open spec fn wrong_kind_message(origin: Seq<char>) -> Seq<char> {
    "Value for '"@ + origin + "' must be a string or array of strings"@
}

/// `error` is the error that a pair with the value `field` gives.
pub open spec fn describes(error: TableError, field: LuaField, origin: Seq<char>) -> bool {
    match field {
        LuaField::Unsupported => error matches TableError::Runtime(message) && message@
            == wrong_kind_message(origin),
        LuaField::Malformed(reason) => error matches TableError::Conversion(message) && message@
            == reason@,
        _ => false,
    }
}

/// The pair at `at` is the first of `items` that cannot be taken.
pub open spec fn first_unusable(items: Seq<TableItem>, at: int) -> bool {
    &&& 0 <= at < items.len()
    &&& !usable(items[at])
    &&& forall|j: int| 0 <= j < at ==> usable(#[trigger] items[j])
}

/// What a map built from `items` holds under `key`: the values of the last
/// pair with that key, since a later pair replaces an earlier one.
pub open spec fn last_values(items: Seq<TableItem>, key: Seq<char>) -> Option<Seq<Seq<char>>>
    decreases items.len(),
{
    if items.len() == 0 {
        None
    } else if items.last().key@ == key {
        Some(values_in(items.last().value))
    } else {
        last_values(items.drop_last(), key)
    }
}

/// `map` is the map of headers that `items` describe: no key twice, and under
/// each key what `items` hold for it.
pub open spec fn represents(map: Seq<HeaderValues>, items: Seq<TableItem>) -> bool {
    &&& forall|i: int, j: int|
        0 <= i < j < map.len() ==> (#[trigger] map[i]).name@ != (#[trigger] map[j]).name@
    &&& forall|i: int|
        0 <= i < map.len() ==> last_values(items, (#[trigger] map[i]).name@) == Some(
            texts(map[i].values@),
        )
    &&& forall|key: Seq<char>|
        (#[trigger] last_values(items, key)) is Some ==> exists|i: int|
            0 <= i < map.len() && (#[trigger] map[i]).name@ == key
}

/// Where `map` holds the key `name`, if it does.
fn position_of(map: &Vec<HeaderValues>, name: &String) -> (at: Option<usize>)
    ensures
        match at {
            Some(i) => i < map@.len() && map@[i as int].name@ == name@,
            None => forall|j: int| 0 <= j < map@.len() ==> (#[trigger] map@[j]).name@ != name@,
        },
{
    let mut i: usize = 0;
    while i < map.len()
        invariant
            i <= map@.len(),
            forall|j: int| 0 <= j < i ==> (#[trigger] map@[j]).name@ != name@,
        decreases map@.len() - i,
    {
        if map[i].name == *name {
            return Some(i);
        }
        i += 1;
    }
    None
}

/// The values that a usable pair stands for.
fn values_of_field(field: &LuaField) -> (values: Vec<String>)
    requires
        field is Text || field is Sequence,
    ensures
        texts(values@) == values_in(*field),
{
    match field {
        LuaField::Text(text) => {
            let mut values: Vec<String> = Vec::new();
            values.push(text.clone());
            values
        },
        LuaField::Sequence(items) => copy_texts(items),
        _ => Vec::new(),
    }
}

/// The error that a pair that cannot be taken gives.
fn error_of(field: &LuaField, tab_origin_key: &str) -> (error: TableError)
    requires
        field is Unsupported || field is Malformed,
    ensures
        describes(error, *field, tab_origin_key@),
{
    match field {
        LuaField::Malformed(reason) => TableError::Conversion(reason.clone()),
        _ => TableError::Runtime(
            "Value for '".to_owned().concat(tab_origin_key).concat(
                "' must be a string or array of strings",
            ),
        ),
    }
}

/// Takes the pairs of a table as a map of headers. A string stands for one
/// value, an array of strings for its items; a later pair replaces an earlier
/// one with the same key. The first pair that is neither, or that could not be
/// read, ends the work with its error; `tab_origin_key` names the table in
/// the message.
pub fn table_to_hash_map(items: &Vec<TableItem>, tab_origin_key: &str) -> (result: Result<
    Vec<HeaderValues>,
    TableError,
>)
    ensures
        match result {
            Ok(map) => {
                &&& forall|i: int| 0 <= i < items@.len() ==> usable(#[trigger] items@[i])
                &&& represents(map@, items@)
            },
            Err(error) => exists|at: int|
                first_unusable(items@, at) && describes(error, items@[at].value, tab_origin_key@),
        },
{
    let mut map: Vec<HeaderValues> = Vec::new();
    let mut k: usize = 0;
    while k < items.len()
        invariant
            k <= items@.len(),
            forall|i: int| 0 <= i < k ==> usable(#[trigger] items@[i]),
            represents(map@, items@.take(k as int)),
        decreases items@.len() - k,
    {
        let item = &items[k];
        let ghost before = items@.take(k as int);
        let ghost now = items@.take(k + 1);
        assert(now.drop_last() == before);
        match &item.value {
            LuaField::Unsupported | LuaField::Malformed(_) => {
                let error = error_of(&item.value, tab_origin_key);
                assert(first_unusable(items@, k as int));
                return Err(error);
            },
            _ => {},
        }
        let values = values_of_field(&item.value);
        let ghost old_map = map@;
        match position_of(&map, &item.key) {
            Some(at) => {
                map.set(at, HeaderValues { name: item.key.clone(), values });
                assert forall|key: Seq<char>|
                    (#[trigger] last_values(now, key)) is Some implies exists|i: int|
                    0 <= i < map@.len() && (#[trigger] map@[i]).name@ == key by {
                    if key == item.key@ {
                        assert(map@[at as int].name@ == key);
                    } else {
                        assert(last_values(before, key) is Some);
                        let i = choose|i: int|
                            0 <= i < old_map.len() && (#[trigger] old_map[i]).name@ == key;
                        assert(map@[i].name@ == key);
                    }
                }
                assert forall|i: int| 0 <= i < map@.len() implies last_values(
                    now,
                    (#[trigger] map@[i]).name@,
                ) == Some(texts(map@[i].values@)) by {
                    if i != at {
                        assert(old_map[i].name@ != old_map[at as int].name@);
                    }
                }
            },
            None => {
                map.push(HeaderValues { name: item.key.clone(), values });
                assert forall|key: Seq<char>|
                    (#[trigger] last_values(now, key)) is Some implies exists|i: int|
                    0 <= i < map@.len() && (#[trigger] map@[i]).name@ == key by {
                    if key == item.key@ {
                        assert(map@[old_map.len() as int].name@ == key);
                    } else {
                        assert(last_values(before, key) is Some);
                        let i = choose|i: int|
                            0 <= i < old_map.len() && (#[trigger] old_map[i]).name@ == key;
                        assert(map@[i].name@ == key);
                    }
                }
                assert forall|i: int| 0 <= i < map@.len() implies last_values(
                    now,
                    (#[trigger] map@[i]).name@,
                ) == Some(texts(map@[i].values@)) by {
                    if i < old_map.len() {
                        assert(old_map[i].name@ != item.key@);
                    }
                }
            },
        }
        k += 1;
    }
    assert(items@.take(k as int) == items@);
    Ok(map)
}

} // verus!
