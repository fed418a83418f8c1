use vstd::prelude::*;
use vstd::string::*;
use reqwest::header::{HeaderMap, HeaderValue};
use crate::text::texts;

verus! {

/// One header line with a readable value: a name and one of its values.
#[derive(Clone, Debug, PartialEq, Eq)]
pub struct HeaderLine {
    pub name: String,
    pub value: String,
}

/// A `HeaderLine` as a mathematical value.
pub struct HeaderLineView {
    pub name: Seq<char>,
    pub value: Seq<char>,
}

impl View for HeaderLine {
    type V = HeaderLineView;

    open spec fn view(&self) -> HeaderLineView {
        HeaderLineView { name: self.name@, value: self.value@ }
    }
}

/// What a header stands for in a table of headers: the value itself where the
/// header has one value, the list of its values where it has several.
#[derive(Clone, Debug, PartialEq, Eq)]
pub enum HeaderField {
    Single(String),
    Multiple(Vec<String>),
}

/// A `HeaderField` as a mathematical value.
pub enum HeaderFieldView {
    Single(Seq<char>),
    Multiple(Seq<Seq<char>>),
}

impl View for HeaderField {
    type V = HeaderFieldView;

    open spec fn view(&self) -> HeaderFieldView {
        match *self {
            HeaderField::Single(value) => HeaderFieldView::Single(value@),
            HeaderField::Multiple(values) => HeaderFieldView::Multiple(texts(values@)),
        }
    }
}

/// One row of a table of headers.
#[derive(Clone, Debug, PartialEq, Eq)]
pub struct HeaderEntry {
    pub name: String,
    pub field: HeaderField,
}

/// A `HeaderEntry` as a mathematical value.
pub struct HeaderEntryView {
    pub name: Seq<char>,
    pub field: HeaderFieldView,
}

impl View for HeaderEntry {
    type V = HeaderEntryView;

    open spec fn view(&self) -> HeaderEntryView {
        HeaderEntryView { name: self.name@, field: self.field@ }
    }
}

/// The lines of `lines` as mathematical values.
pub open spec fn lines_view(lines: Seq<HeaderLine>) -> Seq<HeaderLineView> {
    lines.map_values(|line: HeaderLine| line@)
}

/// The rows of `table` as mathematical values.
pub open spec fn table_view(table: Seq<HeaderEntry>) -> Seq<HeaderEntryView> {
    table.map_values(|entry: HeaderEntry| entry@)
}

/// The two headers that describe the encoded body of a message.
pub open spec fn is_content_header(name: Seq<char>) -> bool {
    name == "content-encoding"@ || name == "content-length"@
}

/// Whether a header of this name goes into the table.
pub open spec fn kept(name: Seq<char>, remove_content_headers: bool) -> bool {
    !(remove_content_headers && is_content_header(name))
}

/// The values that `lines` give to the header `name`, in their order.
pub open spec fn values_of(lines: Seq<HeaderLineView>, name: Seq<char>) -> Seq<Seq<char>>
    decreases lines.len(),
{
    if lines.len() == 0 {
        Seq::empty()
    } else if lines.last().name == name {
        values_of(lines.drop_last(), name).push(lines.last().value)
    } else {
        values_of(lines.drop_last(), name)
    }
}

/// The names of the headers of `lines` that are kept, each once, in the order
/// in which they first occur.
pub open spec fn distinct_names(lines: Seq<HeaderLineView>, remove_content_headers: bool) -> Seq<
    Seq<char>,
>
    decreases lines.len(),
{
    if lines.len() == 0 {
        Seq::empty()
    } else {
        let front = distinct_names(lines.drop_last(), remove_content_headers);
        let name = lines.last().name;
        if kept(name, remove_content_headers) && !front.contains(name) {
            front.push(name)
        } else {
            front
        }
    }
}

/// What the values of one header become in the table.
pub open spec fn field_of(values: Seq<Seq<char>>) -> HeaderFieldView {
    if values.len() == 1 {
        HeaderFieldView::Single(values[0])
    } else {
        HeaderFieldView::Multiple(values)
    }
}

/// The table of the headers of `lines`: one row for each name that is kept,
/// holding all the values of that name.
pub open spec fn grouped(lines: Seq<HeaderLineView>, remove_content_headers: bool) -> Seq<
    HeaderEntryView,
> {
    distinct_names(lines, remove_content_headers).map_values(
        |name: Seq<char>| HeaderEntryView { name, field: field_of(values_of(lines, name)) },
    )
}

/// Whether `names` holds `name`.
fn has_name(names: &Vec<String>, name: &String) -> (found: bool)
    ensures
        found == texts(names@).contains(name@),
{
    let mut i: usize = 0;
    while i < names.len()
        invariant
            i <= names@.len(),
            forall|j: int| 0 <= j < i ==> texts(names@)[j] != name@,
        decreases names@.len() - i,
    {
        if names[i] == *name {
            assert(texts(names@)[i as int] == name@);
            return true;
        }
        i += 1;
    }
    false
}

/// The values that `lines` give to the header `name`, in their order.
fn collect_values(lines: &Vec<HeaderLine>, name: &String) -> (values: Vec<String>)
    ensures
        texts(values@) == values_of(lines_view(lines@), name@),
{
    let mut values: Vec<String> = Vec::new();
    let mut k: usize = 0;
    while k < lines.len()
        invariant
            k <= lines@.len(),
            texts(values@) == values_of(lines_view(lines@).take(k as int), name@),
        decreases lines@.len() - k,
    {
        let ghost before = lines_view(lines@).take(k as int);
        let ghost now = lines_view(lines@).take(k + 1);
        assert(now.drop_last() == before);
        if lines[k].name == *name {
            values.push(lines[k].value.clone());
        }
        k += 1;
    }
    assert(lines_view(lines@).take(k as int) == lines_view(lines@));
    values
}

/// Turns the values of one header into its field in the table.
pub fn field_from_values(values: Vec<String>) -> (field: HeaderField)
    ensures
        field@ == field_of(texts(values@)),
{
    let mut values = values;
    if values.len() == 1 {
        match values.pop() {
            Some(value) => HeaderField::Single(value),
            None => HeaderField::Multiple(values),
        }
    } else {
        HeaderField::Multiple(values)
    }
}

/// No name occurs twice among the names of a table of headers.
pub proof fn distinct_names_has_no_duplicates(
    lines: Seq<HeaderLineView>,
    remove_content_headers: bool,
)
    ensures
        distinct_names(lines, remove_content_headers).no_duplicates(),
    decreases lines.len(),
{
    if lines.len() > 0 {
        distinct_names_has_no_duplicates(lines.drop_last(), remove_content_headers);
    }
}

/// A name has a row in the table exactly if a line carries it and it is kept;
/// the values of a name that has a row are at least one.
pub proof fn distinct_names_covers_kept_lines(
    lines: Seq<HeaderLineView>,
    remove_content_headers: bool,
    name: Seq<char>,
)
    ensures
        distinct_names(lines, remove_content_headers).contains(name) <==> (kept(
            name,
            remove_content_headers,
        ) && exists|k: int| 0 <= k < lines.len() && (#[trigger] lines[k]).name == name),
        distinct_names(lines, remove_content_headers).contains(name) ==> values_of(
            lines,
            name,
        ).len() >= 1,
    decreases lines.len(),
{
    let names = distinct_names(lines, remove_content_headers);
    if lines.len() > 0 {
        let front_lines = lines.drop_last();
        let front = distinct_names(front_lines, remove_content_headers);
        distinct_names_covers_kept_lines(front_lines, remove_content_headers, name);
        if front.contains(name) {
            let k = choose|k: int|
                0 <= k < front_lines.len() && (#[trigger] front_lines[k]).name == name;
            assert(lines[k].name == name);
            let j = choose|j: int| 0 <= j < front.len() && front[j] == name;
            assert(names[j] == name);
        } else if lines.last().name == name && kept(name, remove_content_headers) {
            assert(names[names.len() - 1] == name);
        } else {
            if names.contains(name) {
                let i = choose|i: int| 0 <= i < names.len() && names[i] == name;
                assert(i < front.len() ==> front[i] == name);
            }
            if exists|k: int| 0 <= k < lines.len() && (#[trigger] lines[k]).name == name {
                let k = choose|k: int| 0 <= k < lines.len() && (#[trigger] lines[k]).name == name;
                if k < front_lines.len() {
                    assert(front_lines[k].name == name);
                }
            }
        }
    }
}

/// The name of the `Content-Encoding` header as `hyper` spells it: the text of
/// `hyper::header::CONTENT_ENCODING`, which the `http` crate declares as
/// `content-encoding`.
#[verifier::external_body]
fn content_encoding_name() -> (name: String)
    ensures
        name@ == "content-encoding"@,
{
    hyper::header::CONTENT_ENCODING.as_str().to_owned()
}

/// The name of the `Content-Length` header as `hyper` spells it: the text of
/// `hyper::header::CONTENT_LENGTH`, which the `http` crate declares as
/// `content-length`.
#[verifier::external_body]
fn content_length_name() -> (name: String)
    ensures
        name@ == "content-length"@,
{
    hyper::header::CONTENT_LENGTH.as_str().to_owned()
}

/// Whether `name` is one of the two headers that describe the encoded body.
pub fn is_content_header_name(name: &String) -> (b: bool)
    ensures
        b == is_content_header(name@),
{
    *name == content_encoding_name() || *name == content_length_name()
}

/// The names of the headers of `lines` that are kept, each once, in the order
/// in which they first occur.
fn distinct_header_names(lines: &Vec<HeaderLine>, remove_content_headers: bool) -> (names: Vec<
    String,
>)
    ensures
        texts(names@) == distinct_names(lines_view(lines@), remove_content_headers),
{
    let mut names: Vec<String> = Vec::new();
    let mut k: usize = 0;
    while k < lines.len()
        invariant
            k <= lines@.len(),
            texts(names@) == distinct_names(
                lines_view(lines@).take(k as int),
                remove_content_headers,
            ),
        decreases lines@.len() - k,
    {
        let ghost before = lines_view(lines@).take(k as int);
        let ghost now = lines_view(lines@).take(k + 1);
        assert(now.drop_last() == before);
        let name = &lines[k].name;
        let dropped = remove_content_headers && is_content_header_name(name);
        if !dropped && !has_name(&names, name) {
            names.push(name.clone());
        }
        k += 1;
    }
    assert(lines_view(lines@).take(k as int) == lines_view(lines@));
    names
}

/// Builds the table of the headers of `lines`. Each name that is kept gets one
/// row, in the order in which the names first occur; the row holds the one
/// value of the name, or the list of its values in their order. With
/// `remove_content_headers` the headers `content-encoding` and
/// `content-length` are left out.
pub fn group_headers(lines: &Vec<HeaderLine>, remove_content_headers: bool) -> (table: Vec<
    HeaderEntry,
>)
    ensures
        table_view(table@) == grouped(lines_view(lines@), remove_content_headers),
{
    let names = distinct_header_names(lines, remove_content_headers);
    let mut table: Vec<HeaderEntry> = Vec::new();
    let mut i: usize = 0;
    while i < names.len()
        invariant
            i <= names@.len(),
            texts(names@) == distinct_names(lines_view(lines@), remove_content_headers),
            table_view(table@) == grouped(lines_view(lines@), remove_content_headers).take(
                i as int,
            ),
        decreases names@.len() - i,
    {
        let values = collect_values(lines, &names[i]);
        let field = field_from_values(values);
        let ghost old_table = table@;
        table.push(HeaderEntry { name: names[i].clone(), field });
        assert(table_view(table@) == table_view(old_table).push(table@[i as int]@));
        i += 1;
    }
    table
}

/// One line of a header map as it is stored: the value is text only where
/// every byte of it is a visible ASCII character or a tab.
#[derive(Clone, Debug, PartialEq, Eq)]
pub struct RawHeader {
    pub name: String,
    pub value: Option<String>,
}

impl View for RawHeader {
    type V = (Seq<char>, Option<Seq<char>>);

    open spec fn view(&self) -> (Seq<char>, Option<Seq<char>>) {
        (
            self.name@,
            match self.value {
                Some(text) => Some(text@),
                None => None,
            },
        )
    }
}

/// The lines of `raw` as mathematical values.
pub open spec fn raw_view(raw: Seq<RawHeader>) -> Seq<(Seq<char>, Option<Seq<char>>)> {
    raw.map_values(|line: RawHeader| line@)
}

/// Every value among `raw` is text.
pub open spec fn all_readable(raw: Seq<(Seq<char>, Option<Seq<char>>)>) -> bool {
    forall|i: int| 0 <= i < raw.len() ==> (#[trigger] raw[i]).1 is Some
}

/// The lines of `raw` with their values as text.
pub open spec fn readable(raw: Seq<(Seq<char>, Option<Seq<char>>)>) -> Seq<HeaderLineView>
    recommends
        all_readable(raw),
{
    raw.map_values(
        |line: (Seq<char>, Option<Seq<char>>)|
            HeaderLineView { name: line.0, value: line.1->Some_0 },
    )
}

/// Takes the values of `raw` as text, if every one of them is text.
pub fn readable_lines(raw: &Vec<RawHeader>) -> (lines: Option<Vec<HeaderLine>>)
    ensures
        lines is Some <==> all_readable(raw_view(raw@)),
        lines matches Some(l) ==> lines_view(l@) == readable(raw_view(raw@)),
{
    let mut lines: Vec<HeaderLine> = Vec::new();
    let mut i: usize = 0;
    while i < raw.len()
        invariant
            i <= raw@.len(),
            forall|j: int| 0 <= j < i ==> (#[trigger] raw_view(raw@)[j]).1 is Some,
            lines_view(lines@) == readable(raw_view(raw@)).take(i as int),
        decreases raw@.len() - i,
    {
        assert(raw_view(raw@)[i as int] == raw@[i as int]@);
        match &raw[i].value {
            Some(value) => {
                let ghost before = lines@;
                lines.push(HeaderLine { name: raw[i].name.clone(), value: value.clone() });
                assert(lines_view(lines@) == lines_view(before).push(lines@[i as int]@));
            },
            None => {
                return None;
            },
        }
        i += 1;
    }
    Some(lines)
}

/// What a header map holds: its lines in the order in which the map yields
/// them, each with the header's name and, where the value is text, the value.
pub uninterp spec fn header_map_lines(headers: HeaderMap<HeaderValue>) -> Seq<
    (Seq<char>, Option<Seq<char>>),
>;

/// Reads the lines out of a header map with `HeaderMap::iter`, which yields a
/// name once for each of its values. Each line is given as the name's text
/// (`HeaderName::as_str`) and the value's text (`HeaderValue::to_str`), which
/// exists only where the value is made of visible ASCII characters and tabs.
#[verifier::external_body]
fn header_lines(headers: &HeaderMap<HeaderValue>) -> (raw: Vec<RawHeader>)
    ensures
        raw_view(raw@) == header_map_lines(*headers),
{
    headers.iter().map(
        |(name, value)|
            RawHeader {
                name: name.as_str().to_owned(),
                value: value.to_str().ok().map(str::to_owned),
            },
    ).collect()
}

/// Builds the table of the headers of a header map, as `group_headers` does
/// of its lines, or nothing if a value of the map is not text.
pub fn try_header_map_to_table(headers: &HeaderMap<HeaderValue>, remove_content_headers: bool) -> (table:
    Option<Vec<HeaderEntry>>)
    ensures
        table is Some <==> all_readable(header_map_lines(*headers)),
        table matches Some(t) ==> table_view(t@) == grouped(
            readable(header_map_lines(*headers)),
            remove_content_headers,
        ),
{
    if readable_lines(&header_lines(headers)).is_some() {
        Some(header_map_to_table(headers, remove_content_headers))
    } else {
        None
    }
}

/// Builds the table of the headers of a header map whose values are all text:
/// one row for each name, holding its one value or the list of its values.
/// With `remove_content_headers` the headers `content-encoding` and
/// `content-length` are left out.
pub fn header_map_to_table(headers: &HeaderMap<HeaderValue>, remove_content_headers: bool) -> (table:
    Vec<HeaderEntry>)
    requires
        all_readable(header_map_lines(*headers)),
    ensures
        table_view(table@) == grouped(readable(header_map_lines(*headers)), remove_content_headers),
{
    match readable_lines(&header_lines(headers)) {
        Some(lines) => group_headers(&lines, remove_content_headers),
        None => unreached(),
    }
}

/// `reqwest::header::HeaderMap`, taken as it is.
#[verifier::external_type_specification]
#[verifier::external_body]
#[verifier::reject_recursive_types(T)]
pub struct ExHeaderMap<T>(HeaderMap<T>);

/// `reqwest::header::HeaderValue`, taken as it is.
#[verifier::external_type_specification]
#[verifier::external_body]
pub struct ExHeaderValue(HeaderValue);

} // verus!
