//! The JSON objects of the wire format: their members as values, and
//! their text.

use vstd::pervasive::unreached;
use vstd::prelude::*;
use vstd::string::*;
use crate::error::{BarError, BarErrorView, ErrorKind};
use crate::text::{decimal, decimal_text, digit_char, join, joined};

verus! {

/// The error type of `serde_json`.
#[verifier::external_type_specification]
#[verifier::external_body]
pub struct ExJsonError(serde_json::Error);

/// The lower-case hexadecimal digit of a number below sixteen.
pub open spec fn hex_digit(d: int) -> char {
    if d < 10 {
        digit_char(d as nat)
    } else if d == 10 {
        'a'
    } else if d == 11 {
        'b'
    } else if d == 12 {
        'c'
    } else if d == 13 {
        'd'
    } else if d == 14 {
        'e'
    } else {
        'f'
    }
}

/// What stands for one character inside a JSON string: a backslash and a
/// letter for the quote, the backslash and five control characters,
/// `\u00` and two hexadecimal digits for the other characters below the
/// space, and the character itself for every other.
pub open spec fn escaped(c: char) -> Seq<char> {
    if c == '"' {
        seq!['\\', '"']
    } else if c == '\\' {
        seq!['\\', '\\']
    } else if c == '\u{8}' {
        seq!['\\', 'b']
    } else if c == '\u{c}' {
        seq!['\\', 'f']
    } else if c == '\n' {
        seq!['\\', 'n']
    } else if c == '\r' {
        seq!['\\', 'r']
    } else if c == '\t' {
        seq!['\\', 't']
    } else if (c as int) < 0x20 {
        seq!['\\', 'u', '0', '0', hex_digit((c as int) / 16), hex_digit((c as int) % 16)]
    } else {
        seq![c]
    }
}

/// The characters of a text, each as it stands inside a JSON string.
pub open spec fn escaped_text(s: Seq<char>) -> Seq<char>
    decreases s.len(),
{
    if s.len() == 0 {
        Seq::empty()
    } else {
        escaped_text(s.drop_last()) + escaped(s.last())
    }
}

/// The JSON literal of a string: its escaped characters between two
/// quotes.
pub open spec fn json_literal(s: Seq<char>) -> Seq<char> {
    seq!['"'] + escaped_text(s) + seq!['"']
}

/// Calls `serde_json::to_string` on a string. It writes the literal into
/// memory, so it reports no error, and the text is the JSON literal of
/// `s` as [`json_literal`] states it.
#[verifier::external_body]
fn encode_string(s: &str) -> (r: Result<String, serde_json::Error>)
    ensures
        match r {
            Ok(t) => t@ == json_literal(s@),
            Err(_) => false,
        },
{
    serde_json::to_string(s)
}

/// The value of a member of a JSON object, as far as the wire format
/// reads it.
#[derive(Clone, Debug, PartialEq, Eq)]
pub enum Value {
    /// `null`.
    Null,
    /// `true` or `false`.
    Flag(bool),
    /// A non-negative whole number.
    Count(u64),
    /// A string.
    Text(String),
    /// Any other value: the format neither reads nor writes it.
    Other,
}

/// A member of a JSON object: a key and its value.
#[derive(Clone, Debug, PartialEq, Eq)]
pub struct Field {
    pub key: String,
    pub value: Value,
}

/// The mathematical value of a [`Value`].
pub enum ValueView {
    Null,
    Flag(bool),
    Count(u64),
    Text(Seq<char>),
    Other,
}

/// The mathematical value of a [`Field`].
pub struct FieldView {
    pub key: Seq<char>,
    pub value: ValueView,
}

impl View for Value {
    type V = ValueView;

    open spec fn view(&self) -> ValueView {
        match self {
            Value::Null => ValueView::Null,
            Value::Flag(b) => ValueView::Flag(*b),
            Value::Count(n) => ValueView::Count(*n),
            Value::Text(s) => ValueView::Text(s@),
            Value::Other => ValueView::Other,
        }
    }
}

impl View for Field {
    type V = FieldView;

    open spec fn view(&self) -> FieldView {
        FieldView { key: self.key@, value: self.value@ }
    }
}

/// The members of a list of fields, as mathematical values.
pub open spec fn fields_view(fields: Seq<Field>) -> Seq<FieldView> {
    Seq::new(fields.len(), |i: int| fields[i]@)
}

/// The JSON text of a flag.
pub open spec fn flag_json(b: bool) -> Seq<char> {
    if b {
        "true"@
    } else {
        "false"@
    }
}

/// The JSON text of a value, or `None` where it has none.
pub open spec fn value_json(v: ValueView) -> Option<Seq<char>> {
    match v {
        ValueView::Null => Some("null"@),
        ValueView::Flag(b) => Some(flag_json(b)),
        ValueView::Count(n) => Some(decimal(n as nat)),
        ValueView::Text(s) => Some(json_literal(s)),
        ValueView::Other => None,
    }
}

/// The text of a member whose value has the text `value`: the key in
/// quotes, a colon, the value.
pub open spec fn member_json(key: Seq<char>, value: Seq<char>) -> Seq<char> {
    "\""@ + key + "\":"@ + value
}

/// Whether every value of the fields has a JSON text.
pub open spec fn encodable(fields: Seq<FieldView>) -> bool {
    forall|i: int| 0 <= i < fields.len() ==> (#[trigger] value_json(fields[i].value)) is Some
}

/// The texts of the members of an object with these fields.
pub open spec fn member_texts(fields: Seq<FieldView>) -> Seq<Seq<char>> {
    Seq::new(
        fields.len(),
        |i: int| member_json(fields[i].key, value_json(fields[i].value).unwrap()),
    )
}

/// The text of an object with the given member texts.
pub open spec fn object_json(members: Seq<Seq<char>>) -> Seq<char> {
    "{"@ + joined(members, ","@) + "}"@
}

/// The text of an array with the given element texts.
pub open spec fn array_json(items: Seq<Seq<char>>) -> Seq<char> {
    "["@ + joined(items, ","@) + "]"@
}

/// The compact JSON text of an object with these fields, in their order,
/// or `None` where a value has no text.
pub open spec fn rendered(fields: Seq<FieldView>) -> Option<Seq<char>> {
    if encodable(fields) {
        Some(object_json(member_texts(fields)))
    } else {
        None
    }
}

/// The keys of the fields, in their order.
pub open spec fn keys_of(fields: Seq<FieldView>) -> Seq<Seq<char>> {
    Seq::new(fields.len(), |i: int| fields[i].key)
}

/// The JSON text of a flag.
pub fn flag_text(b: bool) -> (r: &'static str)
    ensures
        r@ == flag_json(b),
{
    if b {
        "true"
    } else {
        "false"
    }
}

/// The JSON literal of a string, quotes and escapes included.
pub fn quote(s: &str) -> (r: String)
    ensures
        r@ == json_literal(s@),
{
    match encode_string(s) {
        Ok(t) => t,
        Err(_) => unreached(),
    }
}

/// The text of a member: the key in quotes, a colon, and the text of its
/// value.
pub fn member_text(key: &str, value: &str) -> (r: String)
    ensures
        r@ == member_json(key@, value@),
{
    let mut out = String::from_str("\"");
    out.append(key);
    out.append("\":");
    out.append(value);
    out
}

/// The text of an object with the given member texts.
pub fn object_text(members: &Vec<String>) -> (r: String)
    ensures
        r@ == object_json(members.deep_view()),
{
    let mut out = String::from_str("{");
    let body = join(members, ",");
    out.append(body.as_str());
    out.append("}");
    out
}

/// The text of an array with the given element texts.
pub fn array_text(items: &Vec<String>) -> (r: String)
    ensures
        r@ == array_json(items.deep_view()),
{
    let mut out = String::from_str("[");
    let body = join(items, ",");
    out.append(body.as_str());
    out.append("]");
    out
}

/// The JSON text of a value.
///
/// Fails with `SerializationFailure` exactly where the value has no text:
/// for `Other`.
pub fn value_text(v: &Value) -> (r: Result<String, BarError>)
    ensures
        match r {
            Ok(t) => value_json(v@) == Some(t@),
            Err(e) => value_json(v@) is None && e.kind == ErrorKind::SerializationFailure,
        },
{
    match v {
        Value::Null => Ok(String::from_str("null")),
        Value::Flag(b) => Ok(String::from_str(flag_text(*b))),
        Value::Count(n) => Ok(decimal_text(*n)),
        Value::Text(s) => Ok(quote(s.as_str())),
        Value::Other => Err(BarError::new(ErrorKind::SerializationFailure, "value has no JSON text")),
    }
}

/// What a search for a key among the fields of an object finds.
pub enum Lookup {
    /// No field has the key.
    Absent,
    /// Exactly one field has the key, with this value.
    Unique(ValueView),
    /// More than one field has the key.
    Repeated,
}

/// What a search for `key` among `fields` finds.
pub open spec fn lookup(fields: Seq<FieldView>, key: Seq<char>) -> Lookup
    decreases fields.len(),
{
    if fields.len() == 0 {
        Lookup::Absent
    } else {
        let before = lookup(fields.drop_last(), key);
        if fields.last().key == key {
            match before {
                Lookup::Absent => Lookup::Unique(fields.last().value),
                _ => Lookup::Repeated,
            }
        } else {
            before
        }
    }
}

/// What is wrong with a field that a record needs.
#[derive(Clone, Copy, Debug, PartialEq, Eq, Structural)]
pub enum Problem {
    /// No field has the key.
    Missing,
    /// More than one field has the key.
    Duplicate,
    /// The value is not of the kind that the record needs.
    WrongType,
}

/// The words for a problem with the field `key`.
pub open spec fn problem_text(problem: Problem, key: Seq<char>) -> Seq<char> {
    match problem {
        Problem::Missing => "missing field `"@ + key + "`"@,
        Problem::Duplicate => "duplicate field `"@ + key + "`"@,
        Problem::WrongType => "invalid type for field `"@ + key + "`"@,
    }
}

/// The error for a problem with the field `key`: malformed data.
pub open spec fn malformed(problem: Problem, key: Seq<char>) -> BarErrorView {
    BarErrorView { kind: ErrorKind::MalformedData, message: problem_text(problem, key) }
}

/// The string that a record reads from its required field `key`.
pub open spec fn required_text(fields: Seq<FieldView>, key: Seq<char>) -> Result<
    Seq<char>,
    BarErrorView,
> {
    match lookup(fields, key) {
        Lookup::Absent => Err(malformed(Problem::Missing, key)),
        Lookup::Repeated => Err(malformed(Problem::Duplicate, key)),
        Lookup::Unique(ValueView::Text(s)) => Ok(s),
        Lookup::Unique(_) => Err(malformed(Problem::WrongType, key)),
    }
}

/// The flag that a record reads from its required field `key`.
pub open spec fn required_flag(fields: Seq<FieldView>, key: Seq<char>) -> Result<
    bool,
    BarErrorView,
> {
    match lookup(fields, key) {
        Lookup::Absent => Err(malformed(Problem::Missing, key)),
        Lookup::Repeated => Err(malformed(Problem::Duplicate, key)),
        Lookup::Unique(ValueView::Flag(b)) => Ok(b),
        Lookup::Unique(_) => Err(malformed(Problem::WrongType, key)),
    }
}

/// The number that a record reads from its required field `key`.
pub open spec fn required_count(fields: Seq<FieldView>, key: Seq<char>) -> Result<
    u64,
    BarErrorView,
> {
    match lookup(fields, key) {
        Lookup::Absent => Err(malformed(Problem::Missing, key)),
        Lookup::Repeated => Err(malformed(Problem::Duplicate, key)),
        Lookup::Unique(ValueView::Count(n)) => Ok(n),
        Lookup::Unique(_) => Err(malformed(Problem::WrongType, key)),
    }
}

/// The string that a record reads from its optional field `key`: none
/// where the field is absent or `null`.
pub open spec fn optional_text(fields: Seq<FieldView>, key: Seq<char>) -> Result<
    Option<Seq<char>>,
    BarErrorView,
> {
    match lookup(fields, key) {
        Lookup::Absent => Ok(None),
        Lookup::Repeated => Err(malformed(Problem::Duplicate, key)),
        Lookup::Unique(ValueView::Null) => Ok(None),
        Lookup::Unique(ValueView::Text(s)) => Ok(Some(s)),
        Lookup::Unique(_) => Err(malformed(Problem::WrongType, key)),
    }
}

/// What [`find`] returns: as [`Lookup`], with the value borrowed.
pub enum Found<'a> {
    Absent,
    Unique(&'a Value),
    Repeated,
}

impl<'a> View for Found<'a> {
    type V = Lookup;

    open spec fn view(&self) -> Lookup {
        match self {
            Found::Absent => Lookup::Absent,
            Found::Unique(v) => Lookup::Unique(v@),
            Found::Repeated => Lookup::Repeated,
        }
    }
}

/// Searches the fields for `key`.
pub fn find<'a>(fields: &'a Vec<Field>, key: &str) -> (r: Found<'a>)
    ensures
        r@ == lookup(fields_view(fields@), key@),
{
    let wanted = String::from_str(key);
    let mut state: Found<'a> = Found::Absent;
    let mut i: usize = 0;
    while i < fields.len()
        invariant
            i <= fields.len(),
            wanted@ == key@,
            state@ == lookup(fields_view(fields@).take(i as int), key@),
        decreases fields.len() - i,
    {
        proof {
            let ghost all = fields_view(fields@);
            assert(all.take(i + 1).drop_last() =~= all.take(i as int));
            assert(all.take(i + 1).last() == fields[i as int]@);
        }
        if fields[i].key == wanted {
            state = match state {
                Found::Absent => Found::Unique(&fields[i].value),
                _ => Found::Repeated,
            };
        }
        i += 1;
    }
    proof {
        let ghost all = fields_view(fields@);
        assert(all.take(fields.len() as int) =~= all);
    }
    state
}

/// The error for a problem with the field `key`.
pub fn schema_error(problem: Problem, key: &str) -> (r: BarError)
    ensures
        r@ == malformed(problem, key@),
{
    let mut message = match problem {
        Problem::Missing => String::from_str("missing field `"),
        Problem::Duplicate => String::from_str("duplicate field `"),
        Problem::WrongType => String::from_str("invalid type for field `"),
    };
    message.append(key);
    message.append("`");
    BarError { kind: ErrorKind::MalformedData, message }
}

/// Reads the string of the required field `key`.
pub fn take_text(fields: &Vec<Field>, key: &str) -> (r: Result<String, BarError>)
    ensures
        match r {
            Ok(s) => required_text(fields_view(fields@), key@) == Ok::<Seq<char>, BarErrorView>(s@),
            Err(e) => required_text(fields_view(fields@), key@) == Err::<Seq<char>, BarErrorView>(e@),
        },
{
    match find(fields, key) {
        Found::Absent => Err(schema_error(Problem::Missing, key)),
        Found::Repeated => Err(schema_error(Problem::Duplicate, key)),
        Found::Unique(Value::Text(s)) => Ok(s.clone()),
        Found::Unique(_) => Err(schema_error(Problem::WrongType, key)),
    }
}

/// Reads the flag of the required field `key`.
pub fn take_flag(fields: &Vec<Field>, key: &str) -> (r: Result<bool, BarError>)
    ensures
        match r {
            Ok(b) => required_flag(fields_view(fields@), key@) == Ok::<bool, BarErrorView>(b),
            Err(e) => required_flag(fields_view(fields@), key@) == Err::<bool, BarErrorView>(e@),
        },
{
    match find(fields, key) {
        Found::Absent => Err(schema_error(Problem::Missing, key)),
        Found::Repeated => Err(schema_error(Problem::Duplicate, key)),
        Found::Unique(Value::Flag(b)) => Ok(*b),
        Found::Unique(_) => Err(schema_error(Problem::WrongType, key)),
    }
}

/// Reads the number of the required field `key`.
pub fn take_count(fields: &Vec<Field>, key: &str) -> (r: Result<u64, BarError>)
    ensures
        match r {
            Ok(n) => required_count(fields_view(fields@), key@) == Ok::<u64, BarErrorView>(n),
            Err(e) => required_count(fields_view(fields@), key@) == Err::<u64, BarErrorView>(e@),
        },
{
    match find(fields, key) {
        Found::Absent => Err(schema_error(Problem::Missing, key)),
        Found::Repeated => Err(schema_error(Problem::Duplicate, key)),
        Found::Unique(Value::Count(n)) => Ok(*n),
        Found::Unique(_) => Err(schema_error(Problem::WrongType, key)),
    }
}

/// Reads the string of the optional field `key`.
pub fn take_optional_text(fields: &Vec<Field>, key: &str) -> (r: Result<Option<String>, BarError>)
    ensures
        match r {
            Ok(s) => optional_text(fields_view(fields@), key@) == Ok::<
                Option<Seq<char>>,
                BarErrorView,
            >(s.deep_view()),
            Err(e) => optional_text(fields_view(fields@), key@) == Err::<
                Option<Seq<char>>,
                BarErrorView,
            >(e@),
        },
{
    match find(fields, key) {
        Found::Absent => Ok(None),
        Found::Repeated => Err(schema_error(Problem::Duplicate, key)),
        Found::Unique(Value::Null) => Ok(None),
        Found::Unique(Value::Text(s)) => Ok(Some(s.clone())),
        Found::Unique(_) => Err(schema_error(Problem::WrongType, key)),
    }
}

} // verus!
