//! The two records of the wire format: the header that opens the stream
//! and the block that a provider contributes to a tick.

use vstd::prelude::*;
use vstd::string::*;
use crate::error::{BarError, BarErrorView};
use crate::json::{
    encodable, fields_view, flag_text, keys_of, lookup, malformed, member_json, member_text,
    member_texts, object_json, object_text, optional_text, quote, rendered, required_count,
    required_flag, required_text, schema_error, take_count, take_flag, take_optional_text,
    take_text, Field, FieldView, Problem, Value, ValueView,
};
use crate::text::{decimal, decimal_text, joined};

verus! {

/// The header: the first record of the stream, written once.
#[derive(Clone, Copy, Debug, PartialEq, Eq, Structural)]
pub struct Version {
    version: u32,
    click_events: bool,
}

/// The mathematical value of a [`Version`].
pub struct VersionView {
    pub version: u32,
    pub click_events: bool,
}

impl View for Version {
    type V = VersionView;

    closed spec fn view(&self) -> VersionView {
        VersionView { version: self.version, click_events: self.click_events }
    }
}

/// The header that this generator sends: protocol version 1, click events
/// advertised.
pub open spec fn standard_header() -> VersionView {
    VersionView { version: 1, click_events: true }
}

/// The members of a header, in the order in which they are written.
pub open spec fn version_fields(v: VersionView) -> Seq<FieldView> {
    seq![
        FieldView { key: "version"@, value: ValueView::Count(v.version as u64) },
        FieldView { key: "click_events"@, value: ValueView::Flag(v.click_events) },
    ]
}

/// The header that a list of members stands for: `version` must be a
/// number that fits 32 bits, `click_events` a flag, each present once.
/// Other members are passed over.
pub open spec fn version_from(fields: Seq<FieldView>) -> Result<VersionView, BarErrorView> {
    match required_count(fields, "version"@) {
        Err(e) => Err(e),
        Ok(n) => if n > u32::MAX {
            Err(malformed(Problem::WrongType, "version"@))
        } else {
            match required_flag(fields, "click_events"@) {
                Err(e) => Err(e),
                Ok(b) => Ok(VersionView { version: n as u32, click_events: b }),
            }
        },
    }
}

impl Default for Version {
    /// The header that this generator sends.
    fn default() -> (r: Version)
        ensures
            r@ == standard_header(),
    {
        Version { version: 1, click_events: true }
    }
}

impl Version {
    /// The protocol version.
    pub fn version(&self) -> (r: u32)
        ensures
            r == self@.version,
    {
        self.version
    }

    /// Whether click events are advertised.
    pub fn click_events(&self) -> (r: bool)
        ensures
            r == self@.click_events,
    {
        self.click_events
    }

    /// The members of this header, in the order in which they are written.
    pub fn fields(&self) -> (r: Vec<Field>)
        ensures
            fields_view(r@) == version_fields(self@),
    {
        let mut out: Vec<Field> = Vec::new();
        out.push(Field { key: String::from_str("version"), value: Value::Count(self.version as u64) });
        out.push(
            Field { key: String::from_str("click_events"), value: Value::Flag(self.click_events) },
        );
        assert(fields_view(out@) =~= version_fields(self@));
        out
    }

    /// The header as one line of compact JSON. A header always has one.
    pub fn to_json(&self) -> (r: String)
        ensures
            rendered(version_fields(self@)) == Some(r@),
    {
        let number = decimal_text(self.version as u64);
        let mut members: Vec<String> = Vec::new();
        members.push(member_text("version", number.as_str()));
        members.push(member_text("click_events", flag_text(self.click_events)));
        proof {
            let ghost fields = version_fields(self@);
            assert(encodable(fields));
            assert(members.deep_view() =~= member_texts(fields));
        }
        object_text(&members)
    }

    /// Reads a header from the members of a JSON object.
    ///
    /// Fails with `MalformedData` where `version` or `click_events` is
    /// missing, given twice or of the wrong kind.
    pub fn from_fields(fields: &Vec<Field>) -> (r: Result<Version, BarError>)
        ensures
            match r {
                Ok(v) => version_from(fields_view(fields@)) == Ok::<VersionView, BarErrorView>(v@),
                Err(e) => version_from(fields_view(fields@)) == Err::<VersionView, BarErrorView>(
                    e@,
                ),
            },
    {
        let n = match take_count(fields, "version") {
            Ok(n) => n,
            Err(e) => {
                return Err(e);
            },
        };
        if n > u32::MAX as u64 {
            return Err(schema_error(Problem::WrongType, "version"));
        }
        let click_events = match take_flag(fields, "click_events") {
            Ok(b) => b,
            Err(e) => {
                return Err(e);
            },
        };
        Ok(Version { version: n as u32, click_events })
    }
}

/// A display block: what one provider contributes to a tick.
#[derive(Clone, Debug, PartialEq, Eq)]
pub struct ModuleOutput {
    /// The rendered content.
    pub full_text: String,
    /// The provider's stable identifier.
    pub name: String,
    /// Whether the host should highlight the block.
    pub urgent: bool,
    /// The colour of the block, where one is set.
    pub color: Option<String>,
}

/// The mathematical value of a [`ModuleOutput`].
pub struct ModuleOutputView {
    pub full_text: Seq<char>,
    pub name: Seq<char>,
    pub urgent: bool,
    pub color: Option<Seq<char>>,
}

impl View for ModuleOutput {
    type V = ModuleOutputView;

    open spec fn view(&self) -> ModuleOutputView {
        ModuleOutputView {
            full_text: self.full_text@,
            name: self.name@,
            urgent: self.urgent,
            color: self.color.deep_view(),
        }
    }
}

/// The members of a block, in the order in which they are written:
/// `full_text`, `name`, `urgent`, and `color` only where a colour is set.
pub open spec fn block_fields(b: ModuleOutputView) -> Seq<FieldView> {
    let always = seq![
        FieldView { key: "full_text"@, value: ValueView::Text(b.full_text) },
        FieldView { key: "name"@, value: ValueView::Text(b.name) },
        FieldView { key: "urgent"@, value: ValueView::Flag(b.urgent) },
    ];
    match b.color {
        Some(c) => always.push(FieldView { key: "color"@, value: ValueView::Text(c) }),
        None => always,
    }
}

/// The compact JSON text of a block: the object of its members.
pub open spec fn block_json(b: ModuleOutputView) -> Seq<char> {
    object_json(member_texts(block_fields(b)))
}

/// The block that a list of members stands for: `full_text` and `name`
/// must be strings and `urgent` a flag, each present once; `color` is a
/// string, `null` or absent. Other members are passed over.
pub open spec fn block_from(fields: Seq<FieldView>) -> Result<ModuleOutputView, BarErrorView> {
    match required_text(fields, "full_text"@) {
        Err(e) => Err(e),
        Ok(full_text) => match required_text(fields, "name"@) {
            Err(e) => Err(e),
            Ok(name) => match required_flag(fields, "urgent"@) {
                Err(e) => Err(e),
                Ok(urgent) => match optional_text(fields, "color"@) {
                    Err(e) => Err(e),
                    Ok(color) => Ok(ModuleOutputView { full_text, name, urgent, color }),
                },
            },
        },
    }
}

impl DeepView for ModuleOutput {
    type V = ModuleOutputView;

    open spec fn deep_view(&self) -> ModuleOutputView {
        self@
    }
}

impl ModuleOutput {
    /// A block of the provider `name`: empty text, not urgent, no colour.
    pub fn new(name: &str) -> (r: ModuleOutput)
        ensures
            r@ == (ModuleOutputView {
                full_text: Seq::empty(),
                name: name@,
                urgent: false,
                color: None,
            }),
    {
        ModuleOutput {
            name: String::from_str(name),
            full_text: String::new(),
            urgent: false,
            color: None,
        }
    }

    /// The same block with the given text.
    pub fn with_full_text(self, full_text: String) -> (r: ModuleOutput)
        ensures
            r@ == (ModuleOutputView { full_text: full_text@, ..self@ }),
    {
        let mut out = self;
        out.full_text = full_text;
        out
    }

    /// The same block with the given urgency.
    pub fn with_urgent(self, urgent: bool) -> (r: ModuleOutput)
        ensures
            r@ == (ModuleOutputView { urgent, ..self@ }),
    {
        let mut out = self;
        out.urgent = urgent;
        out
    }

    /// The same block with the given colour set.
    pub fn with_color(self, color: String) -> (r: ModuleOutput)
        ensures
            r@ == (ModuleOutputView { color: Some(color@), ..self@ }),
    {
        let mut out = self;
        out.color = Some(color);
        out
    }

    /// The members of this block, in the order in which they are written.
    pub fn fields(&self) -> (r: Vec<Field>)
        ensures
            fields_view(r@) == block_fields(self@),
    {
        let mut out: Vec<Field> = Vec::new();
        out.push(
            Field { key: String::from_str("full_text"), value: Value::Text(self.full_text.clone()) },
        );
        out.push(Field { key: String::from_str("name"), value: Value::Text(self.name.clone()) });
        out.push(Field { key: String::from_str("urgent"), value: Value::Flag(self.urgent) });
        match &self.color {
            Some(c) => {
                out.push(Field { key: String::from_str("color"), value: Value::Text(c.clone()) });
            },
            None => {},
        }
        assert(fields_view(out@) =~= block_fields(self@));
        out
    }

    /// The block as compact JSON: an object with `full_text`, `name` and
    /// `urgent`, and with `color` only where a colour is set. Every block
    /// has one.
    pub fn to_json(&self) -> (r: String)
        ensures
            r@ == block_json(self@),
            rendered(block_fields(self@)) == Some(r@),
    {
        let ghost fields = block_fields(self@);
        let full_text = quote(self.full_text.as_str());
        let name = quote(self.name.as_str());
        let mut members: Vec<String> = Vec::new();
        members.push(member_text("full_text", full_text.as_str()));
        members.push(member_text("name", name.as_str()));
        members.push(member_text("urgent", flag_text(self.urgent)));
        match &self.color {
            Some(c) => {
                let color = quote(c.as_str());
                members.push(member_text("color", color.as_str()));
            },
            None => {},
        }
        proof {
            assert(encodable(fields));
            assert(members.deep_view() =~= member_texts(fields));
        }
        object_text(&members)
    }

    /// Reads a block from the members of a JSON object.
    ///
    /// An absent `color`, or one that is `null`, leaves the colour unset.
    /// Fails with `MalformedData` where `full_text`, `name` or `urgent` is
    /// missing, or where one of the four is given twice or is of the
    /// wrong kind.
    pub fn from_fields(fields: &Vec<Field>) -> (r: Result<ModuleOutput, BarError>)
        ensures
            match r {
                Ok(b) => block_from(fields_view(fields@)) == Ok::<ModuleOutputView, BarErrorView>(
                    b@,
                ),
                Err(e) => block_from(fields_view(fields@)) == Err::<
                    ModuleOutputView,
                    BarErrorView,
                >(e@),
            },
    {
        let full_text = match take_text(fields, "full_text") {
            Ok(s) => s,
            Err(e) => {
                return Err(e);
            },
        };
        let name = match take_text(fields, "name") {
            Ok(s) => s,
            Err(e) => {
                return Err(e);
            },
        };
        let urgent = match take_flag(fields, "urgent") {
            Ok(b) => b,
            Err(e) => {
                return Err(e);
            },
        };
        let color = match take_optional_text(fields, "color") {
            Ok(c) => c,
            Err(e) => {
                return Err(e);
            },
        };
        Ok(ModuleOutput { full_text, name, urgent, color })
    }
}

/// The keys of the two records are six different words.
proof fn key_literals_differ()
    ensures
        "full_text"@ != "name"@,
        "full_text"@ != "urgent"@,
        "full_text"@ != "color"@,
        "name"@ != "urgent"@,
        "name"@ != "color"@,
        "urgent"@ != "color"@,
        "version"@ != "click_events"@,
{
    reveal_strlit("full_text");
    reveal_strlit("name");
    reveal_strlit("urgent");
    reveal_strlit("color");
    reveal_strlit("version");
    reveal_strlit("click_events");
    assert("full_text"@.len() == 9);
    assert("name"@.len() == 4);
    assert("urgent"@.len() == 6);
    assert("color"@.len() == 5);
    assert("version"@.len() == 7);
    assert("click_events"@.len() == 12);
}

/// A block's object has the key `color` if and only if the block's colour
/// is set; the other three keys it always has.
pub proof fn color_key_present_iff_set(b: ModuleOutputView)
    ensures
        keys_of(block_fields(b)).contains("color"@) <==> b.color is Some,
        keys_of(block_fields(b)).contains("full_text"@),
        keys_of(block_fields(b)).contains("name"@),
        keys_of(block_fields(b)).contains("urgent"@),
{
    key_literals_differ();
    let keys = keys_of(block_fields(b));
    assert(keys[0] == "full_text"@);
    assert(keys[1] == "name"@);
    assert(keys[2] == "urgent"@);
    if b.color is Some {
        assert(keys[3] == "color"@);
    } else {
        assert(keys.len() == 3);
    }
}

/// Reading a block back from its own members gives the block again, so
/// writing it a second time gives the same text as the first.
pub proof fn block_round_trip(b: ModuleOutputView)
    ensures
        block_from(block_fields(b)) == Ok::<ModuleOutputView, BarErrorView>(b),
        block_from(block_fields(b)) matches Ok(read) && block_json(read) == block_json(b),
        rendered(block_fields(b)) == Some(block_json(b)),
{
    key_literals_differ();
    reveal_with_fuel(lookup, 5);
    let f = block_fields(b);
    if b.color is Some {
        let f3 = f.drop_last();
        let f2 = f3.drop_last();
        let f1 = f2.drop_last();
        let f0 = f1.drop_last();
        assert(f0.len() == 0);
    } else {
        let f2 = f.drop_last();
        let f1 = f2.drop_last();
        let f0 = f1.drop_last();
        assert(f0.len() == 0);
    }
}

/// Reading a header back from its own members gives the header again.
pub proof fn header_round_trip(v: VersionView)
    ensures
        version_from(version_fields(v)) == Ok::<VersionView, BarErrorView>(v),
{
    key_literals_differ();
    reveal_with_fuel(lookup, 5);
    let f = version_fields(v);
    let f1 = f.drop_last();
    let f0 = f1.drop_last();
    assert(f0.len() == 0);
}

/// The header that this generator sends is the line
/// `{"version":1,"click_events":true}`.
pub proof fn standard_header_text()
    ensures
        rendered(version_fields(standard_header())) == Some(
            "{\"version\":1,\"click_events\":true}"@,
        ),
{
    let f = version_fields(standard_header());
    let m = member_texts(f);
    reveal_with_fuel(joined, 3);
    reveal_with_fuel(decimal, 2);
    reveal_strlit("{\"version\":1,\"click_events\":true}");
    reveal_strlit("version");
    reveal_strlit("click_events");
    reveal_strlit("true");
    reveal_strlit("\"");
    reveal_strlit("\":");
    reveal_strlit(",");
    reveal_strlit("{");
    reveal_strlit("}");
    assert(encodable(f));
    assert(m[0] =~= member_json("version"@, decimal(1)));
    assert(m[1] =~= member_json("click_events"@, "true"@));
    assert(m.drop_last().len() == 1);
    assert(joined(m, ","@) =~= m[0] + ","@ + m[1]);
    assert(object_json(m) =~= "{\"version\":1,\"click_events\":true}"@);
}

} // verus!
