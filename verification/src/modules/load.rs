//! The system load: the averages over the last minute and the last five
//! minutes, in a colour that warns of a high load.

use vstd::prelude::*;
use vstd::string::*;
use crate::error::{BarError, BarErrorView, ErrorKind};
use crate::message::{ModuleOutput, ModuleOutputView};

verus! {

/// The file from which the load averages are read.
pub const LOAD_FILE: &'static str = "/proc/loadavg";

/// The colour of a load that is in order.
pub const OK_COLOR: &'static str = "#FFFFFF";

/// The colour of a load that is too high.
pub const CRIT_COLOR: &'static str = "#FF0000";

/// The place of the first space of `s` at or after `from`, or the length
/// of `s` where there is none.
pub open spec fn space_from(s: Seq<char>, from: int) -> int
    decreases s.len() - from,
{
    if from < 0 || from >= s.len() {
        s.len() as int
    } else if s[from] == ' ' {
        from
    } else {
        space_from(s, from + 1)
    }
}

/// The error for a load file without two fields.
pub open spec fn no_load_fields() -> BarErrorView {
    BarErrorView { kind: ErrorKind::MalformedData, message: "Invalid data for load average"@ }
}

/// The first two fields of the content of the load file, which single
/// spaces separate: the texts of the two averages. A content without a
/// space has no second field and is malformed.
pub open spec fn load_fields_of(raw: Seq<char>) -> Result<(Seq<char>, Seq<char>), BarErrorView> {
    let first_end = space_from(raw, 0);
    if first_end >= raw.len() {
        Err(no_load_fields())
    } else {
        Ok((raw.subrange(0, first_end), raw.subrange(first_end + 1, space_from(raw, first_end + 1))))
    }
}

/// The block of the load: the text, urgent or not, in the colour that
/// goes with the urgency.
pub open spec fn load_block(
    ok_color: Seq<char>,
    critical_color: Seq<char>,
    is_urgent: bool,
    text: Seq<char>,
) -> ModuleOutputView {
    ModuleOutputView {
        full_text: text,
        name: "load"@,
        urgent: is_urgent,
        color: Some(
            if is_urgent {
                critical_color
            } else {
                ok_color
            },
        ),
    }
}

/// The place of the first space of `s` at or after `from`, or the number
/// of characters of `s` where there is none.
pub fn find_space(s: &str, from: usize) -> (r: usize)
    ensures
        r == space_from(s@, from as int),
        r <= s@.len(),
        from <= s@.len() ==> from <= r,
{
    let n = s.unicode_len();
    if from >= n {
        return n;
    }
    let mut i: usize = from;
    while i < n
        invariant
            from <= i <= n,
            n == s@.len(),
            space_from(s@, from as int) == space_from(s@, i as int),
        decreases n - i,
    {
        if s.get_char(i) == ' ' {
            return i;
        }
        i += 1;
    }
    i
}

/// Splits the content of the load file at its single spaces and returns
/// the first two fields.
///
/// Fails with `MalformedData` exactly where the content holds no space.
pub fn load_fields(raw: &str) -> (r: Result<(String, String), BarError>)
    ensures
        match r {
            Ok((one, five)) => load_fields_of(raw@) == Ok::<(Seq<char>, Seq<char>), BarErrorView>(
                (one@, five@),
            ),
            Err(e) => load_fields_of(raw@) == Err::<(Seq<char>, Seq<char>), BarErrorView>(e@),
        },
{
    let n = raw.unicode_len();
    let first_end = find_space(raw, 0);
    if first_end >= n {
        return Err(BarError::new(ErrorKind::MalformedData, "Invalid data for load average"));
    }
    let second_end = find_space(raw, first_end + 1);
    let one = String::from_str(raw.substring_char(0, first_end));
    let five = String::from_str(raw.substring_char(first_end + 1, second_end));
    Ok((one, five))
}

/// The load provider's settings: the two colours. The threshold above
/// which a load counts as urgent is a fraction and is kept by the caller,
/// who compares and hands the verdict to [`Load::report`].
pub struct Load {
    ok_color: String,
    critical_color: String,
}

impl Load {
    /// The colour of a load that is in order.
    pub closed spec fn spec_ok_color(&self) -> Seq<char> {
        self.ok_color@
    }

    /// The colour of a load that is too high.
    pub closed spec fn spec_critical_color(&self) -> Seq<char> {
        self.critical_color@
    }

    /// The settings with the usual colours: white, and red for a high
    /// load.
    pub fn new() -> (r: Load)
        ensures
            r.spec_ok_color() == OK_COLOR@,
            r.spec_critical_color() == CRIT_COLOR@,
    {
        Load { ok_color: String::from_str(OK_COLOR), critical_color: String::from_str(CRIT_COLOR) }
    }

    /// The settings on the heap.
    pub fn boxed(self) -> (r: Box<Self>)
        ensures
            *r == self,
    {
        Box::new(self)
    }

    /// The same settings with another colour for a load that is in order.
    pub fn with_ok_color(self, ok_color: String) -> (r: Load)
        ensures
            r.spec_ok_color() == ok_color@,
            r.spec_critical_color() == self.spec_critical_color(),
    {
        let mut out = self;
        out.ok_color = ok_color;
        out
    }

    /// The same settings with another colour for a load that is too high.
    pub fn with_critical_color(self, crit_color: String) -> (r: Load)
        ensures
            r.spec_ok_color() == self.spec_ok_color(),
            r.spec_critical_color() == crit_color@,
    {
        let mut out = self;
        out.critical_color = crit_color;
        out
    }

    /// The colour of a load that is in order.
    pub fn ok_color(&self) -> (r: &str)
        ensures
            r@ == self.spec_ok_color(),
    {
        self.ok_color.as_str()
    }

    /// The colour of a load that is too high.
    pub fn critical_color(&self) -> (r: &str)
        ensures
            r@ == self.spec_critical_color(),
    {
        self.critical_color.as_str()
    }

    /// The block of the load for the given text: named `load`, urgent as
    /// told, in the critical colour where it is urgent and in the other
    /// where it is not.
    pub fn report(&self, is_urgent: bool, text: String) -> (r: ModuleOutput)
        ensures
            r@ == load_block(self.spec_ok_color(), self.spec_critical_color(), is_urgent, text@),
    {
        let color = if is_urgent {
            self.critical_color.clone()
        } else {
            self.ok_color.clone()
        };
        ModuleOutput::new("load").with_urgent(is_urgent).with_full_text(text).with_color(color)
    }
}

} // verus!
