//! The battery: what its attribute files hold, its charge state, and its
//! block.

use vstd::prelude::*;
use vstd::string::*;
use crate::error::{BarError, BarErrorView, ErrorKind};
use crate::message::{ModuleOutput, ModuleOutputView};
use crate::text::{signed_decimal, signed_decimal_text};

verus! {

/// Whether the character is white space, as Unicode's property
/// `White_Space` has it.
pub open spec fn is_white_space(c: char) -> bool {
    ||| '\u{9}' <= c <= '\u{d}'
    ||| c == ' '
    ||| c == '\u{85}'
    ||| c == '\u{a0}'
    ||| c == '\u{1680}'
    ||| '\u{2000}' <= c <= '\u{200a}'
    ||| c == '\u{2028}'
    ||| c == '\u{2029}'
    ||| c == '\u{202f}'
    ||| c == '\u{205f}'
    ||| c == '\u{3000}'
}

/// The place of the first character of `s` at or after `from` that is no
/// white space, or the length of `s` where there is none.
pub open spec fn solid_from(s: Seq<char>, from: int) -> int
    decreases s.len() - from,
{
    if from < 0 || from >= s.len() {
        s.len() as int
    } else if !is_white_space(s[from]) {
        from
    } else {
        solid_from(s, from + 1)
    }
}

/// The place behind the last character of `s` before `to` that is no
/// white space, or zero where there is none.
pub open spec fn solid_until(s: Seq<char>, to: int) -> int
    decreases to,
{
    if to <= 0 || to > s.len() {
        0
    } else if !is_white_space(s[to - 1]) {
        to
    } else {
        solid_until(s, to - 1)
    }
}

/// The text without the white space at its two ends, as `str::trim`
/// returns it.
pub open spec fn trimmed(s: Seq<char>) -> Seq<char> {
    if solid_from(s, 0) >= s.len() {
        Seq::empty()
    } else {
        s.subrange(solid_from(s, 0), solid_until(s, s.len() as int))
    }
}

/// A character that is no white space keeps what stands behind it from
/// being cut off.
proof fn solid_until_keeps(s: Seq<char>, at: int, to: int)
    requires
        0 <= at < to <= s.len(),
        !is_white_space(s[at]),
    ensures
        at < solid_until(s, to) <= to,
    decreases to,
{
    if is_white_space(s[to - 1]) {
        solid_until_keeps(s, at, to - 1);
    }
}

/// Whether the character is white space.
fn is_space(c: char) -> (r: bool)
    ensures
        r == is_white_space(c),
{
    (c >= '\u{9}' && c <= '\u{d}') || c == ' ' || c == '\u{85}' || c == '\u{a0}' || c == '\u{1680}'
        || (c >= '\u{2000}' && c <= '\u{200a}') || c == '\u{2028}' || c == '\u{2029}' || c
        == '\u{202f}' || c == '\u{205f}' || c == '\u{3000}'
}

/// The place of the first character that is no white space.
fn leading_end(s: &str) -> (r: usize)
    ensures
        r == solid_from(s@, 0),
        r <= s@.len(),
        r < s@.len() ==> !is_white_space(s@[r as int]),
{
    let n = s.unicode_len();
    let mut i: usize = 0;
    while i < n
        invariant
            i <= n,
            n == s@.len(),
            solid_from(s@, 0) == solid_from(s@, i as int),
        decreases n - i,
    {
        if !is_space(s.get_char(i)) {
            return i;
        }
        i += 1;
    }
    i
}

/// The place behind the last character that is no white space.
fn trailing_start(s: &str) -> (r: usize)
    ensures
        r == solid_until(s@, s@.len() as int),
        r <= s@.len(),
{
    let n = s.unicode_len();
    let mut i: usize = n;
    while i > 0
        invariant
            i <= n,
            n == s@.len(),
            solid_until(s@, n as int) == solid_until(s@, i as int),
        decreases i,
    {
        if !is_space(s.get_char(i - 1)) {
            return i;
        }
        i -= 1;
    }
    i
}

/// The text without the white space at its two ends.
pub fn trim_text(s: &str) -> (r: String)
    ensures
        r@ == trimmed(s@),
{
    let n = s.unicode_len();
    let from = leading_end(s);
    if from >= n {
        return String::new();
    }
    let to = trailing_start(s);
    proof {
        solid_until_keeps(s@, from as int, n as int);
    }
    String::from_str(s.substring_char(from, to))
}

/// Whether the character is one of the ten decimal digits.
pub open spec fn is_digit(c: char) -> bool {
    '0' <= c <= '9'
}

/// The number that a row of decimal digits stands for.
pub open spec fn digits_value(s: Seq<char>) -> nat
    decreases s.len(),
{
    if s.len() == 0 {
        0
    } else {
        digits_value(s.drop_last()) * 10 + (s.last() as nat - '0' as nat) as nat
    }
}

/// Whether the text is made of decimal digits alone.
pub open spec fn all_digits(s: Seq<char>) -> bool {
    forall|i: int| 0 <= i < s.len() ==> is_digit(#[trigger] s[i])
}

/// Whether the text begins with a sign.
pub open spec fn has_sign(s: Seq<char>) -> bool {
    s.len() > 0 && (s[0] == '-' || s[0] == '+')
}

/// The text without its sign, if it has one.
pub open spec fn unsigned_part(s: Seq<char>) -> Seq<char> {
    if has_sign(s) {
        s.drop_first()
    } else {
        s
    }
}

/// The whole number that a text stands for, as `str::parse` reads one:
/// an optional sign, then one or more decimal digits and nothing else,
/// with a value that 32 bits hold.
pub open spec fn number_of(s: Seq<char>) -> Option<i32> {
    let digits = unsigned_part(s);
    let amount = digits_value(digits) as int;
    let value = if has_sign(s) && s[0] == '-' {
        -amount
    } else {
        amount
    };
    if digits.len() > 0 && all_digits(digits) && i32::MIN <= value <= i32::MAX {
        Some(value as i32)
    } else {
        None
    }
}

/// A row of digits stands for no less than any of its beginnings.
proof fn digits_value_grows(s: Seq<char>, j: int)
    requires
        0 <= j <= s.len(),
    ensures
        digits_value(s.take(j)) <= digits_value(s),
    decreases s.len() - j,
{
    if j < s.len() {
        digits_value_grows(s, j + 1);
        assert(s.take(j + 1).drop_last() =~= s.take(j));
    } else {
        assert(s.take(j) =~= s);
    }
}

/// The whole number that the text stands for: an optional sign, then one
/// or more decimal digits and nothing else. There is none where the text
/// is of another shape or the number does not fit 32 bits.
pub fn parse_number(s: &str) -> (r: Option<i32>)
    ensures
        r == number_of(s@),
{
    let n = s.unicode_len();
    if n == 0 {
        return None;
    }
    let first = s.get_char(0);
    let signed = first == '-' || first == '+';
    let start: usize = if signed {
        1
    } else {
        0
    };
    let ghost digits = unsigned_part(s@);
    if start >= n {
        return None;
    }
    let mut amount: u64 = 0;
    let mut i: usize = start;
    proof {
        assert(digits.take(0) =~= Seq::<char>::empty());
    }
    while i < n
        invariant
            start <= i <= n,
            n == s@.len(),
            n > 0,
            signed == has_sign(s@),
            start == (if signed {
                1int
            } else {
                0int
            }),
            digits == unsigned_part(s@),
            digits.len() == n - start,
            forall|k: int| 0 <= k < i - start ==> is_digit(#[trigger] digits[k]),
            amount == digits_value(digits.take(i - start)),
            amount <= 2147483648,
        decreases n - i,
    {
        let c = s.get_char(i);
        assert(c == digits[i - start]);
        if c < '0' || c > '9' {
            assert(!is_digit(digits[i - start]));
            return None;
        }
        let d: u64 = (c as u64) - ('0' as u64);
        proof {
            assert(digits.take(i - start + 1).drop_last() =~= digits.take(i - start));
            assert(digits.take(i - start + 1).last() == c);
        }
        amount = amount * 10 + d;
        if amount > 2147483648 {
            proof {
                digits_value_grows(digits, i - start + 1);
            }
            return None;
        }
        i += 1;
    }
    proof {
        assert(digits.take(n - start) =~= digits);
    }
    if first == '-' {
        Some((-(amount as i64)) as i32)
    } else if amount > 2147483647 {
        None
    } else {
        Some(amount as i32)
    }
}

/// What an attribute file of the battery holds: a number, or any other
/// text.
#[derive(Clone, Debug, PartialEq, Eq)]
pub enum BatteryValue {
    String(String),
    Int(i32),
}

/// The mathematical value of a [`BatteryValue`].
pub enum BatteryValueView {
    String(Seq<char>),
    Int(i32),
}

impl View for BatteryValue {
    type V = BatteryValueView;

    open spec fn view(&self) -> BatteryValueView {
        match self {
            BatteryValue::String(s) => BatteryValueView::String(s@),
            BatteryValue::Int(i) => BatteryValueView::Int(*i),
        }
    }
}

/// What the content of an attribute file holds: the number that it
/// stands for once the white space at its ends is gone, or else that
/// text without the white space.
pub open spec fn value_of(raw: Seq<char>) -> BatteryValueView {
    match number_of(trimmed(raw)) {
        Some(i) => BatteryValueView::Int(i),
        None => BatteryValueView::String(trimmed(raw)),
    }
}

/// The error for a text where a number was expected.
pub open spec fn not_a_number(s: Seq<char>) -> BarErrorView {
    BarErrorView { kind: ErrorKind::MalformedData, message: "Invalid battery int data: "@ + s }
}

/// The error for a number where a text was expected.
pub open spec fn not_a_text(i: i32) -> BarErrorView {
    BarErrorView {
        kind: ErrorKind::MalformedData,
        message: "Invalid battery string data: "@ + signed_decimal(i as int),
    }
}

impl BatteryValue {
    /// Reads the content of an attribute file.
    pub fn from_raw(raw: &str) -> (r: BatteryValue)
        ensures
            r@ == value_of(raw@),
    {
        let text = trim_text(raw);
        match parse_number(text.as_str()) {
            Some(i) => BatteryValue::Int(i),
            None => BatteryValue::String(text),
        }
    }

    /// The number that the value holds.
    ///
    /// Fails with `MalformedData` exactly where it holds a text.
    pub fn expect_int(&self) -> (r: Result<i32, BarError>)
        ensures
            match self@ {
                BatteryValueView::Int(i) => r == Ok::<i32, BarError>(i),
                BatteryValueView::String(s) => r matches Err(e) && e@ == not_a_number(s),
            },
    {
        match self {
            BatteryValue::Int(i) => Ok(*i),
            BatteryValue::String(s) => {
                let mut message = String::from_str("Invalid battery int data: ");
                message.append(s.as_str());
                Err(BarError { kind: ErrorKind::MalformedData, message })
            },
        }
    }

    /// The text that the value holds.
    ///
    /// Fails with `MalformedData` exactly where it holds a number.
    pub fn expect_string(&self) -> (r: Result<String, BarError>)
        ensures
            match self@ {
                BatteryValueView::String(s) => r matches Ok(t) && t@ == s,
                BatteryValueView::Int(i) => r matches Err(e) && e@ == not_a_text(i),
            },
    {
        match self {
            BatteryValue::String(s) => Ok(s.clone()),
            BatteryValue::Int(i) => {
                let mut message = String::from_str("Invalid battery string data: ");
                let digits = signed_decimal_text(*i);
                message.append(digits.as_str());
                Err(BarError { kind: ErrorKind::MalformedData, message })
            },
        }
    }
}

/// The charge state of the battery.
#[derive(Clone, Copy, Debug, PartialEq, Eq, Structural)]
pub enum BatteryStatus {
    Charging,
    Discharging,
    Full,
}

/// The word for a charge state.
pub open spec fn status_word(status: BatteryStatus) -> Seq<char> {
    match status {
        BatteryStatus::Charging => "Charging"@,
        BatteryStatus::Full => "Full"@,
        BatteryStatus::Discharging => "Discharging"@,
    }
}

/// The charge state that a word stands for, or the error for a word that
/// stands for none.
pub open spec fn status_of(word: Seq<char>) -> Result<BatteryStatus, BarErrorView> {
    if word == "Full"@ {
        Ok(BatteryStatus::Full)
    } else if word == "Charging"@ {
        Ok(BatteryStatus::Charging)
    } else if word == "Discharging"@ {
        Ok(BatteryStatus::Discharging)
    } else {
        Err(
            BarErrorView {
                kind: ErrorKind::MalformedData,
                message: "Invalid battery status: "@ + word,
            },
        )
    }
}

/// The charge state that the readings stand for where the battery names
/// none: charging where it draws power and is not yet full, and else an
/// error.
pub open spec fn status_of_readings(draws_power: bool, below_full: bool) -> Result<
    BatteryStatus,
    BarErrorView,
> {
    if draws_power && below_full {
        Ok(BatteryStatus::Charging)
    } else {
        Err(
            BarErrorView {
                kind: ErrorKind::MalformedData,
                message: "Unknown battery charge state"@,
            },
        )
    }
}

impl BatteryStatus {
    /// The word for this charge state.
    pub fn label(&self) -> (r: &'static str)
        ensures
            r@ == status_word(*self),
    {
        match self {
            BatteryStatus::Charging => "Charging",
            BatteryStatus::Full => "Full",
            BatteryStatus::Discharging => "Discharging",
        }
    }

    /// The charge state that the word stands for.
    ///
    /// Fails with `MalformedData` exactly where the word is none of
    /// `Full`, `Charging` and `Discharging`.
    pub fn try_from(v: String) -> (r: Result<BatteryStatus, BarError>)
        ensures
            match r {
                Ok(status) => status_of(v@) == Ok::<BatteryStatus, BarErrorView>(status),
                Err(e) => status_of(v@) == Err::<BatteryStatus, BarErrorView>(e@),
            },
    {
        if v == String::from_str("Full") {
            Ok(BatteryStatus::Full)
        } else if v == String::from_str("Charging") {
            Ok(BatteryStatus::Charging)
        } else if v == String::from_str("Discharging") {
            Ok(BatteryStatus::Discharging)
        } else {
            let mut message = String::from_str("Invalid battery status: ");
            message.append(v.as_str());
            Err(BarError { kind: ErrorKind::MalformedData, message })
        }
    }

    /// The charge state where the battery names none that is known:
    /// charging where it draws power and is not yet full.
    ///
    /// Fails with `MalformedData` on every other pair of readings.
    pub fn from_readings(draws_power: bool, below_full: bool) -> (r: Result<BatteryStatus, BarError>)
        ensures
            match r {
                Ok(status) => status_of_readings(draws_power, below_full) == Ok::<
                    BatteryStatus,
                    BarErrorView,
                >(status),
                Err(e) => status_of_readings(draws_power, below_full) == Err::<
                    BatteryStatus,
                    BarErrorView,
                >(e@),
            },
    {
        if draws_power && below_full {
            Ok(BatteryStatus::Charging)
        } else {
            Err(BarError::new(ErrorKind::MalformedData, "Unknown battery charge state"))
        }
    }
}

/// Where the attribute files of one battery lie.
pub struct BatteryInfo {
    path: String,
}

impl BatteryInfo {
    /// The directory of the attribute files.
    pub closed spec fn spec_path(&self) -> Seq<char> {
        self.path@
    }

    /// The battery whose attribute files lie in the directory `p`.
    pub fn new(p: &str) -> (r: BatteryInfo)
        ensures
            r.spec_path() == p@,
    {
        BatteryInfo { path: String::from_str(p) }
    }

    /// The directory of the attribute files.
    pub fn path(&self) -> (r: &str)
        ensures
            r@ == self.spec_path(),
    {
        self.path.as_str()
    }
}

/// The directory of the attribute files of the first battery.
pub const BATTERY_PATH: &'static str = "/sys/class/power_supply/BAT0";

/// The text of the battery's block: the share of the charge that is
/// left, as a text, and the charge state.
pub open spec fn battery_text(percentage: Seq<char>, status: BatteryStatus) -> Seq<char> {
    "Â± "@ + percentage + "% ("@ + status_word(status) + ")"@
}

/// The block of the battery: named `battery`, not urgent, without a
/// colour.
pub open spec fn battery_block(percentage: Seq<char>, status: BatteryStatus) -> ModuleOutputView {
    ModuleOutputView {
        full_text: battery_text(percentage, status),
        name: "battery"@,
        urgent: false,
        color: None,
    }
}

/// The battery provider.
pub struct Battery {
    info: BatteryInfo,
}

impl Battery {
    /// The battery that the provider reads.
    pub closed spec fn spec_info(&self) -> BatteryInfo {
        self.info
    }

    /// The provider for the first battery of the machine.
    pub fn new() -> (r: Battery)
        ensures
            r.spec_info().spec_path() == BATTERY_PATH@,
    {
        let info = BatteryInfo::new(BATTERY_PATH);
        Battery { info }
    }

    /// The provider on the heap.
    pub fn boxed(self) -> (r: Box<Battery>)
        ensures
            *r == self,
    {
        Box::new(self)
    }

    /// The battery that the provider reads.
    pub fn info(&self) -> (r: &BatteryInfo)
        ensures
            *r == self.spec_info(),
    {
        &self.info
    }

    /// The block of the battery for the given share of the charge, as a
    /// text, and the given charge state.
    pub fn report(percentage: &str, status: BatteryStatus) -> (r: ModuleOutput)
        ensures
            r@ == battery_block(percentage@, status),
    {
        let mut text = String::from_str("Â± ");
        text.append(percentage);
        text.append("% (");
        text.append(status.label());
        text.append(")");
        ModuleOutput::new("battery").with_full_text(text)
    }
}

} // verus!
