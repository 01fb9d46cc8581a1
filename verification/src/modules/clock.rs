//! The clock: the local time of day as one block.

use vstd::prelude::*;
use vstd::string::*;
use crate::error::BarError;
use crate::message::{ModuleOutput, ModuleOutputView};
use crate::module::{Module, Outcome};

verus! {

/// The pattern in which the clock writes the local time: the weekday,
/// the day of the month, the month and the time of day.
pub open spec fn clock_pattern() -> Seq<char> {
    "%a %-d %b %X"@
}

/// Reads the system clock with `std::time::SystemTime::now`, turns it
/// into local time with chrono's `From<SystemTime> for DateTime<Local>`
/// and writes it with `DateTime::format` in the given pattern. The text
/// depends on the moment and on the machine's time zone; all that is
/// claimed of it is that it is not empty, as the pattern begins with the
/// name of the weekday. Only the clock's own pattern is admitted: chrono
/// fails on a pattern that it cannot read.
#[verifier::external_body]
fn local_time_text(pattern: &str) -> (r: String)
    requires
        pattern@ == clock_pattern(),
    ensures
        r@.len() > 0,
{
    let now: chrono::DateTime<chrono::offset::Local> = std::time::SystemTime::now().into();
    now.format(pattern).to_string()
}

/// The block that the clock makes of a time text.
pub open spec fn clock_block(text: Seq<char>) -> ModuleOutputView {
    ModuleOutputView { full_text: text, name: "clock"@, urgent: false, color: None }
}

/// The clock.
pub struct Clock {}

impl Clock {
    /// A clock.
    pub fn new() -> Clock {
        Clock {  }
    }

    /// The clock on the heap, as the registry takes it.
    pub fn boxed(self) -> (r: Box<Self>)
        ensures
            *r == self,
    {
        Box::new(self)
    }

    /// The block of the clock for the given time text: named `clock`, not
    /// urgent, without a colour.
    pub fn block(text: String) -> (r: ModuleOutput)
        ensures
            r@ == clock_block(text@),
    {
        ModuleOutput::new("clock").with_full_text(text)
    }
}

impl Module for Clock {
    open spec fn label(&self) -> Seq<char> {
        "clock"@
    }

    /// The clock never fails, and its block is that of a time text, which
    /// is not empty.
    open spec fn yields(&self, outcome: Outcome) -> bool {
        outcome matches Ok(b) && b == clock_block(b.full_text) && b.full_text.len() > 0
    }

    fn name(&self) -> (r: &'static str) {
        proof {
            reveal_strlit("clock");
        }
        "clock"
    }

    fn output(&mut self) -> (r: Result<ModuleOutput, BarError>) {
        Ok(Clock::block(local_time_text("%a %-d %b %X")))
    }
}

} // verus!
