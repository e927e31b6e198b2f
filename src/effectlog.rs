use vstd::prelude::*;
use vstd::string::*;

use crate::color::Rgb;
use crate::text::{decimal, push_decimal};

verus! {

/// One step of building a palette or a pipeline, as recorded for replay.
pub enum LogEntry {
    Effect { name: String, options: String },
    AddColourToPalette { colour: Rgb },
    AddGradientToPalette { colour: Rgb, shades: u16 },
}

/// The colour as an `Rgb::new(r, g, b)` expression.
pub open spec fn colour_text(c: Rgb) -> Seq<char> {
    "Rgb::new("@ + decimal(c.r as nat) + ", "@ + decimal(c.g as nat) + ", "@ + decimal(c.b as nat) + ")"@
}

/// The line that describes an entry.
pub open spec fn entry_text(e: LogEntry) -> Seq<char> {
    match e {
        LogEntry::Effect { name, options } => "Effect ["@ + name@ + "] with options ["@ + options@ + "]"@,
        LogEntry::AddColourToPalette { colour } => colour_text(colour),
        LogEntry::AddGradientToPalette { colour, shades } => colour_text(colour) + ".build_gradient_lch("@
            + decimal(shades as nat) + ")"@,
    }
}

fn push_colour(s: &mut String, c: Rgb)
    ensures
        final(s)@ == old(s)@ + colour_text(c),
{
    let ghost before = s@;
    s.append("Rgb::new(");
    push_decimal(s, c.r as u64);
    s.append(", ");
    push_decimal(s, c.g as u64);
    s.append(", ");
    push_decimal(s, c.b as u64);
    s.append(")");
    assert(s@ =~= before + colour_text(c));
}

impl LogEntry {
    pub fn effect(name: String, options: String) -> (e: LogEntry)
        ensures
            e == (LogEntry::Effect { name, options }),
    {
        LogEntry::Effect { name, options }
    }

    pub fn colour(colour: Rgb) -> (e: LogEntry)
        ensures
            e == (LogEntry::AddColourToPalette { colour }),
    {
        LogEntry::AddColourToPalette { colour }
    }

    pub fn gradient(colour: Rgb, shades: u16) -> (e: LogEntry)
        ensures
            e == (LogEntry::AddGradientToPalette { colour, shades }),
    {
        LogEntry::AddGradientToPalette { colour, shades }
    }

    /// The line that describes the entry.
    pub fn describe(&self) -> (r: String)
        ensures
            r@ == entry_text(*self),
    {
        let mut s = String::new();
        match self {
            LogEntry::Effect { name, options } => {
                s.append("Effect [");
                s.append(name.as_str());
                s.append("] with options [");
                s.append(options.as_str());
                s.append("]");
            },
            LogEntry::AddColourToPalette { colour } => {
                push_colour(&mut s, *colour);
            },
            LogEntry::AddGradientToPalette { colour, shades } => {
                push_colour(&mut s, *colour);
                s.append(".build_gradient_lch(");
                push_decimal(&mut s, *shades as u64);
                s.append(")");
            },
        }
        assert(s@ =~= entry_text(*self));
        s
    }
}

/// A record of the steps taken, in order.
pub struct ExecLog {
    log: Vec<LogEntry>,
}

impl View for ExecLog {
    type V = Seq<LogEntry>;

    closed spec fn view(&self) -> Seq<LogEntry> {
        self.log@
    }
}

impl ExecLog {
    pub fn new() -> (l: ExecLog)
        ensures
            l@ == Seq::<LogEntry>::empty(),
    {
        ExecLog { log: Vec::new() }
    }

    /// Records one more step.
    pub fn add_entry(&mut self, entry: LogEntry) -> (r: &mut Self)
        ensures
            r@ == old(self)@.push(entry),
            *final(self) == *final(r),
    {
        self.log.push(entry);
        self
    }

    /// An empty log in place of this one.
    pub fn reset(self) -> (l: ExecLog)
        ensures
            l@ == Seq::<LogEntry>::empty(),
    {
        ExecLog::new()
    }

    /// Moves the steps of `other` to the end of this log.
    pub fn append_log(&mut self, other: ExecLog)
        ensures
            final(self)@ == old(self)@ + other@,
    {
        let mut rest = other.log;
        self.log.append(&mut rest);
    }

    pub fn len(&self) -> (n: usize)
        ensures
            n == self@.len(),
    {
        self.log.len()
    }

    /// One line per step, in order.
    pub fn lines(&self) -> (r: Vec<String>)
        ensures
            r@.len() == self@.len(),
            forall|i: int| 0 <= i < r@.len() ==> #[trigger] r@[i]@ == entry_text(self@[i]),
    {
        let mut r: Vec<String> = Vec::new();
        let mut i: usize = 0;
        while i < self.log.len()
            invariant
                i <= self@.len(),
                r@.len() == i,
                forall|j: int| 0 <= j < i ==> #[trigger] r@[j]@ == entry_text(self@[j]),
            decreases self@.len() - i,
        {
            r.push(self.log[i].describe());
            i = i + 1;
        }
        r
    }
}

} // verus!
