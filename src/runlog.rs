use vstd::prelude::*;
use vstd::string::*;

use crate::text::{
    decimal, join_to_string, joined, push_decimal, push_right_aligned, push_zero_padded, right_aligned, views,
    zero_padded,
};

verus! {

/// What a whole run of the tool did.
pub struct AppLog {
    pub runs: Vec<RunLog>,
    pub input_path: String,
    pub output_path: String,
    pub n: usize,
    pub media_type: String,
    pub max_dim: Option<usize>,
}

/// What one iteration did.
pub struct RunLog {
    pub entries: Vec<LogEntry>,
    pub iteration: usize,
}

/// One message, indented by its nesting level.
pub struct LogEntry {
    pub message: String,
    pub nesting_level: usize,
}

pub open spec fn tabs_text(n: nat) -> Seq<char> {
    Seq::new(n, |i: int| '\t')
}

/// The line that states one parameter of an effect.
pub open spec fn parameter_line(name: Seq<char>, p: Seq<char>, value: Seq<char>) -> Seq<char> {
    tabs_text(2) + "["@ + right_aligned(name + "."@ + p, 30) + "]: "@ + value + "\n"@
}

/// The lines of the first `k` parameters.
pub open spec fn parameter_lines(name: Seq<char>, ps: Seq<(Seq<char>, Seq<char>)>, k: int) -> Seq<char>
    decreases k,
{
    if k <= 0 {
        seq![]
    } else {
        parameter_lines(name, ps, k - 1) + parameter_line(name, ps[k - 1].0, ps[k - 1].1)
    }
}

/// The message recorded for an effect with its parameters.
pub open spec fn effect_message(name: Seq<char>, ps: Seq<(Seq<char>, Seq<char>)>) -> Seq<char> {
    "Applying effect ["@ + name + "], with the following parameters...\n"@ + parameter_lines(name, ps, ps.len() as int)
}

pub open spec fn parameter_views(ps: Seq<(&str, String)>) -> Seq<(Seq<char>, Seq<char>)> {
    Seq::new(ps.len(), |i: int| (ps[i].0@, ps[i].1@))
}

impl LogEntry {
    /// An empty message one level deep.
    pub fn init() -> (e: LogEntry)
        ensures
            e.message@ == Seq::<char>::empty(),
            e.nesting_level == 1,
    {
        LogEntry { message: String::new(), nesting_level: 1 }
    }

    /// One level deeper.
    fn tab_in(&mut self)
        requires
            old(self).nesting_level < usize::MAX,
        ensures
            final(self).nesting_level == old(self).nesting_level + 1,
            final(self).message == old(self).message,
    {
        self.nesting_level = self.nesting_level + 1;
    }

    /// One tab per nesting level.
    fn get_tabs(&self) -> (r: String)
        ensures
            r@ == tabs_text(self.nesting_level as nat),
    {
        let mut tabs = String::new();
        let mut i: usize = 0;
        while i < self.nesting_level
            invariant
                i <= self.nesting_level,
                tabs@ == tabs_text(i as nat),
            decreases self.nesting_level - i,
        {
            proof {
                reveal_strlit("\t");
            }
            tabs.append("\t");
            assert(tabs@ =~= tabs_text((i + 1) as nat));
            i = i + 1;
        }
        tabs
    }

    /// `message` indented to this entry's level.
    fn tabs(&self, message: &str) -> (r: String)
        ensures
            r@ == tabs_text(self.nesting_level as nat) + message@,
    {
        let mut t = self.get_tabs();
        t.append(message);
        t
    }
}

fn push_parameter_line(s: &mut String, entry: &LogEntry, name: &str, p: &str, value: &str)
    requires
        entry.nesting_level == 2,
    ensures
        final(s)@ == old(s)@ + parameter_line(name@, p@, value@),
{
    let ghost before = s@;
    let mut label = String::from_str(name);
    label.append(".");
    label.append(p);
    let mut line = String::from_str("[");
    push_right_aligned(&mut line, label.as_str(), 30);
    line.append("]: ");
    line.append(value);
    line.append("\n");
    let indented = entry.tabs(line.as_str());
    s.append(indented.as_str());
    assert(s@ =~= before + parameter_line(name@, p@, value@));
}

impl RunLog {
    pub fn init(iteration: usize) -> (r: RunLog)
        ensures
            r.entries@.len() == 0,
            r.iteration == iteration,
    {
        RunLog { entries: Vec::new(), iteration }
    }

    fn add_entry(&mut self, entry: LogEntry)
        ensures
            final(self).entries@ == old(self).entries@.push(entry),
            final(self).iteration == old(self).iteration,
    {
        self.entries.push(entry);
    }

    /// Records that an effect was applied, with one indented line per parameter.
    pub fn apply_effect(&mut self, name: &str, parameters: Vec<(&str, String)>) -> (r: &mut Self)
        ensures
            r.iteration == old(self).iteration,
            r.entries@.len() == old(self).entries@.len() + 1,
            r.entries@.drop_last() == old(self).entries@,
            r.entries@.last().message@ == effect_message(name@, parameter_views(parameters@)),
            r.entries@.last().nesting_level == 2,
            *final(self) == *final(r),
    {
        let mut entry = LogEntry::init();
        let mut message = String::from_str("Applying effect [");
        message.append(name);
        message.append("], with the following parameters...\n");
        let ghost head = message@;
        entry.tab_in();
        let ghost ps = parameter_views(parameters@);
        let mut i: usize = 0;
        while i < parameters.len()
            invariant
                entry.nesting_level == 2,
                i <= parameters@.len(),
                ps == parameter_views(parameters@),
                message@ == head + parameter_lines(name@, ps, i as int),
            decreases parameters@.len() - i,
        {
            let (p, value) = &parameters[i];
            push_parameter_line(&mut message, &entry, name, p, value.as_str());
            assert(message@ =~= head + parameter_lines(name@, ps, i + 1));
            i = i + 1;
        }
        entry.message = message;
        let ghost old_entries = self.entries@;
        self.add_entry(entry);
        assert(self.entries@.drop_last() =~= old_entries);
        self
    }

    /// The iteration number, five digits wide, then each message on its own line.
    pub fn render(&self) -> (r: String)
        ensures
            r@ == run_text(*self),
    {
        let mut s = String::from_str("[");
        push_zero_padded(&mut s, self.iteration as u64, 5);
        s.append("]\n");
        let mut messages: Vec<String> = Vec::new();
        let mut i: usize = 0;
        while i < self.entries.len()
            invariant
                i <= self.entries@.len(),
                messages@.len() == i,
                forall|j: int| 0 <= j < i ==> #[trigger] messages@[j]@ == self.entries@[j].message@,
            decreases self.entries@.len() - i,
        {
            messages.push(self.entries[i].message.clone());
            i = i + 1;
        }
        let body = join_to_string(&messages, "\n");
        assert(views(messages@) =~= entry_messages(self.entries@));
        s.append(body.as_str());
        s
    }
}

pub open spec fn entry_messages(es: Seq<LogEntry>) -> Seq<Seq<char>> {
    Seq::new(es.len(), |i: int| es[i].message@)
}

/// How a run is written out.
pub open spec fn run_text(r: RunLog) -> Seq<char> {
    "["@ + zero_padded(r.iteration as nat, 5) + "]\n"@ + joined(entry_messages(r.entries@), "\n"@)
}

pub open spec fn run_texts(rs: Seq<RunLog>) -> Seq<Seq<char>> {
    Seq::new(rs.len(), |i: int| run_text(rs[i]))
}

/// How the whole log is written out.
pub open spec fn app_text(a: AppLog) -> Seq<char> {
    "[ === APP INFO === ]\n"@ + "[  source  ]: "@ + a.media_type@ + ": "@ + a.input_path@ + "\n"@ + "[  output  ]: "@
        + a.output_path@ + "\n"@ + "[iterations]: "@ + decimal(a.n as nat) + "\n"@ + "[ max-dim  ]: "@ + match a.max_dim {
        Some(m) => decimal(m as nat),
        None => "(unspecified)"@,
    } + "\n"@ + "\n[ ===== RUNS ===== ]\n"@ + joined(run_texts(a.runs@), "\n\n"@)
}

impl AppLog {
    pub fn init(input_path: String, output_path: String, n: usize, media_type: String, max_dim: Option<usize>) -> (a: AppLog)
        ensures
            a.runs@.len() == 0,
            a.input_path == input_path,
            a.output_path == output_path,
            a.n == n,
            a.media_type == media_type,
            a.max_dim == max_dim,
    {
        AppLog { runs: Vec::new(), input_path, output_path, n, media_type, max_dim }
    }

    pub fn add_run(&mut self, run: RunLog) -> (r: &mut Self)
        ensures
            r.runs@ == old(self).runs@.push(run),
            r.input_path == old(self).input_path,
            r.output_path == old(self).output_path,
            r.n == old(self).n,
            r.media_type == old(self).media_type,
            r.max_dim == old(self).max_dim,
            *final(self) == *final(r),
    {
        self.runs.push(run);
        self
    }

    /// The header, then every run, separated by blank lines.
    pub fn render(&self) -> (r: String)
        ensures
            r@ == app_text(*self),
    {
        let mut s = String::from_str("[ === APP INFO === ]\n");
        s.append("[  source  ]: ");
        s.append(self.media_type.as_str());
        s.append(": ");
        s.append(self.input_path.as_str());
        s.append("\n");
        s.append("[  output  ]: ");
        s.append(self.output_path.as_str());
        s.append("\n");
        s.append("[iterations]: ");
        push_decimal(&mut s, self.n as u64);
        s.append("\n");
        s.append("[ max-dim  ]: ");
        match self.max_dim {
            Some(m) => push_decimal(&mut s, m as u64),
            None => s.append("(unspecified)"),
        }
        s.append("\n");
        s.append("\n[ ===== RUNS ===== ]\n");
        let mut texts: Vec<String> = Vec::new();
        let mut i: usize = 0;
        while i < self.runs.len()
            invariant
                i <= self.runs@.len(),
                texts@.len() == i,
                forall|j: int| 0 <= j < i ==> #[trigger] texts@[j]@ == run_text(self.runs@[j]),
            decreases self.runs@.len() - i,
        {
            texts.push(self.runs[i].render());
            i = i + 1;
        }
        let body = join_to_string(&texts, "\n\n");
        assert(views(texts@) =~= run_texts(self.runs@));
        s.append(body.as_str());
        assert(s@ =~= app_text(*self));
        s
    }
}

} // verus!
