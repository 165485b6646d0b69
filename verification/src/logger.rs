use vstd::prelude::*;

verus! {

/// Severity of a diagnostic line.
#[derive(Clone, Copy, Debug, PartialEq, Eq, Structural)]
pub enum LogLevel {
    Debug,
    Info,
    Warn,
    Error,
}

/// A per-manager sink for diagnostic messages.  The engine only appends
/// to it and never inspects what was written; its lifecycle is tied to
/// the manager instance that owns it.
#[derive(Debug)]
pub struct Logger {
    entries: Vec<(LogLevel, String)>,
}

impl Logger {
    /// The lines recorded so far, oldest first.
    pub closed spec fn spec_entries(&self) -> Seq<(LogLevel, Seq<char>)> {
        Seq::new(self.entries@.len(), |i: int| (self.entries@[i].0, self.entries@[i].1@))
    }

    /// A sink with nothing recorded yet.
    pub fn new() -> (r: Logger)
        ensures
            r.spec_entries().len() == 0,
    {
        Logger { entries: Vec::new() }
    }

    /// Appends one leveled diagnostic line.
    pub fn record(&mut self, level: LogLevel, message: String)
        ensures
            final(self).spec_entries() == old(self).spec_entries().push((level, message@)),
    {
        self.entries.push((level, message));
        proof {
            assert(self.spec_entries() =~= old(self).spec_entries().push((level, message@)));
        }
    }

    /// How many lines were recorded.
    pub fn len(&self) -> (r: usize)
        ensures
            r == self.spec_entries().len(),
    {
        self.entries.len()
    }

    /// One recorded line.
    pub fn line(&self, i: usize) -> (r: &(LogLevel, String))
        requires
            i < self.spec_entries().len(),
        ensures
            r.0 == self.spec_entries()[i as int].0,
            r.1@ == self.spec_entries()[i as int].1,
    {
        &self.entries[i]
    }
}

} // verus!
