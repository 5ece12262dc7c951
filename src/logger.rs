//! A leveled diagnostics logger that keeps its lines in memory.
//!
//! The threshold includes every level whose rank is at most the threshold,
//! except that info lines need a threshold of exactly 3:
//!
//! Error - 1
//!
//! Warn - 2
//!
//! Info - 3
use crate::time::now_utc;
use vstd::prelude::*;

verus! {

#[derive(Clone, Copy, Debug, PartialEq, Eq, Structural)]
pub enum Level {
    Error,
    Warning,
    Info,
}

/// Whether a logger with `threshold` keeps lines of `level`.
pub open spec fn admits(threshold: usize, level: Level) -> bool {
    match level {
        Level::Error => threshold >= 1,
        Level::Warning => threshold >= 2,
        Level::Info => threshold == 3,
    }
}

/// What a kept line says: its level, its message and whether a newline ends it.
pub struct LogLine {
    pub level: Level,
    pub text: Seq<char>,
    pub newline: bool,
}

/// `log` after a line of `level` and `text`, ended by a newline, was offered to
/// a logger with `threshold`.
pub open spec fn log_line(log: Seq<LogLine>, threshold: usize, level: Level, text: Seq<char>) -> Seq<
    LogLine,
> {
    if admits(threshold, level) {
        log.push(LogLine { level, text, newline: true })
    } else {
        log
    }
}

/// One kept line, with the time at which it was written.
pub struct LogRecord {
    pub level: Level,
    pub stamp: String,
    pub message: String,
    pub newline: bool,
}

impl LogRecord {
    pub open spec fn line(&self) -> LogLine {
        LogLine { level: self.level, text: self.message@, newline: self.newline }
    }
}

/// The tag that opens a line of `level`.
pub open spec fn tag(level: Level) -> Seq<char> {
    match level {
        Level::Error => "[ERROR] "@,
        Level::Warning => "[WARNING] "@,
        Level::Info => "[INFO] "@,
    }
}

/// The text of one record: `[LEVEL] stamp: message`, with its newline.
pub open spec fn rendered(r: LogRecord) -> Seq<char> {
    tag(r.level) + r.stamp@ + ": "@ + r.message@ + if r.newline {
        "\n"@
    } else {
        Seq::empty()
    }
}

/// The text of all `records`, in order.
pub open spec fn rendered_all(records: Seq<LogRecord>) -> Seq<char>
    decreases records.len(),
{
    if records.len() == 0 {
        Seq::empty()
    } else {
        rendered_all(records.drop_last()) + rendered(records.last())
    }
}

pub struct Logger {
    threshold: usize,
    records: Vec<LogRecord>,
}

impl View for Logger {
    type V = Seq<LogLine>;

    closed spec fn view(&self) -> Seq<LogLine> {
        self.records@.map_values(|r: LogRecord| r.line())
    }
}

impl Logger {
    /// The threshold the logger was made with.
    pub closed spec fn level_threshold(&self) -> usize {
        self.threshold
    }

    /// The lines kept so far, with their stamps.
    pub closed spec fn kept(&self) -> Seq<LogRecord> {
        self.records@
    }

    pub fn new(threshold: usize) -> (r: Self)
        ensures
            r.level_threshold() == threshold,
            r@ == Seq::<LogLine>::empty(),
    {
        let r = Logger { threshold, records: Vec::new() };
        assert(r@ =~= Seq::<LogLine>::empty());
        r
    }

    pub fn threshold(&self) -> (r: usize)
        ensures
            r == self.level_threshold(),
    {
        self.threshold
    }

    pub fn records(&self) -> (r: &Vec<LogRecord>)
        ensures
            r@ == self.kept(),
            r@.map_values(|x: LogRecord| x.line()) == self@,
    {
        &self.records
    }

    fn write(&mut self, level: Level, msg: &str, newline: bool)
        ensures
            final(self).level_threshold() == old(self).level_threshold(),
            final(self)@ == if admits(old(self).level_threshold(), level) {
                old(self)@.push(LogLine { level, text: msg@, newline })
            } else {
                old(self)@
            },
    {
        let keep = match level {
            Level::Error => self.threshold >= 1,
            Level::Warning => self.threshold >= 2,
            Level::Info => self.threshold == 3,
        };
        if keep {
            let record = LogRecord {
                level,
                stamp: now_utc(),
                message: String::from_str(msg),
                newline,
            };
            self.records.push(record);
            assert(self@ =~= old(self)@.push(LogLine { level, text: msg@, newline }));
        }
    }

    /// Info line ended by a newline.
    pub fn logln(&mut self, msg: &str)
        ensures
            final(self).level_threshold() == old(self).level_threshold(),
            final(self)@ == log_line(old(self)@, old(self).level_threshold(), Level::Info, msg@),
    {
        self.write(Level::Info, msg, true);
    }

    pub fn log(&mut self, msg: &str)
        ensures
            final(self).level_threshold() == old(self).level_threshold(),
            final(self)@ == if admits(old(self).level_threshold(), Level::Info) {
                old(self)@.push(LogLine { level: Level::Info, text: msg@, newline: false })
            } else {
                old(self)@
            },
    {
        self.write(Level::Info, msg, false);
    }

    /// Warning line ended by a newline.
    pub fn wlogln(&mut self, msg: &str)
        ensures
            final(self).level_threshold() == old(self).level_threshold(),
            final(self)@ == log_line(old(self)@, old(self).level_threshold(), Level::Warning, msg@),
    {
        self.write(Level::Warning, msg, true);
    }

    pub fn wlog(&mut self, msg: &str)
        ensures
            final(self).level_threshold() == old(self).level_threshold(),
            final(self)@ == if admits(old(self).level_threshold(), Level::Warning) {
                old(self)@.push(LogLine { level: Level::Warning, text: msg@, newline: false })
            } else {
                old(self)@
            },
    {
        self.write(Level::Warning, msg, false);
    }

    /// Error line ended by a newline.
    pub fn elogln(&mut self, msg: &str)
        ensures
            final(self).level_threshold() == old(self).level_threshold(),
            final(self)@ == log_line(old(self)@, old(self).level_threshold(), Level::Error, msg@),
    {
        self.write(Level::Error, msg, true);
    }

    pub fn elog(&mut self, msg: &str)
        ensures
            final(self).level_threshold() == old(self).level_threshold(),
            final(self)@ == if admits(old(self).level_threshold(), Level::Error) {
                old(self)@.push(LogLine { level: Level::Error, text: msg@, newline: false })
            } else {
                old(self)@
            },
    {
        self.write(Level::Error, msg, false);
    }

    /// Everything written so far, as the text a stream would have received.
    pub fn output(&self) -> (r: String)
        ensures
            r@ == rendered_all(self.kept()),
    {
        proof {
            reveal_strlit(": ");
            reveal_strlit("\n");
        }
        let mut r = String::new();
        let mut i: usize = 0;
        while i < self.records.len()
            invariant
                i <= self.records@.len(),
                r@ == rendered_all(self.records@.subrange(0, i as int)),
            decreases self.records@.len() - i,
        {
            let rec = &self.records[i];
            let tag = match rec.level {
                Level::Error => "[ERROR] ",
                Level::Warning => "[WARNING] ",
                Level::Info => "[INFO] ",
            };
            r.append(tag);
            r.append(rec.stamp.as_str());
            r.append(": ");
            r.append(rec.message.as_str());
            if rec.newline {
                r.append("\n");
            }
            assert(self.records@.subrange(0, i + 1).drop_last() =~= self.records@.subrange(
                0,
                i as int,
            ));
            assert(r@ =~= rendered_all(self.records@.subrange(0, i + 1)));
            i += 1;
        }
        assert(self.records@.subrange(0, i as int) =~= self.records@);
        r
    }
}

} // verus!
