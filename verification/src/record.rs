//! Log records and where they come from.

use crate::level::Level;
use crate::text::{decimal, render_decimal};
use vstd::prelude::*;
use vstd::string::*;

verus! {

/// One log record as the sink receives it.
#[derive(Clone, Debug, PartialEq, Eq)]
pub struct Record {
    pub level: Level,
    pub message: String,
    /// Path of the source file of the call site, where known.
    pub file: Option<String>,
    /// Line of the call site in that file, where known.
    pub line: Option<u32>,
    /// Module path of the call site, where known.
    pub module: Option<String>,
}

/// What a record holds, as plain values.
pub struct RecordView {
    pub level: Level,
    pub message: Seq<char>,
    pub file: Option<Seq<char>>,
    pub line: Option<nat>,
    pub module: Option<Seq<char>>,
}

impl View for Record {
    type V = RecordView;

    open spec fn view(&self) -> RecordView {
        RecordView {
            level: self.level,
            message: self.message@,
            file: match self.file {
                Some(path) => Some(path@),
                None => None,
            },
            line: match self.line {
                Some(n) => Some(n as nat),
                None => None,
            },
            module: match self.module {
                Some(path) => Some(path@),
                None => None,
            },
        }
    }
}

impl RecordView {
    /// Where the record comes from: `<file>:<line>` where both are known,
    /// else the module path, else nothing.
    pub open spec fn location(self) -> Seq<char> {
        match (self.file, self.line) {
            (Some(path), Some(n)) => path + seq![':'] + decimal(n),
            _ => match self.module {
                Some(path) => path,
                None => Seq::empty(),
            },
        }
    }
}

impl Record {
    /// Writes where the record comes from.
    pub fn location(&self) -> (out: String)
        ensures
            out@ == self@.location(),
    {
        match (&self.file, &self.line) {
            (Some(path), Some(n)) => {
                proof {
                    reveal_strlit(":");
                }
                let mut out = String::from_str(path.as_str());
                out.append(":");
                out.append(render_decimal(*n as u64).as_str());
                assert(out@ =~= self@.location());
                out
            },
            _ => match &self.module {
                Some(path) => String::from_str(path.as_str()),
                None => String::new(),
            },
        }
    }
}

} // verus!
