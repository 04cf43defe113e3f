//! The records that the service logs.

use vstd::prelude::*;
use vstd::string::StringExecFns;

verus! {

/// How severe a record is, from least to most.
#[derive(Debug, Clone, Copy, PartialEq, Eq, Structural)]
pub enum Level {
    Debug,
    Info,
    Warn,
    Error,
}

/// One log record: its level, its message, and the value of the field `x`
/// where the record carries it.
#[derive(Debug, Clone, PartialEq, Eq)]
pub struct LogRecord {
    pub level: Level,
    pub message: String,
    pub x: Option<i32>,
}

/// What a [`LogRecord`] holds, as mathematical values.
pub ghost struct LogRecordView {
    pub level: Level,
    pub message: Seq<char>,
    pub x: Option<i32>,
}

impl View for LogRecord {
    type V = LogRecordView;

    open spec fn view(&self) -> LogRecordView {
        LogRecordView { level: self.level, message: self.message@, x: self.x }
    }
}

/// The four records of the logging walk-through, in the order in which they
/// are to be emitted.
pub open spec fn walkthrough_records() -> Seq<LogRecordView> {
    seq![
        LogRecordView { level: Level::Debug, message: "Debug 3"@, x: None },
        LogRecordView { level: Level::Info, message: "Info"@, x: Some(3i32) },
        LogRecordView { level: Level::Warn, message: "Warn"@, x: None },
        LogRecordView { level: Level::Error, message: "Error"@, x: None },
    ]
}

/// Gives one record of each level, in rising order, for the caller to emit:
/// the value 3 inside a debug message, the same value as the field of an info
/// record, a warning and an error.
pub fn log_wherever_you_want() -> (r: Vec<LogRecord>)
    ensures
        r@.len() == walkthrough_records().len(),
        forall|i: int| 0 <= i < r@.len() ==> (#[trigger] r@[i])@ == walkthrough_records()[i],
{
    let x: i32 = 3;
    let mut records: Vec<LogRecord> = Vec::new();
    records.push(LogRecord { level: Level::Debug, message: String::from_str("Debug 3"), x: None });
    records.push(LogRecord { level: Level::Info, message: String::from_str("Info"), x: Some(x) });
    records.push(LogRecord { level: Level::Warn, message: String::from_str("Warn"), x: None });
    records.push(LogRecord { level: Level::Error, message: String::from_str("Error"), x: None });
    records
}

} // verus!
