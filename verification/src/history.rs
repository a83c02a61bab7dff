//! The creation time of a file according to version-control history.
//!
//! The history query prints the commit times that touch a file, oldest
//! first, one per line. The creation time is the first of them.

use vstd::prelude::*;
use vstd::slice::slice_subrange;
use vstd::utf8::valid_utf8;
use crate::encoding::is_utf8;
use crate::process::{exit_success, exited_successfully};
use crate::timestamp::{parse_timestamp, timestamp_of};

verus! {

/// ASCII code of the line feed that separates the lines of the output.
pub const LINE_FEED: u8 = 0x0a;

/// What a history query reported, as its caller saw it.
#[derive(Debug, Clone, PartialEq, Eq)]
pub enum HistoryOutcome {
    /// The command could not be run to its end; the text is the cause.
    Failed(String),
    /// The command ended with this exit code and this standard output.
    Finished { code: Option<i32>, stdout: Vec<u8> },
}

/// Why a history query gave no timestamp.
#[derive(Debug, Clone, PartialEq, Eq)]
pub enum QueryError {
    /// The command could not be run to its end.
    Launch(String),
    /// The command did not exit with code zero.
    ExitStatus(Option<i32>),
    /// The output is not UTF-8 text.
    NotUtf8,
    /// The output is empty: the file has no history.
    EmptyOutput,
    /// The first line of the output is not a timestamp.
    InvalidTimestamp,
}

/// Whether `end` is where the first line of `bytes` ends: no line feed comes
/// before it, and one stands there unless the bytes are exhausted.
pub open spec fn is_first_line_end(bytes: Seq<u8>, end: int) -> bool {
    &&& 0 <= end <= bytes.len()
    &&& forall|i: int| 0 <= i < end ==> #[trigger] bytes[i] != LINE_FEED
    &&& end < bytes.len() ==> bytes[end] == LINE_FEED
}

/// The first line of some bytes, without its line feed.
pub open spec fn first_line(bytes: Seq<u8>) -> Seq<u8> {
    bytes.take(choose|end: int| is_first_line_end(bytes, end))
}

/// The first line ends in exactly one place.
pub proof fn first_line_end_unique(bytes: Seq<u8>, end: int)
    requires
        is_first_line_end(bytes, end),
    ensures
        first_line(bytes) == bytes.take(end),
{
    let chosen = choose|e: int| is_first_line_end(bytes, e);
    if chosen < end {
        assert(bytes[chosen] != LINE_FEED);
    } else if end < chosen {
        assert(bytes[end] != LINE_FEED);
    }
}

/// The creation time that the outcome of a history query stands for.
///
/// The query fails when the command did not run or did not exit with code
/// zero, when its output is not UTF-8, when the output is empty, and when
/// the first line is not a timestamp.
pub open spec fn history_result(outcome: HistoryOutcome) -> Result<i64, QueryError> {
    match outcome {
        HistoryOutcome::Failed(cause) => Err(QueryError::Launch(cause)),
        HistoryOutcome::Finished { code, stdout } => {
            if !exit_success(code) {
                Err(QueryError::ExitStatus(code))
            } else if !valid_utf8(stdout@) {
                Err(QueryError::NotUtf8)
            } else if stdout@.len() == 0 {
                Err(QueryError::EmptyOutput)
            } else {
                match timestamp_of(first_line(stdout@)) {
                    Some(timestamp) => Ok(timestamp),
                    None => Err(QueryError::InvalidTimestamp),
                }
            }
        },
    }
}

/// Finds where the first line of the output ends.
pub fn first_line_length(bytes: &[u8]) -> (end: usize)
    ensures
        is_first_line_end(bytes@, end as int),
        bytes@.take(end as int) == first_line(bytes@),
{
    let mut end: usize = 0;
    while end < bytes.len() && bytes[end] != LINE_FEED
        invariant
            end <= bytes@.len(),
            forall|i: int| 0 <= i < end ==> #[trigger] bytes@[i] != LINE_FEED,
        decreases bytes@.len() - end,
    {
        end = end + 1;
    }
    proof {
        first_line_end_unique(bytes@, end as int);
    }
    end
}

/// Extracts the creation time from the outcome of a history query.
pub fn history_timestamp(outcome: HistoryOutcome) -> (result: Result<i64, QueryError>)
    ensures
        result == history_result(outcome),
{
    match outcome {
        HistoryOutcome::Failed(cause) => Err(QueryError::Launch(cause)),
        HistoryOutcome::Finished { code, stdout } => {
            if !exited_successfully(code) {
                return Err(QueryError::ExitStatus(code));
            }
            if !is_utf8(stdout.as_slice()) {
                return Err(QueryError::NotUtf8);
            }
            if stdout.len() == 0 {
                return Err(QueryError::EmptyOutput);
            }
            let end = first_line_length(stdout.as_slice());
            let line = slice_subrange(stdout.as_slice(), 0, end);
            match parse_timestamp(line) {
                Some(timestamp) => Ok(timestamp),
                None => Err(QueryError::InvalidTimestamp),
            }
        },
    }
}

} // verus!
