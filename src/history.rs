//! The commit history as the log view lists it.
use vstd::prelude::*;
use vstd::string::{StrSliceExecFns, StringExecFns};

verus! {

/// One commit of the history: abbreviated id, summary, author and local time.
#[derive(Clone, Debug, PartialEq, Eq)]
pub struct CommitInfo {
    pub id: String,
    pub message: String,
    pub author: String,
    pub time: String,
}

/// Number of characters a commit id is abbreviated to.
pub const SHORT_ID_LEN: usize = 7;

/// The first characters of a commit id, at most `SHORT_ID_LEN` of them.
pub open spec fn short_id_of(id: Seq<char>) -> Seq<char> {
    if id.len() <= SHORT_ID_LEN {
        id
    } else {
        id.take(SHORT_ID_LEN as int)
    }
}

/// Relies on chrono: `DateTime::from_timestamp` gives the instant (the epoch
/// when it is out of range), which is converted to the machine's local time
/// zone and formatted as `%Y-%m-%d %H:%M:%S`. The text depends on the time
/// zone of the machine, so nothing is stated of it.
#[verifier::external_body]
fn format_local_time(seconds: i64) -> (r: String) {
    let utc = chrono::DateTime::from_timestamp(seconds, 0).unwrap_or_default();
    let local: chrono::DateTime<chrono::Local> = utc.into();
    local.format("%Y-%m-%d %H:%M:%S").to_string()
}

/// Abbreviates a commit id to its first `SHORT_ID_LEN` characters.
pub fn short_id(id: &String) -> (r: String)
    ensures
        r@ == short_id_of(id@),
{
    let s = id.as_str();
    let n = s.unicode_len();
    if n <= SHORT_ID_LEN {
        id.clone()
    } else {
        String::from_str(s.substring_char(0, SHORT_ID_LEN))
    }
}

/// Builds the log entry of one commit from what the backend gives of it:
/// its full id, its summary and its author's name when they are readable,
/// and its time in seconds since the epoch.
pub fn commit_info(id: &String, summary: Option<String>, author: Option<String>, seconds: i64) -> (r: CommitInfo)
    ensures
        r.id@ == short_id_of(id@),
        r.message@ == (match summary {
            Some(s) => s@,
            None => Seq::<char>::empty(),
        }),
        r.author@ == (match author {
            Some(a) => a@,
            None => "Unknown"@,
        }),
{
    let message = match summary {
        Some(s) => s,
        None => String::new(),
    };
    let author = match author {
        Some(a) => a,
        None => String::from_str("Unknown"),
    };
    CommitInfo { id: short_id(id), message, author, time: format_local_time(seconds) }
}

} // verus!
