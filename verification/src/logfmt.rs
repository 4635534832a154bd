use vstd::prelude::*;
use vstd::string::StringExecFns;

verus! {

/// What `str::to_uppercase` returns for a given character sequence.
pub uninterp spec fn upper_of(s: Seq<char>) -> Seq<char>;

/// Relies on str::to_uppercase: the uppercase mapping of a string is a
/// function of its characters alone, and an empty string stays empty.
#[verifier::external_body]
fn to_upper(s: &str) -> (r: String)
    ensures
        r@ == upper_of(s@),
        s@.len() == 0 ==> r@.len() == 0,
{
    s.to_uppercase()
}

/// One log line: bracketed timestamp, bracketed uppercased level, message,
/// and a trailing newline.
pub open spec fn log_entry_text(timestamp: Seq<char>, level: Seq<char>, message: Seq<char>) -> Seq<
    char,
> {
    "["@ + timestamp + "] ["@ + upper_of(level) + "] "@ + message + "\n"@
}

/// Format one log entry. The timestamp is handed in by the caller.
pub fn format_log_entry(timestamp: &str, level: &str, message: &str) -> (out: String)
    ensures
        out@ == log_entry_text(timestamp@, level@, message@),
{
    let mut out: String = "[".to_owned();
    out.append(timestamp);
    out.append("] [");
    let up = to_upper(level);
    out.append(up.as_str());
    out.append("] ");
    out.append(message);
    out.append("\n");
    proof {
        assert(out@ =~= log_entry_text(timestamp@, level@, message@));
    }
    out
}

} // verus!
