use vstd::prelude::*;
use vstd::string::{StrSliceExecFns, StringExecFns};

verus! {

/// One window found by the enumeration helper.
#[derive(Debug, Clone, PartialEq)]
pub struct ScanResult {
    pub window_title: String,
    pub window_handle: i64,
    pub process_id: u32,
}

/// The progress record of one monitored instance.
#[derive(Debug, Clone, PartialEq)]
pub struct InstanceStatus {
    pub status: String,
    pub current_issue: u32,
    pub total_issues: u32,
    pub retry_count: u32,
    pub last_activity: u64,
    pub step_count: u32,
}

/// What the backlog reader reports.
#[derive(Debug, Clone, PartialEq)]
pub struct BacklogResult {
    pub total_issues: i32,
    pub completed_issues: i32,
    pub current_issue: String,
    pub backlog_path: String,
    pub error: Option<String>,
}

/// A freshly monitored instance: idle, with no progress yet, stamped with
/// the caller's clock reading.
pub fn initial_status(now_ms: u64) -> (st: InstanceStatus)
    ensures
        st.status@ == "idle"@,
        st.current_issue == 0,
        st.total_issues == 0,
        st.retry_count == 0,
        st.last_activity == now_ms,
        st.step_count == 0,
{
    InstanceStatus {
        status: "idle".to_owned(),
        current_issue: 0,
        total_issues: 0,
        retry_count: 0,
        last_activity: now_ms,
        step_count: 0,
    }
}

pub open spec fn seq_views(s: Seq<String>) -> Seq<Seq<char>> {
    s.map_values(|x: String| x@)
}

pub open spec fn opt_view(o: Option<String>) -> Option<Seq<char>> {
    match o {
        Some(s) => Some(s@),
        None => None,
    }
}

/// The argument list handed to the backlog reader: the fixed policy and
/// script arguments, the project path, then the optional backlog path and
/// mode, each only when present and non-empty.
pub open spec fn backlog_args_text(
    script: Seq<char>,
    project: Seq<char>,
    backlog: Option<Seq<char>>,
    mode: Option<Seq<char>>,
) -> Seq<Seq<char>> {
    let base = seq![
        "-ExecutionPolicy"@,
        "Bypass"@,
        "-File"@,
        script,
        "-ProjectPath"@,
        project,
    ];
    let with_backlog = match backlog {
        Some(b) => if b.len() > 0 {
            base + seq!["-BacklogPath"@, b]
        } else {
            base
        },
        None => base,
    };
    match mode {
        Some(m) => if m.len() > 0 {
            with_backlog + seq!["-Mode"@, m]
        } else {
            with_backlog
        },
        None => with_backlog,
    }
}

/// Assemble the backlog reader's argument list.
pub fn backlog_args(
    script_path: String,
    project_path: String,
    backlog_path: Option<String>,
    mode: Option<String>,
) -> (args: Vec<String>)
    ensures
        seq_views(args@) == backlog_args_text(
            script_path@,
            project_path@,
            opt_view(backlog_path),
            opt_view(mode),
        ),
{
    let ghost script = script_path@;
    let ghost project = project_path@;
    let ghost backlog = opt_view(backlog_path);
    let ghost gmode = opt_view(mode);
    let mut args: Vec<String> = Vec::new();
    args.push("-ExecutionPolicy".to_owned());
    args.push("Bypass".to_owned());
    args.push("-File".to_owned());
    args.push(script_path);
    args.push("-ProjectPath".to_owned());
    args.push(project_path);
    match backlog_path {
        Some(bp) => {
            if !bp.as_str().is_empty() {
                args.push("-BacklogPath".to_owned());
                args.push(bp);
            }
        },
        None => {},
    }
    match mode {
        Some(m) => {
            if !m.as_str().is_empty() {
                args.push("-Mode".to_owned());
                args.push(m);
            }
        },
        None => {},
    }
    proof {
        assert(seq_views(args@) =~= backlog_args_text(script, project, backlog, gmode));
    }
    args
}

/// The fallback record when the backlog reader's output cannot be parsed:
/// empty counts and a diagnostic quoting the output.
pub fn backlog_parse_failure(stdout: &str) -> (res: BacklogResult)
    ensures
        res.total_issues == 0,
        res.completed_issues == 0,
        res.current_issue@.len() == 0,
        res.backlog_path@.len() == 0,
        res.error matches Some(e) && e@ == "Failed to parse backlog: "@ + stdout@,
{
    let mut msg: String = "Failed to parse backlog: ".to_owned();
    msg.append(stdout);
    BacklogResult {
        total_issues: 0,
        completed_issues: 0,
        current_issue: String::new(),
        backlog_path: String::new(),
        error: Some(msg),
    }
}

/// The shape of the window-enumeration helper's output.
#[derive(Debug, Clone, Copy, PartialEq, Eq, Structural)]
pub enum ScanOutputKind {
    /// Nothing but whitespace: no windows found.
    Empty,
    /// A JSON array of records.
    Array,
    /// A single JSON record, to be wrapped into a one-element list.
    Single,
}

pub open spec fn is_ws(c: char) -> bool {
    c == ' ' || c == '\t' || c == '\r' || c == '\n'
}

/// The first character that is not whitespace, if any.
pub open spec fn first_content(s: Seq<char>) -> Option<char>
    decreases s.len(),
{
    if s.len() == 0 {
        None
    } else if !is_ws(s[0]) {
        Some(s[0])
    } else {
        first_content(s.drop_first())
    }
}

pub open spec fn scan_output_kind_of(s: Seq<char>) -> ScanOutputKind {
    match first_content(s) {
        None => ScanOutputKind::Empty,
        Some(c) => if c == '[' {
            ScanOutputKind::Array
        } else {
            ScanOutputKind::Single
        },
    }
}

proof fn lemma_first_content_skip(s: Seq<char>, i: int)
    requires
        0 <= i <= s.len(),
        forall|j: int| 0 <= j < i ==> is_ws(#[trigger] s[j]),
    ensures
        first_content(s.skip(i)) == first_content(s),
    decreases i,
{
    if i == 0 {
        assert(s.skip(0) =~= s);
    } else {
        assert(is_ws(s[0]));
        lemma_first_content_skip(s.drop_first(), i - 1);
        assert(s.drop_first().skip(i - 1) =~= s.skip(i));
    }
}

/// Classify the helper's output: all-whitespace, an array, or one record.
#[verifier::loop_isolation(false)]
pub fn scan_output_kind(out: &str) -> (k: ScanOutputKind)
    ensures
        k == scan_output_kind_of(out@),
{
    let len = out.unicode_len();
    let mut i: usize = 0;
    while i < len
        invariant
            i <= len,
            forall|j: int| 0 <= j < i ==> is_ws(#[trigger] out@[j]),
        decreases len - i,
    {
        let c = out.get_char(i);
        if !(c == ' ' || c == '\t' || c == '\r' || c == '\n') {
            proof {
                lemma_first_content_skip(out@, i as int);
                assert(out@.skip(i as int)[0] == out@[i as int]);
                assert(first_content(out@) == Some(c));
            }
            if c == '[' {
                return ScanOutputKind::Array;
            }
            return ScanOutputKind::Single;
        }
        i = i + 1;
    }
    proof {
        lemma_first_content_skip(out@, len as int);
        assert(out@.skip(len as int) =~= Seq::<char>::empty());
    }
    ScanOutputKind::Empty
}

} // verus!
