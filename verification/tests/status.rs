use uistate::status::{
    backlog_args, backlog_parse_failure, initial_status, scan_output_kind, ScanOutputKind,
};

#[test]
fn initial_status_is_idle_with_the_given_clock() {
    let st = initial_status(1_700_000_000_123);
    assert_eq!(st.status, "idle");
    assert_eq!(st.current_issue, 0);
    assert_eq!(st.total_issues, 0);
    assert_eq!(st.retry_count, 0);
    assert_eq!(st.last_activity, 1_700_000_000_123);
    assert_eq!(st.step_count, 0);
}

#[test]
fn backlog_args_without_options() {
    let args = backlog_args(
        "scripts/read-backlog.ps1".to_string(),
        "C:\\proj".to_string(),
        None,
        None,
    );
    assert_eq!(
        args,
        vec![
            "-ExecutionPolicy".to_string(),
            "Bypass".to_string(),
            "-File".to_string(),
            "scripts/read-backlog.ps1".to_string(),
            "-ProjectPath".to_string(),
            "C:\\proj".to_string(),
        ]
    );
}

#[test]
fn backlog_args_skip_empty_options() {
    let args = backlog_args(
        "s.ps1".to_string(),
        "p".to_string(),
        Some("".to_string()),
        Some("".to_string()),
    );
    assert_eq!(args.len(), 6);
}

#[test]
fn backlog_args_with_both_options() {
    let args = backlog_args(
        "s.ps1".to_string(),
        "p".to_string(),
        Some("b.md".to_string()),
        Some("strict".to_string()),
    );
    assert_eq!(
        args,
        vec![
            "-ExecutionPolicy".to_string(),
            "Bypass".to_string(),
            "-File".to_string(),
            "s.ps1".to_string(),
            "-ProjectPath".to_string(),
            "p".to_string(),
            "-BacklogPath".to_string(),
            "b.md".to_string(),
            "-Mode".to_string(),
            "strict".to_string(),
        ]
    );
}

#[test]
fn backlog_parse_failure_quotes_the_output() {
    let res = backlog_parse_failure("garbage out");
    assert_eq!(res.total_issues, 0);
    assert_eq!(res.completed_issues, 0);
    assert_eq!(res.current_issue, "");
    assert_eq!(res.backlog_path, "");
    assert_eq!(res.error.as_deref(), Some("Failed to parse backlog: garbage out"));
}

#[test]
fn scan_output_shapes() {
    assert_eq!(scan_output_kind(""), ScanOutputKind::Empty);
    assert_eq!(scan_output_kind("  \r\n\t "), ScanOutputKind::Empty);
    assert_eq!(scan_output_kind(" [ {\"a\":1} ]"), ScanOutputKind::Array);
    assert_eq!(scan_output_kind("{\"a\":1}"), ScanOutputKind::Single);
    assert_eq!(scan_output_kind("\n{\"a\":1}"), ScanOutputKind::Single);
}
