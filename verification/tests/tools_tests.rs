use agent_engine::tools::{
    FsCollaborator, ToolArgs, ToolRequest, execute_tool_internal, join_lines, parse_tool_args,
    plan_tool_call,
};

struct FakeFs {
    calls: usize,
    files: Vec<(String, String)>,
}

impl FakeFs {
    fn new() -> Self {
        FakeFs { calls: 0, files: Vec::new() }
    }
}

impl FsCollaborator for FakeFs {
    fn list_dir(&mut self, _root: &str, _rel_path: &str) -> Result<Vec<String>, String> {
        self.calls += 1;
        Ok(vec!["a.txt".to_string(), "b.rs".to_string(), "sub".to_string()])
    }

    fn read_file(&mut self, _root: &str, rel_path: &str) -> Result<String, String> {
        self.calls += 1;
        for (p, c) in &self.files {
            if p == rel_path {
                return Ok(c.clone());
            }
        }
        Err(format!("no such file: {}", rel_path))
    }

    fn write_file(&mut self, _root: &str, rel_path: &str, content: &str) -> Result<String, String> {
        self.calls += 1;
        self.files.push((rel_path.to_string(), content.to_string()));
        Ok("ok".to_string())
    }
}

#[test]
fn parses_string_arguments() {
    let args = parse_tool_args("{\"rel_path\":\"src/lib.rs\",\"content\":\"x\"}").unwrap();
    assert_eq!(args.rel_path, Some("src/lib.rs".to_string()));
    assert_eq!(args.content, Some("x".to_string()));
    assert_eq!(args.file_path, None);
    assert_eq!(args.dir_path, None);
}

#[test]
fn malformed_payload_is_an_error() {
    assert!(parse_tool_args("{not json").is_err());
}

#[test]
fn non_string_and_missing_fields_are_absent() {
    let args = parse_tool_args("{\"rel_path\":7}").unwrap();
    assert_eq!(args.rel_path, None);
    let args = parse_tool_args("[1,2,3]").unwrap();
    assert_eq!(args.rel_path, None);
}

#[test]
fn read_accepts_file_path_alias() {
    let args = parse_tool_args("{\"file_path\":\"notes.md\"}").unwrap();
    match plan_tool_call("agent_read_file", &args).unwrap() {
        ToolRequest::ReadFile { rel_path } => assert_eq!(rel_path, "notes.md"),
        _ => panic!("expected a file read"),
    }
}

#[test]
fn list_defaults_to_current_directory() {
    let args = parse_tool_args("{}").unwrap();
    match plan_tool_call("agent_list_dir", &args).unwrap() {
        ToolRequest::ListDir { rel_path } => assert_eq!(rel_path, "."),
        _ => panic!("expected a listing"),
    }
}

#[test]
fn unknown_tool_error_text() {
    let args = parse_tool_args("{}").unwrap();
    let err = plan_tool_call("agent_run_shell", &args).unwrap_err();
    assert_eq!(err, "Tool agent_run_shell not implemented or allowed in Agent System");
}

#[test]
fn listing_joins_entries_with_newlines() {
    let mut fs = FakeFs::new();
    let args = parse_tool_args("{}").unwrap();
    let out = execute_tool_internal(&mut fs, "agent_list_dir", &args, "/proj").unwrap();
    assert_eq!(out, "a.txt\nb.rs\nsub");
    assert_eq!(fs.calls, 1);
}

#[test]
fn join_lines_edge_cases() {
    assert_eq!(join_lines(&vec![]), "");
    assert_eq!(join_lines(&vec!["one".to_string()]), "one");
    assert_eq!(join_lines(&vec!["a".to_string(), "b".to_string()]), "a\nb");
}

#[test]
fn escaping_path_never_reaches_the_filesystem() {
    let mut fs = FakeFs::new();
    let args = parse_tool_args("{\"rel_path\":\"../secrets\"}").unwrap();
    let err = execute_tool_internal(&mut fs, "agent_read_file", &args, "/proj").unwrap_err();
    assert_eq!(err, "Path ../secrets escapes the project root");
    assert_eq!(fs.calls, 0);

    let args = parse_tool_args("{\"rel_path\":\"a/../../x\",\"content\":\"boom\"}").unwrap();
    let err = execute_tool_internal(&mut fs, "agent_write_file", &args, "/proj").unwrap_err();
    assert_eq!(err, "Path a/../../x escapes the project root");
    assert_eq!(fs.calls, 0);
}

#[test]
fn write_then_read_round_trip() {
    let mut fs = FakeFs::new();
    let args = parse_tool_args("{\"rel_path\":\"out.txt\",\"content\":\"hello\"}").unwrap();
    assert_eq!(execute_tool_internal(&mut fs, "agent_write_file", &args, "/proj").unwrap(), "ok");
    let args = parse_tool_args("{\"rel_path\":\"out.txt\"}").unwrap();
    assert_eq!(
        execute_tool_internal(&mut fs, "agent_read_file", &args, "/proj").unwrap(),
        "hello"
    );
    assert_eq!(fs.calls, 2);
}

#[test]
fn collaborator_failure_is_the_calls_failure() {
    let mut fs = FakeFs::new();
    let args = ToolArgs {
        rel_path: Some("missing.txt".to_string()),
        file_path: None,
        dir_path: None,
        content: None,
    };
    let err = execute_tool_internal(&mut fs, "agent_read_file", &args, "/proj").unwrap_err();
    assert_eq!(err, "no such file: missing.txt");
}
