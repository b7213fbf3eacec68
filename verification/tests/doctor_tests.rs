use dayrecord::doctor::{
    doctor_head, doctor_tail, parse_tools_call_is_error, parse_tools_list_count,
    offline_signal_in_text, path_from_lookup, path_from_lookup_text, pid_from_file, split_lines,
    tools_list_count_from_text, version_from_output, version_from_text, DoctorFacts, PathProbe,
    NO_OFFLINE_SIGNAL, NO_TOOLS_LIST, SERVER_PANICKED,
};
use dayrecord::text::{chars_of, decimal_string};

fn lines_of(s: &str) -> Vec<String> {
    split_lines(&chars_of(s)).into_iter().map(|l| l.into_iter().collect()).collect()
}

#[test]
fn lines_follow_str_lines() {
    for s in ["", "a", "a\n", "a\r\nb", "a\n\nb\n", "x\r", "\n", "a\rb\n"] {
        let expected: Vec<String> = s.lines().map(|l| l.to_string()).collect();
        assert_eq!(lines_of(s), expected, "input {s:?}");
    }
}

#[test]
fn decimal_matches_to_string() {
    for n in [0usize, 7, 10, 99, 100, 12345, usize::MAX] {
        assert_eq!(decimal_string(n), n.to_string());
    }
}

#[test]
fn tools_list_count_reads_result_array() {
    let out = b"{\"jsonrpc\":\"2.0\",\"id\":1,\"result\":{\"serverInfo\":{}}}\n{\"jsonrpc\":\"2.0\",\"id\":2,\"result\":{\"tools\":[{\"name\":\"a\"},{\"name\":\"b\"},{\"name\":\"c\"}]}}\n";
    assert_eq!(parse_tools_list_count(true, out, b""), Ok(3));
}

#[test]
fn tools_list_count_errors() {
    assert_eq!(
        parse_tools_list_count(false, b"", b"thread 'main' panicked at src/x.rs"),
        Err(SERVER_PANICKED.to_string())
    );
    assert_eq!(
        parse_tools_list_count(false, b"", b"  broken pipe \n"),
        Err("broken pipe".to_string())
    );
    assert_eq!(parse_tools_list_count(true, b"nothing here\n", b""), Err(NO_TOOLS_LIST.to_string()));
    let bad = parse_tools_list_count(true, b"\"tools\" but no json\n", b"");
    assert!(bad.is_err());
    assert_ne!(bad, Err(NO_TOOLS_LIST.to_string()));
    assert_eq!(
        parse_tools_list_count(false, b"{\"result\":{\"tools\":[]}}", b""),
        Ok(0)
    );
}

#[test]
fn tools_call_offline_signals() {
    let is_error = b"{\"jsonrpc\":\"2.0\",\"id\":2,\"result\":{\"content\":[],\"isError\":true},\"tool\":\"pause_recording\"}\n";
    assert_eq!(parse_tools_call_is_error(is_error), Ok(()));
    let structured = b"{\"id\":2,\"result\":{\"structuredContent\":{\"ok\":false,\"error\":\"offline\"}},\"name\":\"pause_recording\"}";
    assert_eq!(parse_tools_call_is_error(structured), Ok(()));
    let snake = b"{\"result\":{\"structured_content\":{\"ok\":false,\"error\":\"x\"}},\"m\":\"pause_recording\"}";
    assert_eq!(parse_tools_call_is_error(snake), Ok(()));
    let success = b"{\"result\":{\"isError\":false,\"structuredContent\":{\"ok\":true}},\"m\":\"pause_recording\"}";
    assert_eq!(parse_tools_call_is_error(success), Err(NO_OFFLINE_SIGNAL.to_string()));
    let other_tool = b"{\"result\":{\"isError\":true}}";
    assert_eq!(parse_tools_call_is_error(other_tool), Err(NO_OFFLINE_SIGNAL.to_string()));
}

#[test]
fn lookup_and_version_lines() {
    assert_eq!(path_from_lookup(true, b"/usr/bin/dayrecord\n/opt/x\n"), Some("/usr/bin/dayrecord".to_string()));
    assert_eq!(path_from_lookup(true, b"   \n"), None);
    assert_eq!(path_from_lookup(false, b"/usr/bin/dayrecord\n"), None);
    assert_eq!(version_from_output(true, b" dayrecord 0.3.1 \nmore"), Some("dayrecord 0.3.1".to_string()));
    assert_eq!(version_from_output(true, b""), None);
    assert_eq!(version_from_output(true, b" \n"), Some(String::new()));
    assert_eq!(version_from_output(false, b"x"), None);
}

#[test]
fn doctor_report_healthy_install() {
    let facts = DoctorFacts {
        version: "0.3.1".into(),
        this_exe: "/usr/bin/dayrecord".into(),
        this_version: Some("dayrecord 0.3.1".into()),
        on_path: Some(PathProbe {
            exe: "/usr/bin/dayrecord".into(),
            version: Some("dayrecord 0.3.1".into()),
            same_as_this: true,
            tools: Ok(10),
        }),
        this_tools: Ok(10),
    };
    let r = doctor_head(&facts);
    assert!(r.failure.is_none());
    assert_eq!(
        r.lines,
        vec![
            "dayrecord version: 0.3.1",
            "this executable: /usr/bin/dayrecord",
            "this --version:  dayrecord 0.3.1",
            "PATH executable: /usr/bin/dayrecord",
            "PATH --version:  dayrecord 0.3.1",
            "PATH MCP tools/list: 10 tools",
            "this MCP tools/list: 10 tools (ok)",
        ]
    );
}

#[test]
fn doctor_report_warnings_and_failure() {
    let facts = DoctorFacts {
        version: "0.3.1".into(),
        this_exe: "/a/dayrecord".into(),
        this_version: None,
        on_path: Some(PathProbe {
            exe: "/b/dayrecord".into(),
            version: None,
            same_as_this: false,
            tools: Err("exit 101".into()),
        }),
        this_tools: Err("no response".into()),
    };
    let r = doctor_head(&facts);
    assert_eq!(r.failure.as_deref(), Some("this binary failed MCP tools/list probe: no response"));
    assert_eq!(r.lines[2], "this --version:  0.3.1");
    assert_eq!(r.lines[4], "PATH --version:  (unknown)");
    assert!(r.lines.iter().any(|l| l.starts_with("warning: PATH points to a different binary")));
    assert!(r.lines.iter().any(|l| l == "warning: PATH binary version may not match this build (0.3.1)."));
    assert!(r.lines.iter().any(|l| l == "PATH MCP tools/list: FAILED (exit 101)"));
    assert!(!r.lines.iter().any(|l| l.starts_with("this MCP tools/list")));
}

#[test]
fn doctor_report_without_path_and_few_tools() {
    let facts = DoctorFacts {
        version: "1.0.0".into(),
        this_exe: "/x".into(),
        this_version: Some("1.0.0".into()),
        on_path: None,
        this_tools: Ok(4),
    };
    let r = doctor_head(&facts);
    assert!(r.failure.is_none());
    assert_eq!(r.lines[3], "PATH executable: (not found)");
    assert_eq!(r.lines.last().unwrap(), "this MCP tools/list: 4 tools (expected 10)");
}

#[test]
fn doctor_tail_lines() {
    assert_eq!(
        doctor_tail(&Ok(()), &Ok(())),
        vec![
            "this MCP tools/call offline signal: ok (isError or ok:false)".to_string(),
            "daemon autostart + IPC: ok".to_string(),
        ]
    );
    let t = doctor_tail(&Err("skipped (capture service already running)".into()), &Err("no consent".into()));
    assert_eq!(t[0], "this MCP tools/call offline signal: skipped (capture service already running)");
    assert_eq!(t[1], "daemon autostart + IPC: skipped or failed (no consent)");
    let t = doctor_tail(&Err("timeout".into()), &Ok(()));
    assert_eq!(t.len(), 3);
    assert_eq!(t[0], "this MCP tools/call offline signal: FAILED (timeout)");
}

#[test]
fn decoded_text_entry_points() {
    assert_eq!(
        tools_list_count_from_text(true, "{\"result\":{\"tools\":[1,2]}}\n", ""),
        Ok(2)
    );
    assert_eq!(
        tools_list_count_from_text(false, "", " boom "),
        Err("boom".to_string())
    );
    assert_eq!(
        offline_signal_in_text("{\"result\":{\"is_error\":true},\"n\":\"pause_recording\"}"),
        Ok(())
    );
    assert_eq!(offline_signal_in_text(""), Err(NO_OFFLINE_SIGNAL.to_string()));
    assert_eq!(path_from_lookup_text(true, "C:\\bin\\dayrecord.exe\r\n"), Some("C:\\bin\\dayrecord.exe".to_string()));
    assert_eq!(version_from_text(true, "dayrecord 1.2.3\n"), Some("dayrecord 1.2.3".to_string()));
}

#[test]
fn pid_file_parsing() {
    assert_eq!(pid_from_file(" 4242\n"), Ok(4242));
    assert_eq!(pid_from_file("+7"), Ok(7));
    assert_eq!(pid_from_file("4294967295"), Ok(u32::MAX));
    assert!(pid_from_file("4294967296").is_err());
    assert!(pid_from_file("").is_err());
    assert!(pid_from_file("12a").is_err());
    assert!(pid_from_file("-1").is_err());
    assert_eq!(pid_from_file("x"), Err("invalid digit found in string".to_string()));
}
