use libfastfetch::context::{
    CommandOutput, FixtureMap, IoFailure, MockSystemContext, SystemContext, UtsName,
};

#[test]
fn test_mock_context_read_file() {
    let mut ctx = MockSystemContext::default();
    ctx.files.insert(
        "/test/file.txt".to_string(),
        "test content".to_string(),
    );

    let result = ctx.read_file("/test/file.txt");
    assert!(result.is_ok());
    assert_eq!(result.unwrap(), "test content");
}

#[test]
fn test_mock_context_env() {
    let mut ctx = MockSystemContext::default();
    ctx.env_vars.insert("TEST_VAR".to_string(), "test_value".to_string());

    assert_eq!(ctx.get_env("TEST_VAR"), Some("test_value".to_string()));
    assert_eq!(ctx.get_env("MISSING"), None);
}

#[test]
fn missing_fixtures_fail_with_their_own_messages() {
    let ctx = MockSystemContext::default();
    assert_eq!(
        ctx.read_file("/nowhere"),
        Err(IoFailure { message: "File not found".to_string() })
    );
    assert_eq!(
        ctx.execute_command("nothing", &["-x"]),
        Err(IoFailure { message: "Command not found".to_string() })
    );
    assert_eq!(
        ctx.get_hostname(),
        Err(IoFailure { message: "Hostname not set".to_string() })
    );
    assert_eq!(
        ctx.uname(),
        Err(IoFailure { message: "Uname not set".to_string() })
    );
}

#[test]
fn later_fixture_replaces_earlier_one() {
    let mut map: FixtureMap<String> = FixtureMap::new();
    assert_eq!(map.get("k"), None);
    map.insert("k".to_string(), "one".to_string());
    map.insert("other".to_string(), "x".to_string());
    map.insert("k".to_string(), "two".to_string());
    assert_eq!(map.get("k"), Some(&"two".to_string()));
    assert_eq!(map.get("other"), Some(&"x".to_string()));
    assert_eq!(map.get("K"), None);
}

#[test]
fn command_fixture_is_found_by_program_whatever_the_arguments() {
    let mut ctx = MockSystemContext::default();
    let output = CommandOutput { stdout: b"out".to_vec(), stderr: b"err".to_vec(), success: true };
    ctx.commands.insert("tool".to_string(), output.clone());
    assert_eq!(ctx.execute_command("tool", &[]), Ok(output.clone()));
    assert_eq!(ctx.execute_command("tool", &["-a", "-b"]), Ok(output));
}

#[test]
fn hostname_and_uname_fixtures_come_back() {
    let mut ctx = MockSystemContext::default();
    ctx.hostname = Some("box".to_string());
    let identity = UtsName {
        sysname: "Linux".to_string(),
        nodename: "box".to_string(),
        release: "6.1.0".to_string(),
        version: "#1 SMP".to_string(),
        machine: "x86_64".to_string(),
    };
    ctx.uname_result = Some(identity.clone());
    assert_eq!(ctx.get_hostname(), Ok("box".to_string()));
    assert_eq!(ctx.uname(), Ok(identity));
}

#[test]
fn command_text_is_read_lossily() {
    let good = CommandOutput { stdout: b"  hi there \n".to_vec(), stderr: Vec::new(), success: true };
    assert_eq!(good.stdout_text(), Some("  hi there \n".to_string()));
    assert_eq!(good.trimmed_text(), Some("hi there".to_string()));
    let broken = CommandOutput { stdout: vec![b'a', 0xff, b'b'], stderr: Vec::new(), success: true };
    assert_eq!(broken.stdout_text(), Some("a\u{fffd}b".to_string()));
    let failed = CommandOutput { stdout: b"x".to_vec(), stderr: Vec::new(), success: false };
    assert_eq!(failed.stdout_text(), None);
    assert_eq!(failed.trimmed_text(), None);
}
