use q9gent::{AgentRequest, AgentRunner, Platform};

#[test]
fn test_build_command() {
    let runner = AgentRunner::new("agent".to_string());

    let request = AgentRequest {
        agent_type: "test".to_string(),
        prompt: "Hello world".to_string(),
        flags: vec![],
        tools_allowed: vec!["read_file".to_string(), "write_file".to_string()],
        system_append: Some("You are a test agent".to_string()),
        resume_id: Some("session-123".to_string()),
    };

    let args = runner.build_command(&request);

    assert!(args.contains(&"-p".to_string()));
    assert!(args.contains(&"Hello world".to_string()));
    assert!(args.contains(&"--output-format".to_string()));
    assert!(args.contains(&"stream-json".to_string()));
    assert!(args.contains(&"--allowedTools".to_string()));
    assert!(args.contains(&"read_file,write_file".to_string()));
    assert!(args.contains(&"--append-system-prompt".to_string()));
    assert!(args.contains(&"You are a test agent".to_string()));
    assert!(args.contains(&"--resume".to_string()));
    assert!(args.contains(&"session-123".to_string()));
}

#[test]
fn test_windows_cmd_wrapper() {
    let runner = AgentRunner::new("C:\\path\\to\\agent.cmd".to_string());
    let args = vec!["-p".to_string(), "test".to_string()];

    let (cmd, cmd_args) = runner.prepare_platform_command(Platform::Windows, &args);

    assert_eq!(cmd, "cmd.exe");
    assert_eq!(cmd_args[0], "/c");
    assert_eq!(cmd_args[1], "C:\\path\\to\\agent.cmd");
    assert_eq!(cmd_args[2], "-p");
    assert_eq!(cmd_args[3], "test");
}

#[test]
fn test_windows_bat_wrapper() {
    let runner = AgentRunner::new("agent.BAT".to_string());
    let args = vec!["-p".to_string(), "test".to_string()];

    let (cmd, cmd_args) = runner.prepare_platform_command(Platform::Windows, &args);

    assert_eq!(cmd, "cmd.exe");
    assert_eq!(cmd_args[0], "/c");
}

#[test]
fn test_windows_exe_direct() {
    let runner = AgentRunner::new("agent.exe".to_string());
    let args = vec!["-p".to_string(), "test".to_string()];

    let (cmd, cmd_args) = runner.prepare_platform_command(Platform::Windows, &args);

    assert_eq!(cmd, "agent.exe");
    assert_eq!(cmd_args[0], "-p");
}

#[test]
fn test_unix_direct_execution() {
    let runner = AgentRunner::new("/usr/bin/agent".to_string());
    let args = vec!["-p".to_string(), "test".to_string()];

    let (cmd, cmd_args) = runner.prepare_platform_command(Platform::Unix, &args);

    assert_eq!(cmd, "/usr/bin/agent");
    assert_eq!(cmd_args[0], "-p");
    assert_eq!(cmd_args[1], "test");
}

#[test]
fn test_build_command_full_layout() {
    let runner = AgentRunner::new("agent".to_string());
    let request = AgentRequest {
        agent_type: "test".to_string(),
        prompt: "ask".to_string(),
        flags: vec!["--x".to_string(), "--y".to_string()],
        tools_allowed: vec!["b".to_string(), "a".to_string()],
        system_append: Some("sys".to_string()),
        resume_id: Some("rid".to_string()),
    };
    let args = runner.build_command(&request);
    assert_eq!(
        args,
        vec![
            "-p",
            "ask",
            "--output-format",
            "stream-json",
            "--verbose",
            "--allowedTools",
            "b,a",
            "--append-system-prompt",
            "sys",
            "--resume",
            "rid",
            "--x",
            "--y",
        ]
    );
}

#[test]
fn test_build_command_minimal() {
    let runner = AgentRunner::new("agent".to_string());
    let request = AgentRequest {
        agent_type: "test".to_string(),
        prompt: "ask".to_string(),
        flags: vec![],
        tools_allowed: vec![],
        system_append: None,
        resume_id: None,
    };
    let args = runner.build_command(&request);
    assert_eq!(
        args,
        vec!["-p", "ask", "--output-format", "stream-json", "--verbose"]
    );
    assert!(!args.contains(&"--allowedTools".to_string()));
    assert!(!args.contains(&"--append-system-prompt".to_string()));
    assert!(!args.contains(&"--resume".to_string()));
}

#[test]
fn test_unix_never_wraps_scripts() {
    let runner = AgentRunner::new("/opt/agent.cmd".to_string());
    let args = vec!["-p".to_string(), "test".to_string()];
    let (cmd, cmd_args) = runner.prepare_platform_command(Platform::Unix, &args);
    assert_eq!(cmd, "/opt/agent.cmd");
    assert_eq!(cmd_args, args);
}

#[test]
fn test_windows_mixed_case_extension() {
    let runner = AgentRunner::new("agent.CmD".to_string());
    let args: Vec<String> = vec![];
    let (cmd, cmd_args) = runner.prepare_platform_command(Platform::Windows, &args);
    assert_eq!(cmd, "cmd.exe");
    assert_eq!(cmd_args, vec!["/c".to_string(), "agent.CmD".to_string()]);
}
