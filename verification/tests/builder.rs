use ezexec::error::ErrorKind;
use ezexec::ExecBuilder;

fn arg_strings(b: &ExecBuilder) -> Vec<String> {
    b.args().iter().map(|a| a.as_str().to_string()).collect()
}

#[test]
fn with_path_keeps_binary_and_args() {
    let args = vec!["-l".to_string(), "-a".to_string()];
    let b = ExecBuilder::with_path("/bin/sh", args).expect("sh exists");
    assert_eq!(b.binary_path().as_str(), "/bin/sh");
    assert_eq!(arg_strings(&b), vec!["-l", "-a"]);
    assert!(b.pwd().is_none());
    assert!(b.envs().is_empty());
}

#[test]
fn with_path_missing_binary_fails() {
    let r = ExecBuilder::with_path("/no/such/binary-qqq", Vec::new());
    match r {
        Ok(_) => panic!("expected a resolution failure"),
        Err(e) => assert_eq!(e.kind, ErrorKind::PathError),
    }
}

#[test]
fn with_name_searches_the_list() {
    let b = ExecBuilder::with_name("sh", Vec::new(), "/bin:/usr/bin").expect("sh is in /bin");
    assert!(b.binary_path().ends_with("/sh"));
}

#[test]
fn with_shell_builds_execstring_arguments() {
    let b = ExecBuilder::with_shell("echo literal-marker", Some("/bin/sh"), "")
        .expect("sh exists");
    assert_eq!(b.binary_path().as_str(), "/bin/sh");
    assert_eq!(arg_strings(&b), vec!["-c", "echo literal-marker"]);
}

#[test]
fn with_shell_without_preference_runs_the_default_shell() {
    let b = ExecBuilder::with_shell("echo literal-marker", None, "/bin:/usr/bin")
        .expect("sh is in /bin");
    assert!(b.binary_path().ends_with("sh"));
    assert_eq!(arg_strings(&b), vec!["-c", "echo literal-marker"]);
}

#[test]
fn with_name_failure_carries_the_resolution_message() {
    let r = ExecBuilder::with_name("no-such-binary-qqq", Vec::new(), "/bin");
    match r {
        Ok(_) => panic!("expected a resolution failure"),
        Err(e) => {
            assert_eq!(e.kind, ErrorKind::PathError);
            assert_eq!(
                e.message.as_str(),
                "Failed to find binary in PATH: no-such-binary-qqq"
            );
        }
    }
}

#[test]
fn with_shell_unknown_shell_fails() {
    let r = ExecBuilder::with_shell("echo hi", Some("/bin/ls"), "");
    match r {
        Ok(_) => panic!("expected a resolution failure"),
        Err(e) => assert_eq!(e.kind, ErrorKind::PathError),
    }
}

#[test]
fn set_pwd_is_recorded() {
    let b = ExecBuilder::with_path("/bin/sh", Vec::new()).expect("sh exists").set_pwd("/tmp");
    match b.pwd() {
        Some(p) => assert_eq!(p.as_str(), "/tmp"),
        None => panic!("working directory was set"),
    }
}

#[test]
fn set_env_last_write_wins() {
    let b = ExecBuilder::with_path("/bin/sh", Vec::new())
        .expect("sh exists")
        .set_env("MARK", "one")
        .set_env("MARK", "two");
    let envs = b.envs();
    assert_eq!(envs.len(), 1);
    assert_eq!(envs[0].0.as_str(), "MARK");
    assert_eq!(envs[0].1.as_str(), "two");
}

#[test]
fn set_env_keeps_other_keys() {
    let b = ExecBuilder::with_path("/bin/sh", Vec::new())
        .expect("sh exists")
        .set_env("A", "1")
        .set_env("B", "2")
        .set_env("A", "3");
    let envs = b.envs();
    assert_eq!(envs.len(), 2);
    let mut pairs: Vec<(String, String)> = envs
        .iter()
        .map(|p| (p.0.as_str().to_string(), p.1.as_str().to_string()))
        .collect();
    pairs.sort();
    assert_eq!(pairs, vec![("A".to_string(), "3".to_string()), ("B".to_string(), "2".to_string())]);
}

#[test]
fn set_envs_bulk_merges_with_last_wins() {
    let overrides = vec![
        ("A".to_string(), "1".to_string()),
        ("B".to_string(), "2".to_string()),
        ("A".to_string(), "3".to_string()),
    ];
    let b = ExecBuilder::with_path("/bin/sh", Vec::new())
        .expect("sh exists")
        .set_envs(overrides);
    let envs = b.envs();
    assert_eq!(envs.len(), 2);
    let mut pairs: Vec<(String, String)> = envs
        .iter()
        .map(|p| (p.0.as_str().to_string(), p.1.as_str().to_string()))
        .collect();
    pairs.sort();
    assert_eq!(pairs, vec![("A".to_string(), "3".to_string()), ("B".to_string(), "2".to_string())]);
}
