use ezexec::error::ErrorKind;
use ezexec::lookup::Binary;
use ezexec::platform::Platform;

#[test]
fn binary_new_missing_fails_with_path_error() {
    let r = Binary::new("/definitely/not/there/binary-qqq");
    match r {
        Ok(_) => panic!("expected a resolution failure"),
        Err(e) => {
            assert_eq!(e.kind, ErrorKind::PathError);
            assert!(e.message.contains("/definitely/not/there/binary-qqq"));
        }
    }
}

#[test]
fn binary_new_existing_succeeds_and_is_stable() {
    let a = Binary::new("/bin/sh").expect("sh exists");
    let b = Binary::new("/bin/sh").expect("sh exists");
    assert_eq!(a.path().as_str(), "/bin/sh");
    assert_eq!(a.path(), b.path());
}

#[test]
fn from_probe_follows_the_probe() {
    let ok = Binary::from_probe("somewhere/bin", true).expect("approved probe");
    assert_eq!(ok.path().as_str(), "somewhere/bin");
    let err = Binary::from_probe("somewhere/bin", false).unwrap_err();
    assert_eq!(err.kind, ErrorKind::PathError);
}

#[test]
fn find_known_name_returns_path_ending_in_name() {
    let b = Binary::find("sh", "/nonexistent-dir-qqq:/bin:/usr/bin").expect("sh is in /bin");
    assert_eq!(b.path().as_str(), "/bin/sh");
    assert!(b.path().ends_with("/sh"));
}

#[test]
fn find_first_match_in_order_wins() {
    let b = Binary::find("sh", "/bin:/usr/bin").expect("sh is in /bin");
    assert_eq!(b.path().as_str(), "/bin/sh");
}

#[test]
fn find_absent_name_fails_with_path_error() {
    let r = Binary::find("no-such-binary-qqq", "/bin:/usr/bin");
    match r {
        Ok(_) => panic!("expected a resolution failure"),
        Err(e) => {
            assert_eq!(e.kind, ErrorKind::PathError);
            assert!(e.message.contains("no-such-binary-qqq"));
        }
    }
}

#[test]
fn binary_name_is_unchanged_here() {
    assert_eq!(Binary::binary_name("ls").as_str(), "ls");
    assert_eq!(Binary::binary_name("tool.exe").as_str(), "tool.exe");
}

#[test]
fn binary_name_for_windows_appends_exe_once() {
    assert_eq!(Binary::binary_name_for(Platform::Windows, "tool").as_str(), "tool.exe");
    assert_eq!(Binary::binary_name_for(Platform::Windows, "tool.exe").as_str(), "tool.exe");
    assert_eq!(Binary::binary_name_for(Platform::Unix, "tool").as_str(), "tool");
}
