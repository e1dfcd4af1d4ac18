use ezexec::error::ErrorKind;
use ezexec::lookup::Binary;
use ezexec::lookup::Shell;
use ezexec::platform::Platform;

#[test]
fn shell_name_defaults_to_sh() {
    assert_eq!(Shell::shell_name().as_str(), "sh");
}

#[test]
fn shell_name_for_windows_is_powershell() {
    assert_eq!(Shell::shell_name_for(Platform::Windows).as_str(), "powershell.exe");
    assert_eq!(Shell::shell_name_for(Platform::Unix).as_str(), "sh");
}

#[test]
fn execstring_args_for_sh_is_dash_c() {
    let shell = Shell::find(Some("/bin/sh"), "").expect("sh exists");
    let args = shell.execstring_args().expect("sh is a known shell");
    let views: Vec<&str> = args.iter().map(|a| a.as_str()).collect();
    assert_eq!(views, vec!["-c"]);
}

#[test]
fn execstring_args_for_bash_is_dash_c() {
    let binary = Binary::from_probe("/somewhere/bash", true).expect("approved probe");
    let shell = Shell::from_binary(binary);
    let args = shell.execstring_args().expect("bash is a known shell");
    let views: Vec<&str> = args.iter().map(|a| a.as_str()).collect();
    assert_eq!(views, vec!["-c"]);
}

#[test]
fn execstring_args_for_powershell_table_row() {
    let binary = Binary::from_probe("powershell.exe", true).expect("approved probe");
    let shell = Shell::from_binary(binary);
    let args = shell.execstring_args().expect("powershell is a known shell");
    let views: Vec<&str> = args.iter().map(|a| a.as_str()).collect();
    assert_eq!(views, vec!["-executionpolicy", "bypass", "&"]);
}

#[test]
fn execstring_args_for_unknown_shell_fails() {
    let shell = Shell::find(Some("/bin/ls"), "").expect("ls exists as a file");
    let r = shell.execstring_args();
    match r {
        Ok(_) => panic!("expected a resolution failure"),
        Err(e) => {
            assert_eq!(e.kind, ErrorKind::PathError);
            assert!(e.message.contains("ls"));
        }
    }
}

#[test]
fn shell_find_falls_back_to_default_name() {
    let shell = Shell::find(None, "/bin:/usr/bin").expect("sh is in /bin");
    assert!(shell.path().ends_with("sh"));
}

#[test]
fn shell_find_missing_preferred_fails() {
    let r = Shell::find(Some("/no/such/shell-qqq"), "/bin");
    match r {
        Ok(_) => panic!("expected a resolution failure"),
        Err(e) => assert_eq!(e.kind, ErrorKind::PathError),
    }
}
