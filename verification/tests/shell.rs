use rust_terminal::shell::{
    child_environment, has_name, is_powershell_dir, unix_system_shell, windows_system_shell,
    Shell, TerminalBounds, WindowSize, CELL_HEIGHT, CELL_WIDTH,
};

fn pair(name: &str, value: &str) -> (String, String) {
    (name.to_string(), value.to_string())
}

fn lookup(env: &[(String, String)], name: &str) -> Option<String> {
    env.iter().rev().find(|(key, _)| key == name).map(|(_, value)| value.clone())
}

#[test]
fn default_bounds_are_24_by_80() {
    let bounds = TerminalBounds::default();
    assert_eq!(bounds, TerminalBounds { num_lines: 24, num_cols: 80 });
    assert_eq!(bounds.total_lines(), 24);
    assert_eq!(bounds.screen_lines(), 24);
    assert_eq!(bounds.columns(), 80);
}

#[test]
fn window_size_of_bounds() {
    assert_eq!((CELL_WIDTH, CELL_HEIGHT), (8, 16));
    assert_eq!(
        WindowSize::from(TerminalBounds::default()),
        WindowSize { num_lines: 24, num_cols: 80, cell_width: 8, cell_height: 16 }
    );
    assert_eq!(
        WindowSize::from(TerminalBounds { num_lines: 65536 + 7, num_cols: 65535 }),
        WindowSize { num_lines: 7, num_cols: 65535, cell_width: 8, cell_height: 16 }
    );
}

#[test]
fn command_of_each_shell() {
    assert_eq!(
        Shell::System.into_command("/bin/zsh".to_string()),
        ("/bin/zsh".to_string(), Vec::<String>::new())
    );
    assert_eq!(
        Shell::Program("/bin/fish".to_string()).into_command("/bin/zsh".to_string()),
        ("/bin/fish".to_string(), Vec::<String>::new())
    );
    let with_arguments = Shell::WithArguments {
        program: "/bin/bash".to_string(),
        args: vec!["-l".to_string(), "-i".to_string()],
    };
    assert_eq!(
        with_arguments.into_command("/bin/zsh".to_string()),
        ("/bin/bash".to_string(), vec!["-l".to_string(), "-i".to_string()])
    );
}

#[test]
fn unix_shell_falls_back_to_sh() {
    assert_eq!(unix_system_shell(Some("/usr/bin/fish".to_string())), "/usr/bin/fish");
    assert_eq!(unix_system_shell(None), "/bin/sh");
}

#[test]
fn windows_shell_takes_the_first_found() {
    let seven = Some("C:\\pwsh7\\pwsh.exe".to_string());
    let six = Some("C:\\pwsh6\\pwsh.exe".to_string());
    let old = Some("C:\\Windows\\powershell.exe".to_string());
    let comspec = Some("C:\\Windows\\cmd.exe".to_string());
    assert_eq!(
        windows_system_shell(seven.clone(), six.clone(), old.clone(), comspec.clone()),
        "C:\\pwsh7\\pwsh.exe"
    );
    assert_eq!(
        windows_system_shell(None, six.clone(), old.clone(), comspec.clone()),
        "C:\\pwsh6\\pwsh.exe"
    );
    assert_eq!(
        windows_system_shell(None, None, old.clone(), comspec.clone()),
        "C:\\Windows\\powershell.exe"
    );
    assert_eq!(windows_system_shell(None, None, None, comspec), "C:\\Windows\\cmd.exe");
    assert_eq!(windows_system_shell(None, None, None, None), "cmd.exe");
}

#[test]
fn powershell_directories_are_told_by_their_first_character() {
    assert!(is_powershell_dir("7", false));
    assert!(is_powershell_dir("7-preview", true));
    assert!(is_powershell_dir("6.2.0", false));
    assert!(!is_powershell_dir("6.2.0", true));
    assert!(!is_powershell_dir("5", false));
    assert!(!is_powershell_dir("", false));
    assert!(!is_powershell_dir("v7", false));
}

#[test]
fn has_name_finds_a_pair() {
    let env = vec![pair("HOME", "/root"), pair("LANG", "C")];
    assert!(has_name(&env, "LANG"));
    assert!(has_name(&env, "HOME"));
    assert!(!has_name(&env, "LAN"));
    assert!(!has_name(&env, "TERM"));
    assert!(!has_name(&Vec::new(), "LANG"));
}

#[test]
fn child_environment_keeps_the_language_of_the_host() {
    let host = vec![pair("HOME", "/root"), pair("LANG", "ko_KR.UTF-8"), pair("TERM", "dumb")];
    let env = child_environment(host);
    assert_eq!(
        env,
        vec![
            pair("HOME", "/root"),
            pair("LANG", "ko_KR.UTF-8"),
            pair("TERM", "dumb"),
            pair("TERM_PROGRAM", "zed"),
            pair("TERM", "xterm-256color"),
            pair("TERM_PROGRAM_VERSION", "1.0.0"),
        ]
    );
    assert_eq!(lookup(&env, "LANG"), Some("ko_KR.UTF-8".to_string()));
    assert_eq!(lookup(&env, "TERM"), Some("xterm-256color".to_string()));
    assert_eq!(lookup(&env, "HOME"), Some("/root".to_string()));
}

#[test]
fn child_environment_sets_a_language_where_there_is_none() {
    let env = child_environment(vec![pair("HOME", "/root")]);
    assert_eq!(
        env,
        vec![
            pair("HOME", "/root"),
            pair("LANG", "en_US.UTF-8"),
            pair("TERM_PROGRAM", "zed"),
            pair("TERM", "xterm-256color"),
            pair("TERM_PROGRAM_VERSION", "1.0.0"),
        ]
    );
    let bare = child_environment(Vec::new());
    assert_eq!(lookup(&bare, "LANG"), Some("en_US.UTF-8".to_string()));
    assert_eq!(lookup(&bare, "TERM_PROGRAM"), Some("zed".to_string()));
    assert_eq!(lookup(&bare, "TERM_PROGRAM_VERSION"), Some("1.0.0".to_string()));
    assert_eq!(lookup(&bare, "SHELL"), None);
}
