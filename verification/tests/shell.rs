use minishell::command::{
    cd_error_message, failed_to_execute_message, not_found_message, pwd_error_message, Command,
};
use minishell::resolver::{CommandLocation, PathCandidate};
use minishell::text::str_eq;
use minishell::tokenizer::{tokenize, trim};

fn candidate(path: &str, exists: bool, executable: bool) -> PathCandidate {
    PathCandidate { path: path.to_string(), exists, executable }
}

fn no_candidates() -> Vec<PathCandidate> {
    Vec::new()
}

#[test]
fn tokenize_collapses_repeated_whitespace() {
    assert_eq!(tokenize("echo  hello   world"), vec!["echo", "hello", "world"]);
}

#[test]
fn tokenize_preserves_quoted_spaces() {
    assert_eq!(tokenize("echo 'a b' \"c d\""), vec!["echo", "a b", "c d"]);
}

#[test]
fn tokenize_concatenates_adjacent_quoted_segments() {
    assert_eq!(tokenize("echo 'it''s'"), vec!["echo", "its"]);
}

#[test]
fn tokenize_mixed_quotes_keep_other_quote_verbatim() {
    assert_eq!(tokenize("echo \"it's\""), vec!["echo", "it's"]);
    assert_eq!(tokenize("echo 'say \"hi\"'"), vec!["echo", "say \"hi\""]);
}

#[test]
fn tokenize_empty_and_blank_lines_yield_no_tokens() {
    assert!(tokenize("").is_empty());
    assert!(tokenize("   \t  ").is_empty());
}

#[test]
fn tokenize_tab_separates_tokens() {
    assert_eq!(tokenize("a\tb"), vec!["a", "b"]);
}

#[test]
fn tokenize_unterminated_quote_keeps_trailing_content() {
    assert_eq!(tokenize("echo 'a b"), vec!["echo", "a b"]);
}

#[test]
fn trim_strips_both_ends() {
    assert_eq!(trim("  ls -l \n"), "ls -l");
    assert_eq!(trim("\t\r\n"), "");
    assert_eq!(trim("plain"), "plain");
}

#[test]
fn str_eq_compares_contents() {
    assert!(str_eq("echo", "echo"));
    assert!(!str_eq("echo", "echos"));
    assert!(!str_eq("echo", "ecHo"));
    assert!(!str_eq("", "a"));
    assert!(str_eq("", ""));
}

#[test]
fn builtins_shadow_path_executables() {
    let shadowing = vec![candidate("/usr/bin/echo", true, true)];
    for name in ["echo", "exit", "type", "pwd", "cd"] {
        let loc = CommandLocation::resolve(name, &shadowing);
        assert!(matches!(loc, CommandLocation::Builtin));
    }
}

#[test]
fn resolve_picks_first_listed_directory() {
    let cs = vec![candidate("/a/prog", true, true), candidate("/b/prog", true, true)];
    match CommandLocation::resolve("prog", &cs) {
        CommandLocation::Executable(path) => assert_eq!(path, "/a/prog"),
        _ => panic!("expected an executable location"),
    }
}

#[test]
fn resolve_skips_missing_and_non_executable_entries() {
    let cs = vec![
        candidate("/a/prog", false, false),
        candidate("/b/prog", true, false),
        candidate("/c/prog", true, true),
    ];
    match CommandLocation::resolve("prog", &cs) {
        CommandLocation::Executable(path) => assert_eq!(path, "/c/prog"),
        _ => panic!("expected an executable location"),
    }
}

#[test]
fn resolve_without_usable_candidate_is_not_found() {
    let cs = vec![candidate("/a/prog", true, false)];
    assert!(matches!(CommandLocation::resolve("prog", &cs), CommandLocation::NotFound));
    assert!(matches!(CommandLocation::resolve("prog", &no_candidates()), CommandLocation::NotFound));
}

#[test]
fn describe_not_found_message() {
    let loc = CommandLocation::resolve("nosuchcmd123", &no_candidates());
    assert_eq!(loc.describe("nosuchcmd123"), "nosuchcmd123: not found");
}

#[test]
fn describe_builtin_and_executable_messages() {
    assert_eq!(CommandLocation::Builtin.describe("echo"), "echo is a shell builtin");
    let loc = CommandLocation::Executable("/usr/bin/ls".to_string());
    assert_eq!(loc.describe("ls"), "ls is /usr/bin/ls");
}

#[test]
fn exit_terminates_with_or_without_argument() {
    let home = None;
    for line in ["exit", "exit 0", "  exit 0\n"] {
        let cmd = Command::from_input(line, &home, &no_candidates());
        assert!(matches!(cmd, Command::Exit));
        assert!(cmd.terminates_loop());
    }
    let cmd = Command::from_input("pwd", &home, &no_candidates());
    assert!(!cmd.terminates_loop());
}

#[test]
fn echo_joins_words_with_single_spaces() {
    let home = None;
    match Command::from_input("echo  hello   'a b'\n", &home, &no_candidates()) {
        Command::Echo { display_string } => assert_eq!(display_string, "hello a b"),
        _ => panic!("expected an echo command"),
    }
    match Command::from_input("echo", &home, &no_candidates()) {
        Command::Echo { display_string } => assert_eq!(display_string, ""),
        _ => panic!("expected an echo command"),
    }
}

#[test]
fn type_takes_first_argument_only() {
    let home = None;
    match Command::from_input("type ls extra\n", &home, &no_candidates()) {
        Command::Type { command_name } => assert_eq!(command_name, "ls"),
        _ => panic!("expected a type command"),
    }
}

#[test]
fn type_without_argument_is_unrecognized() {
    let home = None;
    match Command::from_input("type\n", &home, &no_candidates()) {
        Command::Unrecognized { raw_text } => assert_eq!(raw_text, "type"),
        _ => panic!("expected an unrecognized command"),
    }
}

#[test]
fn pwd_is_recognized() {
    let home = None;
    assert!(matches!(Command::from_input("pwd\n", &home, &no_candidates()), Command::Pwd));
}

#[test]
fn cd_without_argument_and_tilde_use_home() {
    let home = Some("/home/user".to_string());
    for line in ["cd", "cd ~"] {
        match Command::from_input(line, &home, &no_candidates()) {
            Command::Cd { target } => assert_eq!(target, "/home/user"),
            _ => panic!("expected a cd command"),
        }
    }
}

#[test]
fn cd_without_home_falls_back_to_root() {
    let home = None;
    match Command::from_input("cd ~", &home, &no_candidates()) {
        Command::Cd { target } => assert_eq!(target, "/"),
        _ => panic!("expected a cd command"),
    }
}

#[test]
fn cd_with_explicit_target_keeps_it_verbatim() {
    let home = Some("/home/user".to_string());
    match Command::from_input("cd /nonexistent\n", &home, &no_candidates()) {
        Command::Cd { target } => assert_eq!(target, "/nonexistent"),
        _ => panic!("expected a cd command"),
    }
    assert_eq!(cd_error_message("/nonexistent"), "cd: /nonexistent: No such file or directory");
}

#[test]
fn unknown_command_echoes_whole_trimmed_line() {
    let home = None;
    match Command::from_input("foobar arg1\n", &home, &no_candidates()) {
        Command::Unrecognized { raw_text } => {
            assert_eq!(not_found_message(&raw_text), "foobar arg1: command not found");
        }
        _ => panic!("expected an unrecognized command"),
    }
}

#[test]
fn empty_line_is_unrecognized_with_empty_text() {
    let home = None;
    match Command::from_input("\n", &home, &no_candidates()) {
        Command::Unrecognized { raw_text } => assert_eq!(raw_text, ""),
        _ => panic!("expected an unrecognized command"),
    }
}

#[test]
fn external_command_keeps_name_and_arguments() {
    let home = None;
    let cs = vec![candidate("/usr/bin/prog", true, true)];
    match Command::from_input("prog x 'y z'\n", &home, &cs) {
        Command::External { program, args } => {
            assert_eq!(program, "prog");
            assert_eq!(args, vec!["x", "y z"]);
        }
        _ => panic!("expected an external command"),
    }
}

#[test]
fn diagnostic_messages_have_exact_text() {
    assert_eq!(not_found_message("prog"), "prog: command not found");
    assert_eq!(failed_to_execute_message("prog"), "prog: failed to execute");
    assert_eq!(pwd_error_message(), "pwd: error retrieving current directory");
}
