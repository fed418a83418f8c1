use lune_exec::run::{
    exit_code, find_newline, jit_disabled, strip_shebang, RunCommand, ScriptSource, EXIT_FAILURE,
};
use lune_exec::text::{copy_texts, same_text};

fn command(path: &str, args: &[&str]) -> RunCommand {
    RunCommand {
        script_path: path.to_string(),
        script_args: args.iter().map(|a| a.to_string()).collect(),
    }
}

#[test]
fn same_text_compares_characters() {
    assert!(same_text("", ""));
    assert!(same_text("off", "off"));
    assert!(!same_text("off", "Off"));
    assert!(!same_text("off", "of"));
}

#[test]
fn copy_texts_copies_every_string() {
    let strings = vec!["a".to_string(), String::new(), "bc".to_string()];
    assert_eq!(copy_texts(&strings), strings);
    assert_eq!(copy_texts(&Vec::new()), Vec::<String>::new());
}

#[test]
fn single_dash_means_stdin() {
    assert!(command("-", &[]).reads_stdin());
    assert!(!command("--", &[]).reads_stdin());
    assert!(!command("", &[]).reads_stdin());
    assert!(!command("script", &[]).reads_stdin());
    assert_eq!(command("-", &[]).source(), ScriptSource::Stdin);
    assert_eq!(command("a/b.luau", &[]).source(), ScriptSource::File("a/b.luau".to_string()));
}

#[test]
fn stdin_has_a_fixed_display_name() {
    assert_eq!(ScriptSource::Stdin.display_name(), Some("stdin".to_string()));
    assert_eq!(ScriptSource::File("x".to_string()).display_name(), None);
}

#[test]
fn jit_is_switched_off_by_three_values() {
    assert!(jit_disabled(Some("0")));
    assert!(jit_disabled(Some("false")));
    assert!(jit_disabled(Some("off")));
    assert!(!jit_disabled(Some("1")));
    assert!(!jit_disabled(Some("")));
    assert!(!jit_disabled(Some("FALSE")));
    assert!(!jit_disabled(Some("no")));
    assert!(!jit_disabled(None));
}

#[test]
fn plan_keeps_arguments_and_reads_the_setting() {
    let plan = command("-", &["a", "b"]).plan(Some("off"));
    assert_eq!(plan.source, ScriptSource::Stdin);
    assert_eq!(plan.script_args, vec!["a".to_string(), "b".to_string()]);
    assert!(!plan.jit_enabled);
    let plan = command("main", &[]).plan(None);
    assert_eq!(plan.source, ScriptSource::File("main".to_string()));
    assert!(plan.script_args.is_empty());
    assert!(plan.jit_enabled);
}

#[test]
fn exit_code_is_the_status_or_failure() {
    let ok: Result<u8, String> = Ok(0);
    assert_eq!(exit_code(&ok), 0);
    let ok: Result<u8, String> = Ok(42);
    assert_eq!(exit_code(&ok), 42);
    let failed: Result<u8, String> = Err("boom".to_string());
    assert_eq!(exit_code(&failed), 1);
    assert_eq!(EXIT_FAILURE, 1);
}

#[test]
fn shebang_line_is_taken_off_and_its_line_feed_kept() {
    assert_eq!(strip_shebang(b"#!/usr/bin/env lune\nprint(1)\n".to_vec()), b"\nprint(1)\n".to_vec());
    assert_eq!(strip_shebang(b"#!\n".to_vec()), b"\n".to_vec());
    assert_eq!(strip_shebang(b"#!a\n\nb\n".to_vec()), b"\n\nb\n".to_vec());
}

#[test]
fn script_without_shebang_line_is_left_alone() {
    assert_eq!(strip_shebang(b"print(1)\n#!x\n".to_vec()), b"print(1)\n#!x\n".to_vec());
    assert_eq!(strip_shebang(b"#!no line feed".to_vec()), b"#!no line feed".to_vec());
    assert_eq!(strip_shebang(b"#".to_vec()), b"#".to_vec());
    assert_eq!(strip_shebang(b" #!x\ny".to_vec()), b" #!x\ny".to_vec());
    assert_eq!(strip_shebang(Vec::new()), Vec::<u8>::new());
}

#[test]
fn first_line_feed_is_found() {
    assert_eq!(find_newline(&b"ab\ncd\n".to_vec()), Some(2));
    assert_eq!(find_newline(&b"\n".to_vec()), Some(0));
    assert_eq!(find_newline(&b"abc".to_vec()), None);
    assert_eq!(find_newline(&Vec::new()), None);
}
