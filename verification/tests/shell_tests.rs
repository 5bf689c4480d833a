use at::shell::{cd_command, cd_hook_block, functions_block, shell_quote};

#[test]
fn quotes_paths_for_shell_eval() {
    assert_eq!(shell_quote(""), "''");
    assert_eq!(shell_quote("/home/a b/project"), "'/home/a b/project'");
    assert_eq!(
        shell_quote("/home/it's/project"),
        "'/home/it'\\''s/project'"
    );
}

#[test]
fn cd_command_wraps_quoted_path() {
    assert_eq!(
        cd_command("/home/congke/work/at flow"),
        "cd -- '/home/congke/work/at flow'"
    );
    assert_eq!(cd_command("-x"), "cd -- '-x'");
}

#[test]
fn functions_include_user_facing_entries() {
    let block = functions_block();
    assert!(block.contains("@()"));
    assert!(block.contains("@recent()"));
    assert!(block.contains("@flow()"));
    assert!(block.contains("@search()"));
}

#[test]
fn functions_use_command_at_and_propagate_failures() {
    let block = functions_block();
    assert!(block.contains(r#"out="$(command at menu --shell)" || return"#));
    assert!(
        block.contains(r#"recent) shift; out="$(command at recent --shell "$@")" || return"#)
    );
    assert!(block.contains(r#"setting) shift; command at setting "$@""#));
    assert!(block.contains(r#"out="$(command at recent --shell "$@")" || return"#));
    assert!(block.contains(r#"out="$(command at flow --shell "$@")" || return"#));
    assert!(block.contains(r#"out="$(command at search --shell "$@")" || return"#));
    assert!(block.contains(r#"@setting() { command at setting "$@"; }"#));
    assert!(!block.contains(r#"eval "$(at"#));
}

#[test]
fn hook_records_directory_changes() {
    let hook = cd_hook_block();
    assert!(hook.contains("_atflow_record_cd"));
    assert!(hook.contains("recent-record"));
}

#[test]
fn quoting_escapes_every_single_quote() {
    assert_eq!(shell_quote("'"), "''\\'''");
    assert_eq!(shell_quote("a''b"), "'a'\\'''\\''b'");
    assert_eq!(shell_quote("$HOME `x` \"y\""), "'$HOME `x` \"y\"'");
}
