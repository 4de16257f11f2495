use belay::shell::{managed_block, replace_or_append_block, Shell, BELAY_BEGIN, BELAY_END};

#[test]
fn shell_blocks_are_replaced_idempotently() {
    let old = format!("before\n\n{BELAY_BEGIN}\nold\n{BELAY_END}\nafter\n");
    let new = replace_or_append_block(&old, &managed_block(Shell::Zsh));

    assert!(new.contains("before"));
    assert!(new.contains("after"));
    assert!(new.contains("BELAY_SHELL_WRAPPER=1"));
    assert!(new.contains("py|rs-cli|go-cli)"));
    assert!(!new.contains("\nold\n"));
    assert_eq!(new.matches(BELAY_BEGIN).count(), 1);
}

use belay::shell::{detect_shell, shell_function, shell_from_file_name};

#[test]
fn block_is_appended_after_a_blank_line() {
    let block = managed_block(Shell::Bash);
    assert_eq!(replace_or_append_block("", &block), block);
    assert_eq!(replace_or_append_block("x", &block), format!("x\n\n{block}"));
    assert_eq!(replace_or_append_block("x\n", &block), format!("x\n\n{block}"));
}

#[test]
fn unclosed_block_gets_a_new_block_after_it() {
    let block = managed_block(Shell::Bash);
    let current = format!("a\n{BELAY_BEGIN}\nhalf");
    assert_eq!(
        replace_or_append_block(&current, &block),
        format!("{current}\n{block}")
    );
}

#[test]
fn installing_twice_changes_nothing() {
    let block = managed_block(Shell::Zsh);
    for current in [
        String::new(),
        "export A=1".to_string(),
        format!("x\n{BELAY_BEGIN}\nold\n{BELAY_END}tail"),
    ] {
        let once = replace_or_append_block(&current, &block);
        let twice = replace_or_append_block(&once, &block);
        assert_eq!(once, twice);
    }
}

#[test]
fn managed_block_wraps_the_shell_function() {
    let block = managed_block(Shell::Fish);
    assert_eq!(
        block,
        format!("{BELAY_BEGIN}\n{}{BELAY_END}\n", shell_function(Shell::Fish))
    );
    assert!(shell_function(Shell::Fish).starts_with("function belay\n"));
    assert_eq!(shell_function(Shell::Bash), shell_function(Shell::Zsh));
}

#[test]
fn shells_are_detected_from_the_program_name() {
    assert_eq!(detect_shell(Some("/usr/bin/zsh")).unwrap(), Shell::Zsh);
    assert_eq!(detect_shell(Some("/opt/fish/bin/fish")).unwrap(), Shell::Fish);
    assert_eq!(detect_shell(Some("bash")).unwrap(), Shell::Bash);
    assert_eq!(
        detect_shell(None).unwrap_err().to_string(),
        "could not detect shell because SHELL is unset; pass fish, bash, or zsh"
    );
    assert_eq!(
        detect_shell(Some("/bin/tcsh")).unwrap_err().to_string(),
        "unsupported shell `tcsh`; pass fish, bash, or zsh"
    );
    assert_eq!(
        detect_shell(Some("/")).unwrap_err().to_string(),
        "unsupported shell ``; pass fish, bash, or zsh"
    );
    assert!(shell_from_file_name("ZSH").is_err());
}

use belay::shell::{integration_target, IntegrationBase};

#[test]
fn installs_fish_integration_under_config_home() {
    let target = integration_target(Shell::Fish, true);
    assert_eq!(target.base, IntegrationBase::ConfigHome);
    assert_eq!(target.parts, vec!["fish", "conf.d", "belay.fish"]);
    assert!(!target.managed_block);
    let script = shell_function(Shell::Fish);
    assert!(script.contains("function belay"));
    assert!(script.contains("BELAY_SHELL_WRAPPER=1"));
}

#[test]
fn fish_integration_falls_back_to_dot_config() {
    let target = integration_target(Shell::Fish, false);
    assert_eq!(target.base, IntegrationBase::Home);
    assert_eq!(target.parts, vec![".config", "fish", "conf.d", "belay.fish"]);
}

#[test]
fn bash_and_zsh_get_a_managed_block_in_their_startup_file() {
    for (shell, file) in [(Shell::Bash, ".bashrc"), (Shell::Zsh, ".zshrc")] {
        for config_home_set in [false, true] {
            let target = integration_target(shell, config_home_set);
            assert_eq!(target.base, IntegrationBase::Home);
            assert_eq!(target.parts, vec![file]);
            assert!(target.managed_block);
        }
    }
}

#[test]
fn installing_leaves_one_opening_line() {
    for current in ["", "export A=1\n", "x", "a\n# >>> belay shell integration >>>\nold\n# <<< belay shell integration <<<\nb\n"] {
        for shell in [Shell::Bash, Shell::Zsh, Shell::Fish] {
            let once = replace_or_append_block(current, &managed_block(shell));
            assert_eq!(once.matches(BELAY_BEGIN).count(), 1);
            assert_eq!(replace_or_append_block(&once, &managed_block(shell)), once);
        }
    }
}

#[test]
fn shell_functions_hand_over_to_the_wrapper_and_name_every_creating_command() {
    assert_eq!(shell_function(Shell::Bash), shell_function(Shell::Zsh));
    for shell in [Shell::Bash, Shell::Zsh, Shell::Fish] {
        let text = shell_function(shell);
        assert!(text.contains("BELAY_SHELL_WRAPPER=1"));
        assert!(!text.contains(BELAY_BEGIN));
        assert!(!text.contains(BELAY_END));
        assert!(!text.contains('#'));
        assert!(text.ends_with('\n'));
    }
    assert!(shell_function(Shell::Bash).contains("rs|py|rs-cli|go-cli)"));
    assert!(shell_function(Shell::Fish).starts_with("function belay"));
    assert!(shell_function(Shell::Fish).contains("case py rs-cli go-cli rs"));
}
