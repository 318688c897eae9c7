// Tests of the host-utility decisions: dialog scripts and their parsing,
// self-update command construction, process-table reading, architecture
// naming, archive classification, proxy validation, window arithmetic.

use hostcore::dialog::{
    applescript_prompt, dialog_value, linux_prompt_value, macos_prompt_value, ps_prompt_script,
    windows_prompt_value,
};
use hostcore::geometry::{cascade_offset, centered, toolbar_pos, window_selected};
use hostcore::host::{arch_label, connection_snippet, entry_is_dir, proxy_url, tray_candidate};
use hostcore::procs::{is_rclone_process_name, tasklist_reports_running};
use hostcore::shortcut::{
    normalize_shortcut, DEFAULT_TOOLBAR_SHORTCUT, TOOLBAR_PHYSICAL_HEIGHT, TOOLBAR_PHYSICAL_WIDTH,
    TOOLBAR_WINDOW_LABEL,
};
use hostcore::update::{admin_shell_script, posix_quote, ps_quote, windows_elevate_script};

fn s(v: Vec<char>) -> String {
    v.into_iter().collect()
}

#[test]
fn applescript_prompt_plain() {
    let script = s(applescript_prompt("Login", "Enter name", "guest", false));
    assert_eq!(
        script,
        "display dialog \"Enter name\" with title \"Login\" default answer \"guest\""
    );
}

#[test]
fn applescript_prompt_hidden_and_escaped() {
    let script = s(applescript_prompt("A \"B\"", "say \"hi\"", "", true));
    assert_eq!(
        script,
        "display dialog \"say \\\"hi\\\"\" with title \"A \\\"B\\\"\" default answer \"\" with hidden answer"
    );
}

#[test]
fn dialog_value_extracts_between_markers() {
    let out = "text returned:hello world, button returned:OK";
    assert_eq!(dialog_value(out).map(s), Some("hello world".to_string()));
}

#[test]
fn dialog_value_without_button_marker_takes_rest() {
    assert_eq!(dialog_value("text returned:abc").map(s), Some("abc".to_string()));
}

#[test]
fn dialog_value_without_marker_is_none() {
    assert_eq!(dialog_value("button returned:OK"), None);
    assert_eq!(dialog_value(""), None);
}

#[test]
fn dialog_value_empty_answer() {
    let out = "text returned:, button returned:OK";
    assert_eq!(dialog_value(out).map(s), Some("".to_string()));
}

#[test]
fn macos_prompt_value_needs_success() {
    let out = "text returned:abc, button returned:OK";
    assert_eq!(macos_prompt_value(true, out).map(s), Some("abc".to_string()));
    assert_eq!(macos_prompt_value(false, out), None);
}

#[test]
fn ps_prompt_script_quotes_fields() {
    let script = s(ps_prompt_script("O'Brien", "What's up?", "d'oh", true));
    assert!(script.contains("$form.Text = 'O''Brien'"));
    assert!(script.contains("$label.Text = 'What''s up?'"));
    assert!(script.contains("$textBox.Text = 'd''oh'"));
    assert!(script.contains("$textBox.UseSystemPasswordChar = $true"));
    assert!(script.contains("Add-Type -AssemblyName System.Windows.Forms"));
}

#[test]
fn ps_prompt_script_password_flag_off() {
    let script = s(ps_prompt_script("T", "M", "", false));
    assert!(script.contains("$textBox.UseSystemPasswordChar = $false"));
}

#[test]
fn linux_prompt_value_cases() {
    assert_eq!(linux_prompt_value(false, true, " abc \n").map(s), Some("abc".to_string()));
    assert_eq!(linux_prompt_value(false, true, "\n").map(s), Some("".to_string()));
    assert_eq!(linux_prompt_value(true, true, "\n"), None);
    assert_eq!(linux_prompt_value(true, true, "secret\n").map(s), Some("secret".to_string()));
    assert_eq!(linux_prompt_value(false, false, "abc"), None);
}

#[test]
fn windows_prompt_value_cases() {
    assert_eq!(windows_prompt_value(true, " abc \r\n", "").map(s), Some("abc".to_string()));
    // A blank answer still counts when a default was supplied.
    assert_eq!(windows_prompt_value(true, " \r\n", "guest").map(s), Some("".to_string()));
    assert_eq!(windows_prompt_value(true, "", ""), None);
    assert_eq!(windows_prompt_value(false, "abc", "guest"), None);
}

#[test]
fn posix_quote_exact() {
    assert_eq!(s(posix_quote("rclone")), "'rclone'");
    assert_eq!(s(posix_quote("it's")), "'it'\\''s'");
}

#[test]
fn ps_quote_exact() {
    assert_eq!(s(ps_quote("rclone")), "'rclone'");
    assert_eq!(s(ps_quote("it's")), "'it''s'");
}

#[test]
fn admin_shell_script_exact() {
    let script = s(admin_shell_script(
        "rclone",
        "selfupdate",
        "Rclone UI needs permission to run rclone selfupdate.",
    ));
    assert_eq!(
        script,
        "do shell script \"PATH=/opt/homebrew/bin:/usr/local/bin:/usr/bin:/bin:$PATH; \
         'rclone' 'selfupdate'\" with administrator privileges with prompt \
         \"Rclone UI needs permission to run rclone selfupdate.\""
    );
}

#[test]
fn windows_elevate_script_exact() {
    let script = s(windows_elevate_script("rclone", "selfupdate"));
    assert_eq!(
        script,
        "$p = Start-Process -Verb RunAs -WindowStyle Hidden -PassThru -FilePath 'rclone' \
         -ArgumentList @('selfupdate'); \n$p.WaitForExit();\nexit $p.ExitCode"
    );
}

#[test]
fn rclone_name_matching() {
    assert!(is_rclone_process_name("rclone"));
    assert!(is_rclone_process_name("RClone.EXE"));
    assert!(is_rclone_process_name("rclone.exe"));
    assert!(!is_rclone_process_name("rcloned"));
    assert!(!is_rclone_process_name("my-rclone"));
    assert!(!is_rclone_process_name(""));
}

#[test]
fn tasklist_output_reading() {
    let pid: u32 = 4711;
    assert!(tasklist_reports_running("\"rclone.exe\",\"4711\",\"Console\"", pid));
    assert!(!tasklist_reports_running("", pid));
    assert!(!tasklist_reports_running("   \r\n", pid));
    assert!(!tasklist_reports_running("INFO: No tasks are running which match 4711.", pid));
    assert!(!tasklist_reports_running("\"other.exe\",\"9999\",\"Console\"", pid));
}

#[test]
fn arch_label_mapping() {
    assert_eq!(arch_label("aarch64"), "arm64");
    assert_eq!(arch_label("x86_64"), "amd64");
    assert_eq!(arch_label("i386"), "386");
    assert_eq!(arch_label("riscv64"), "unknown");
}

#[test]
fn tray_candidate_decision() {
    assert_eq!(tray_candidate(false, None), None);
    assert_eq!(tray_candidate(false, Some(true)), None);
    assert_eq!(tray_candidate(true, Some(false)), Some(false));
    assert_eq!(tray_candidate(true, Some(true)), Some(true));
    // An owner whose property cannot be read still counts as a watcher.
    assert_eq!(tray_candidate(true, None), Some(true));
}

#[test]
fn archive_entry_classification() {
    assert!(entry_is_dir("dir/"));
    assert!(entry_is_dir("dir\\"));
    assert!(!entry_is_dir("dir/file.txt"));
    assert!(!entry_is_dir(""));
}

#[test]
fn proxy_url_validation() {
    assert_eq!(proxy_url(""), None);
    assert_eq!(proxy_url("   \t"), None);
    assert_eq!(proxy_url(" http://127.0.0.1:8080 ").map(s), Some("http://127.0.0.1:8080".to_string()));
}

#[test]
fn connection_snippet_caps_at_two_hundred() {
    let long: String = "x".repeat(250);
    assert_eq!(connection_snippet(&long).len(), 200);
    assert_eq!(s(connection_snippet("short")), "short");
}

#[test]
fn cascade_offset_alternates() {
    assert_eq!(cascade_offset(0), 0);
    assert_eq!(cascade_offset(1), -20);
    assert_eq!(cascade_offset(2), 40);
    assert_eq!(cascade_offset(3), -60);
}

#[test]
fn centered_position() {
    assert_eq!(centered(100, 1000, 400), 400);
    // A window wider than the monitor: rounding toward zero, as the
    // machine's signed division does.
    assert_eq!(centered(0, 300, 401), -50);
}

#[test]
fn toolbar_position() {
    assert_eq!(toolbar_pos(0, 0, 2560, 1440, TOOLBAR_PHYSICAL_WIDTH), (929, 360));
    assert_eq!(TOOLBAR_PHYSICAL_HEIGHT, 460);
}

#[test]
fn window_selection() {
    assert!(window_selected("main", &None));
    let ids = Some(vec!["main".to_string(), "Toolbar".to_string()]);
    assert!(window_selected(TOOLBAR_WINDOW_LABEL, &ids));
    assert!(!window_selected("other", &ids));
    assert!(!window_selected("main", &Some(vec![])));
}

#[test]
fn shortcut_normalisation() {
    assert_eq!(normalize_shortcut(None), None);
    assert_eq!(normalize_shortcut(Some("   ")), None);
    assert_eq!(normalize_shortcut(Some(" Ctrl+X ")).map(s), Some("Ctrl+X".to_string()));
    assert_eq!(
        normalize_shortcut(Some(DEFAULT_TOOLBAR_SHORTCUT)).map(s),
        Some(DEFAULT_TOOLBAR_SHORTCUT.to_string())
    );
}
