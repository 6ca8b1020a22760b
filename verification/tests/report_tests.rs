use sysinfo_report::report::content_body;
use sysinfo_report::report::disk_tool_path;
use sysinfo_report::report::locate_binaries_body;
use sysinfo_report::report::megabyte_flag;
use sysinfo_report::report::memory_tool_path;
use sysinfo_report::report::run_outcome;
use sysinfo_report::report::tmpfs_target;

const BANNER: &str = "Sysinfo of (free tier) Deta.Space. Thank you Deta.Space & Love you.\n\
Format and URL routing/handling are subject to change!\n\
(https://github.com/peter-kehl/sysinfo-1-s4498989.deta.app)\n\n";

#[test]
fn body_has_banner_then_sections_in_order() {
    let body = content_body("MEMORY OUTPUT\n", "DISK OUTPUT\n");
    let expected = format!(
        "{}free -m:\nMEMORY OUTPUT\n\n-----\n\ndf -m /tmp:\nDISK OUTPUT\n",
        BANNER
    );
    assert_eq!(body, expected);
    assert!(body.starts_with(BANNER));
    let mem_at = body.find("free -m:\nMEMORY OUTPUT\n").unwrap();
    let sep_at = body.find("\n-----\n\n").unwrap();
    let disk_at = body.find("df -m /tmp:\nDISK OUTPUT\n").unwrap();
    assert!(mem_at < sep_at && sep_at < disk_at);
}

#[test]
fn body_with_empty_outputs_keeps_fixed_text() {
    let body = content_body("", "");
    let expected = format!("{}free -m:\n\n-----\n\ndf -m /tmp:\n", BANNER);
    assert_eq!(body, expected);
}

#[test]
fn successful_run_yields_decoded_stdout() {
    let out = run_outcome(
        "/usr/bin/free",
        true,
        b"mem summary\n".to_vec(),
        Vec::new(),
    );
    assert_eq!(out, Ok("mem summary\n".to_string()));
}

#[test]
fn failed_run_yields_diagnostic_with_stderr() {
    let out = run_outcome(
        "/usr/bin/free",
        false,
        b"ignored stdout".to_vec(),
        b"no such option\n".to_vec(),
    );
    assert_eq!(
        out,
        Err("Expecting /usr/bin/free to succeed, but it failed: no such option\n".to_string())
    );
}

#[test]
fn failed_run_decodes_stderr_bytes_one_to_one() {
    let out = run_outcome("/bin/df", false, Vec::new(), vec![0x41, 0x80]);
    assert_eq!(
        out,
        Err("Expecting /bin/df to succeed, but it failed: A\u{80}".to_string())
    );
}

#[test]
fn locate_body_joins_the_two_lookups() {
    let body = locate_binaries_body("free: /usr/bin/free", "df: /bin/df");
    assert_eq!(body, "free: /usr/bin/free\ndf: /bin/df");
}

#[test]
fn fixed_invocation_values() {
    assert_eq!(memory_tool_path(), "/usr/bin/free");
    assert_eq!(disk_tool_path(), "/bin/df");
    assert_eq!(megabyte_flag(), "-m");
    assert_eq!(tmpfs_target(), "/tmp");
}
