//! Assembly of the response body and the outcome of a tool invocation.
//!
//! The response body is fixed banner text, a labeled section with the memory
//! tool's decoded output, a separator, and a labeled section with the
//! disk-usage tool's decoded output, in that order. An invocation succeeds
//! only when the tool exited with a success status; otherwise a diagnostic
//! message carrying the decoded standard-error text is produced instead, and
//! no partial output is fabricated.

use vstd::prelude::*;
use vstd::string::StringExecFns;
use crate::decode::ascii_bytes_to_string;
use crate::decode::decoded;

verus! {

/// The banner and attribution block that opens every response body.
pub open spec fn banner() -> Seq<char> {
    "Sysinfo of (free tier) Deta.Space. Thank you Deta.Space & Love you.\n"@
        + "Format and URL routing/handling are subject to change!\n"@
        + "(https://github.com/peter-kehl/sysinfo-1-s4498989.deta.app)\n\n"@
}

/// The label that opens the memory-report section.
pub open spec fn memory_label() -> Seq<char> {
    "free -m:\n"@
}

/// The separator between the two sections, with the disk-usage label.
pub open spec fn separator() -> Seq<char> {
    "\n-----\n\n"@
}

/// The label that opens the disk-usage section.
pub open spec fn disk_label() -> Seq<char> {
    "df -m /tmp:\n"@
}

/// The whole response body for the two tool outputs.
pub open spec fn content_seq(free: Seq<char>, tmpfs: Seq<char>) -> Seq<char> {
    banner() + memory_label() + free + separator() + disk_label() + tmpfs
}

/// Assemble the response body from the memory tool's output and the
/// disk-usage tool's output.
pub fn content_body(free: &str, tmpfs: &str) -> (r: String)
    ensures
        r@ == content_seq(free@, tmpfs@),
{
    let mut r = String::new();
    r.append("Sysinfo of (free tier) Deta.Space. Thank you Deta.Space & Love you.\n");
    r.append("Format and URL routing/handling are subject to change!\n");
    r.append("(https://github.com/peter-kehl/sysinfo-1-s4498989.deta.app)\n\n");
    r.append("free -m:\n");
    r.append(free);
    r.append("\n-----\n\n");
    r.append("df -m /tmp:\n");
    r.append(tmpfs);
    proof {
        assert(r@ =~= content_seq(free@, tmpfs@));
    }
    r
}

/// Law: the response body begins with the banner verbatim, then the memory
/// section label and the memory output, then the separator, then the
/// disk-usage section label and the disk output — in that exact order, and
/// nothing else.
pub proof fn lemma_content_layout(free: Seq<char>, tmpfs: Seq<char>)
    ensures
        content_seq(free, tmpfs).len() == banner().len() + memory_label().len() + free.len()
            + separator().len() + disk_label().len() + tmpfs.len(),
        content_seq(free, tmpfs).subrange(0, banner().len() as int) == banner(),
        content_seq(free, tmpfs).subrange(
            banner().len() as int,
            (banner().len() + memory_label().len()) as int,
        ) == memory_label(),
        content_seq(free, tmpfs).subrange(
            (banner().len() + memory_label().len()) as int,
            (banner().len() + memory_label().len() + free.len()) as int,
        ) == free,
        content_seq(free, tmpfs).subrange(
            (banner().len() + memory_label().len() + free.len()) as int,
            (banner().len() + memory_label().len() + free.len() + separator().len()) as int,
        ) == separator(),
        content_seq(free, tmpfs).subrange(
            (banner().len() + memory_label().len() + free.len() + separator().len()) as int,
            (banner().len() + memory_label().len() + free.len() + separator().len()
                + disk_label().len()) as int,
        ) == disk_label(),
        content_seq(free, tmpfs).subrange(
            (banner().len() + memory_label().len() + free.len() + separator().len()
                + disk_label().len()) as int,
            content_seq(free, tmpfs).len() as int,
        ) == tmpfs,
{
    let whole = content_seq(free, tmpfs);
    let b = banner().len() as int;
    let m = memory_label().len() as int;
    let f = free.len() as int;
    let s = separator().len() as int;
    let d = disk_label().len() as int;
    assert(whole.subrange(0, b) =~= banner());
    assert(whole.subrange(b, b + m) =~= memory_label());
    assert(whole.subrange(b + m, b + m + f) =~= free);
    assert(whole.subrange(b + m + f, b + m + f + s) =~= separator());
    assert(whole.subrange(b + m + f + s, b + m + f + s + d) =~= disk_label());
    assert(whole.subrange(b + m + f + s + d, whole.len() as int) =~= tmpfs);
}

/// The diagnostic message produced when a tool exits with a failure status.
pub open spec fn failure_message(program: Seq<char>, stderr_text: Seq<char>) -> Seq<char> {
    "Expecting "@ + program + " to succeed, but it failed: "@ + stderr_text
}

/// Decide the outcome of a tool invocation from its exit status and captured
/// streams: on success the decoded standard output, on failure a diagnostic
/// naming the program and carrying the decoded standard-error text.
pub fn run_outcome(program: &str, success: bool, stdout: Vec<u8>, stderr: Vec<u8>) -> (r: Result<
    String,
    String,
>)
    ensures
        success <==> r is Ok,
        success ==> (r matches Ok(out) && out@ == decoded(stdout@)),
        !success ==> (r matches Err(msg) && msg@ == failure_message(program@, decoded(stderr@))),
{
    if success {
        Result::Ok(ascii_bytes_to_string(stdout))
    } else {
        let stderr_text = ascii_bytes_to_string(stderr);
        let mut msg = String::new();
        msg.append("Expecting ");
        msg.append(program);
        msg.append(" to succeed, but it failed: ");
        msg.append(stderr_text.as_str());
        proof {
            assert(msg@ =~= failure_message(program@, decoded(stderr@)));
        }
        Result::Err(msg)
    }
}

/// Assemble the body that lists where the two tools' binaries are found: the
/// first lookup's output, a line break, the second lookup's output.
pub fn locate_binaries_body(free: &str, df: &str) -> (r: String)
    ensures
        r@ == free@ + "\n"@ + df@,
{
    let mut r = String::new();
    r.append(free);
    r.append("\n");
    r.append(df);
    proof {
        assert(r@ =~= free@ + "\n"@ + df@);
    }
    r
}

/// The fixed absolute path of the memory-reporting tool.
pub fn memory_tool_path() -> (r: &'static str)
    ensures
        r@ == "/usr/bin/free"@,
{
    "/usr/bin/free"
}

/// The fixed absolute path of the disk-usage tool.
pub fn disk_tool_path() -> (r: &'static str)
    ensures
        r@ == "/bin/df"@,
{
    "/bin/df"
}

/// The flag that selects megabyte units for both tools.
pub fn megabyte_flag() -> (r: &'static str)
    ensures
        r@ == "-m"@,
{
    "-m"
}

/// The temporary-file directory whose usage the disk tool reports.
pub fn tmpfs_target() -> (r: &'static str)
    ensures
        r@ == "/tmp"@,
{
    "/tmp"
}

} // verus!
