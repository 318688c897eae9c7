//! Construction of the privileged self-update invocations: the command
//! lines and elevation scripts handed to the per-OS shells.  The driver
//! runs them; everything that decides what they say is verified, down to
//! the quoting that keeps the program and argument names intact inside the
//! host shell's own string syntax.

use vstd::prelude::*;
use crate::text::{
    chars_of, escape_backslashes, escape_double_quotes, escape_posix_quotes, escape_ps_quotes,
    extend_chars, push_str, spec_escape_bs, spec_escape_dq, spec_escape_posix, spec_escape_ps,
};

verus! {

/// `s` wrapped in a POSIX single-quoted string, quotes escaped.
pub open spec fn spec_posix_quote(s: Seq<char>) -> Seq<char> {
    seq!['\''] + spec_escape_posix(s) + seq!['\'']
}

/// Quote `s` for a POSIX shell.
pub fn posix_quote(s: &str) -> (r: Vec<char>)
    ensures
        r@ == spec_posix_quote(s@),
{
    let mut r: Vec<char> = Vec::new();
    r.push('\'');
    let e = escape_posix_quotes(&chars_of(s));
    extend_chars(&mut r, &e);
    r.push('\'');
    assert(r@ =~= spec_posix_quote(s@));
    r
}

/// `s` wrapped in a PowerShell single-quoted string, quotes doubled.
pub open spec fn spec_ps_quote(s: Seq<char>) -> Seq<char> {
    seq!['\''] + spec_escape_ps(s) + seq!['\'']
}

/// Quote `s` for PowerShell.
pub fn ps_quote(s: &str) -> (r: Vec<char>)
    ensures
        r@ == spec_ps_quote(s@),
{
    let mut r: Vec<char> = Vec::new();
    r.push('\'');
    let e = escape_ps_quotes(&chars_of(s));
    extend_chars(&mut r, &e);
    r.push('\'');
    assert(r@ =~= spec_ps_quote(s@));
    r
}

/// The POSIX command line that runs `program arg` with the common install
/// prefixes put on the search path first.
pub open spec fn spec_posix_cmdline(program: Seq<char>, arg: Seq<char>) -> Seq<char> {
    "PATH=/opt/homebrew/bin:/usr/local/bin:/usr/bin:/bin:$PATH; "@ + spec_posix_quote(program)
        + " "@ + spec_posix_quote(arg)
}

/// Build the POSIX command line for `program arg`.
pub fn posix_cmdline(program: &str, arg: &str) -> (r: Vec<char>)
    ensures
        r@ == spec_posix_cmdline(program@, arg@),
{
    let mut r: Vec<char> = Vec::new();
    push_str(&mut r, "PATH=/opt/homebrew/bin:/usr/local/bin:/usr/bin:/bin:$PATH; ");
    let p = posix_quote(program);
    extend_chars(&mut r, &p);
    push_str(&mut r, " ");
    let a = posix_quote(arg);
    extend_chars(&mut r, &a);
    r
}

/// The macOS elevation script: a `do shell script ... with administrator
/// privileges` invocation whose embedded command line is escaped for the
/// scripting tool's string syntax — backslashes doubled first, then double
/// quotes escaped, so that no character of the command line leaks out of
/// the embedded string.
pub open spec fn spec_admin_shell_script(
    program: Seq<char>,
    arg: Seq<char>,
    prompt: Seq<char>,
) -> Seq<char> {
    "do shell script \""@ + spec_escape_dq(spec_escape_bs(spec_posix_cmdline(program, arg)))
        + "\" with administrator privileges with prompt \""@ + spec_escape_dq(prompt) + "\""@
}

/// Build the macOS elevation script for `program arg`.
pub fn admin_shell_script(program: &str, arg: &str, prompt: &str) -> (r: Vec<char>)
    ensures
        r@ == spec_admin_shell_script(program@, arg@, prompt@),
{
    let cmdline = posix_cmdline(program, arg);
    let embedded = escape_double_quotes(&escape_backslashes(&cmdline));
    let mut r: Vec<char> = Vec::new();
    push_str(&mut r, "do shell script \"");
    extend_chars(&mut r, &embedded);
    push_str(&mut r, "\" with administrator privileges with prompt \"");
    let p = escape_double_quotes(&chars_of(prompt));
    extend_chars(&mut r, &p);
    push_str(&mut r, "\"");
    r
}

/// The Windows elevation script: starts `program` with the one argument
/// through an elevated process, waits, and exits with the child's code.
pub open spec fn spec_windows_elevate_script(program: Seq<char>, arg: Seq<char>) -> Seq<char> {
    "$p = Start-Process -Verb RunAs -WindowStyle Hidden -PassThru -FilePath "@ + spec_ps_quote(
        program,
    ) + " -ArgumentList @("@ + spec_ps_quote(arg)
        + "); \n$p.WaitForExit();\nexit $p.ExitCode"@
}

/// Build the Windows elevation script for `program arg`.
pub fn windows_elevate_script(program: &str, arg: &str) -> (r: Vec<char>)
    ensures
        r@ == spec_windows_elevate_script(program@, arg@),
{
    let mut r: Vec<char> = Vec::new();
    push_str(&mut r, "$p = Start-Process -Verb RunAs -WindowStyle Hidden -PassThru -FilePath ");
    let p = ps_quote(program);
    extend_chars(&mut r, &p);
    push_str(&mut r, " -ArgumentList @(");
    let a = ps_quote(arg);
    extend_chars(&mut r, &a);
    push_str(&mut r, "); \n$p.WaitForExit();\nexit $p.ExitCode");
    r
}

} // verus!
