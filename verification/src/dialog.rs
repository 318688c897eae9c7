//! Native text and password prompts: the scripts handed to the per-OS
//! dialog tools, and the reading of what those tools print back.
//!
//! The driver picks the tool for the host OS, runs it, and hands its exit
//! status and captured output to the functions here; everything that
//! decides what to ask and how to read the answer is verified.

use vstd::prelude::*;
use crate::text::{
    chars_of, escape_double_quotes, escape_ps_quotes, find_chars, push_str, extend_chars,
    spec_escape_dq, spec_escape_ps, spec_find, spec_trim, subrange_chars, trim,
};

verus! {

/// The dialog script handed to the macOS scripting tool: a `display
/// dialog` invocation with the message, title and default answer quoted
/// and escaped, asking for a hidden answer when the prompt is sensitive.
pub open spec fn spec_applescript_prompt(
    title: Seq<char>,
    message: Seq<char>,
    default: Seq<char>,
    hidden: bool,
) -> Seq<char> {
    "display dialog \""@ + spec_escape_dq(message) + "\" with title \""@ + spec_escape_dq(title)
        + "\" default answer \""@ + spec_escape_dq(default) + (if hidden {
        "\" with hidden answer"@
    } else {
        "\""@
    })
}

/// Build the macOS prompt script.
pub fn applescript_prompt(title: &str, message: &str, default: &str, hidden: bool) -> (r: Vec<
    char,
>)
    ensures
        r@ == spec_applescript_prompt(title@, message@, default@, hidden),
{
    let mut r: Vec<char> = Vec::new();
    push_str(&mut r, "display dialog \"");
    let m = escape_double_quotes(&chars_of(message));
    extend_chars(&mut r, &m);
    push_str(&mut r, "\" with title \"");
    let t = escape_double_quotes(&chars_of(title));
    extend_chars(&mut r, &t);
    push_str(&mut r, "\" default answer \"");
    let d = escape_double_quotes(&chars_of(default));
    extend_chars(&mut r, &d);
    if hidden {
        push_str(&mut r, "\" with hidden answer");
    } else {
        push_str(&mut r, "\"");
    }
    r
}

/// The dialog script handed to the Windows shell tool: a Windows Forms
/// input box with the title, message and default answer single-quoted and
/// escaped, masking the input when the prompt is sensitive.  The dialog
/// prints the entered text exactly when it was confirmed.
pub open spec fn spec_ps_prompt_script(
    title: Seq<char>,
    message: Seq<char>,
    default: Seq<char>,
    hidden: bool,
) -> Seq<char> {
    "
            Add-Type -AssemblyName System.Windows.Forms
            Add-Type -AssemblyName System.Drawing

            $form = New-Object System.Windows.Forms.Form
            $form.Text = '"@ + spec_escape_ps(title)
        + "'
            $form.Size = New-Object System.Drawing.Size(350, 180)
            $form.StartPosition = 'CenterScreen'
            $form.FormBorderStyle = 'FixedDialog'
            $form.MaximizeBox = $false
            $form.MinimizeBox = $false
            $form.TopMost = $true

            $label = New-Object System.Windows.Forms.Label
            $label.Location = New-Object System.Drawing.Point(10, 15)
            $label.Size = New-Object System.Drawing.Size(320, 40)
            $label.Text = '"@ + spec_escape_ps(message)
        + "'
            $form.Controls.Add($label)

            $textBox = New-Object System.Windows.Forms.TextBox
            $textBox.Location = New-Object System.Drawing.Point(10, 60)
            $textBox.Size = New-Object System.Drawing.Size(320, 20)
            $textBox.Text = '"@ + spec_escape_ps(default)
        + "'
            $textBox.UseSystemPasswordChar = "@ + (if hidden {
        "$true"@
    } else {
        "$false"@
    })
        + "
            $form.Controls.Add($textBox)

            $okButton = New-Object System.Windows.Forms.Button
            $okButton.Location = New-Object System.Drawing.Point(175, 100)
            $okButton.Size = New-Object System.Drawing.Size(75, 23)
            $okButton.Text = 'OK'
            $okButton.DialogResult = [System.Windows.Forms.DialogResult]::OK
            $form.AcceptButton = $okButton
            $form.Controls.Add($okButton)

            $cancelButton = New-Object System.Windows.Forms.Button
            $cancelButton.Location = New-Object System.Drawing.Point(255, 100)
            $cancelButton.Size = New-Object System.Drawing.Size(75, 23)
            $cancelButton.Text = 'Cancel'
            $cancelButton.DialogResult = [System.Windows.Forms.DialogResult]::Cancel
            $form.CancelButton = $cancelButton
            $form.Controls.Add($cancelButton)

            $form.Add_Shown({$textBox.Select()})
            $result = $form.ShowDialog()

            if ($result -eq [System.Windows.Forms.DialogResult]::OK) {
                $textBox.Text
            }
            "@
}

/// Build the Windows prompt script.
pub fn ps_prompt_script(title: &str, message: &str, default: &str, hidden: bool) -> (r: Vec<char>)
    ensures
        r@ == spec_ps_prompt_script(title@, message@, default@, hidden),
{
    let mut r: Vec<char> = Vec::new();
    push_str(
        &mut r,
        "
            Add-Type -AssemblyName System.Windows.Forms
            Add-Type -AssemblyName System.Drawing

            $form = New-Object System.Windows.Forms.Form
            $form.Text = '",
    );
    let t = escape_ps_quotes(&chars_of(title));
    extend_chars(&mut r, &t);
    push_str(
        &mut r,
        "'
            $form.Size = New-Object System.Drawing.Size(350, 180)
            $form.StartPosition = 'CenterScreen'
            $form.FormBorderStyle = 'FixedDialog'
            $form.MaximizeBox = $false
            $form.MinimizeBox = $false
            $form.TopMost = $true

            $label = New-Object System.Windows.Forms.Label
            $label.Location = New-Object System.Drawing.Point(10, 15)
            $label.Size = New-Object System.Drawing.Size(320, 40)
            $label.Text = '",
    );
    let m = escape_ps_quotes(&chars_of(message));
    extend_chars(&mut r, &m);
    push_str(
        &mut r,
        "'
            $form.Controls.Add($label)

            $textBox = New-Object System.Windows.Forms.TextBox
            $textBox.Location = New-Object System.Drawing.Point(10, 60)
            $textBox.Size = New-Object System.Drawing.Size(320, 20)
            $textBox.Text = '",
    );
    let d = escape_ps_quotes(&chars_of(default));
    extend_chars(&mut r, &d);
    push_str(
        &mut r,
        "'
            $textBox.UseSystemPasswordChar = ",
    );
    if hidden {
        push_str(&mut r, "$true");
    } else {
        push_str(&mut r, "$false");
    }
    push_str(
        &mut r,
        "
            $form.Controls.Add($textBox)

            $okButton = New-Object System.Windows.Forms.Button
            $okButton.Location = New-Object System.Drawing.Point(175, 100)
            $okButton.Size = New-Object System.Drawing.Size(75, 23)
            $okButton.Text = 'OK'
            $okButton.DialogResult = [System.Windows.Forms.DialogResult]::OK
            $form.AcceptButton = $okButton
            $form.Controls.Add($okButton)

            $cancelButton = New-Object System.Windows.Forms.Button
            $cancelButton.Location = New-Object System.Drawing.Point(255, 100)
            $cancelButton.Size = New-Object System.Drawing.Size(75, 23)
            $cancelButton.Text = 'Cancel'
            $cancelButton.DialogResult = [System.Windows.Forms.DialogResult]::Cancel
            $form.CancelButton = $cancelButton
            $form.Controls.Add($cancelButton)

            $form.Add_Shown({$textBox.Select()})
            $result = $form.ShowDialog()

            if ($result -eq [System.Windows.Forms.DialogResult]::OK) {
                $textBox.Text
            }
            ",
    );
    r
}

/// The value in the macOS dialog tool's report.  The tool prints a record
/// such as `text returned:VALUE, button returned:OK`; the value is what
/// stands between the first `text returned:` marker and the following
/// `, button returned:` marker — bounded by the next `text returned:`
/// marker, if the report somehow holds another.  No marker, no value.
pub open spec fn spec_dialog_value(out: Seq<char>) -> Option<Seq<char>> {
    match spec_find(out, "text returned:"@) {
        None => None,
        Some(i) => {
            let after = out.skip(i + "text returned:"@.len());
            let region = match spec_find(after, "text returned:"@) {
                Some(k) => after.take(k),
                None => after,
            };
            match spec_find(region, ", button returned:"@) {
                Some(j) => Some(region.take(j)),
                None => Some(region),
            }
        },
    }
}

/// Extract the entered value from the macOS dialog tool's report.
pub fn dialog_value(out: &str) -> (r: Option<Vec<char>>)
    ensures
        match (r, spec_dialog_value(out@)) {
            (Some(v), Some(s)) => v@ == s,
            (None, None) => true,
            _ => false,
        },
{
    let ov = chars_of(out);
    let m1 = chars_of("text returned:");
    let ov_len = ov.len();
    let m1_len = m1.len();
    match find_chars(&ov, &m1) {
        None => None,
        Some(i) => {
            assert(i + m1@.len() <= ov@.len());
            let start = i + m1_len;
            let after = subrange_chars(&ov, start, ov_len);
            proof {
                assert(after@ =~= out@.skip(i + "text returned:"@.len()));
            }
            let region = match find_chars(&after, &m1) {
                Some(k) => {
                    let g = subrange_chars(&after, 0, k);
                    proof {
                        assert(g@ =~= after@.take(k as int));
                    }
                    g
                },
                None => after,
            };
            let m2 = chars_of(", button returned:");
            match find_chars(&region, &m2) {
                Some(j) => {
                    let g = subrange_chars(&region, 0, j);
                    proof {
                        assert(g@ =~= region@.take(j as int));
                    }
                    Some(g)
                },
                None => Some(region),
            }
        },
    }
}

/// What a macOS prompt reports: the parsed value when the tool exited
/// successfully, nothing when it failed or reported no value (the user
/// cancelled).
pub open spec fn spec_macos_prompt_value(success: bool, out: Seq<char>) -> Option<Seq<char>> {
    if success {
        spec_dialog_value(out)
    } else {
        None
    }
}

/// Read a macOS prompt result from the tool's exit status and output.
pub fn macos_prompt_value(success: bool, out: &str) -> (r: Option<Vec<char>>)
    ensures
        match (r, spec_macos_prompt_value(success, out@)) {
            (Some(v), Some(s)) => v@ == s,
            (None, None) => true,
            _ => false,
        },
{
    if success {
        dialog_value(out)
    } else {
        None
    }
}

/// What a Linux prompt attempt reports: the trimmed output when the tool
/// exited successfully — except that a sensitive prompt treats a blank
/// answer as no answer, so the driver may fall back to the next tool.
pub open spec fn spec_linux_prompt_value(sensitive: bool, success: bool, out: Seq<char>) -> Option<
    Seq<char>,
> {
    if !success {
        None
    } else if sensitive && spec_trim(out).len() == 0 {
        None
    } else {
        Some(spec_trim(out))
    }
}

/// Read one Linux dialog tool's answer.  `None` means this attempt yielded
/// nothing and the next tool, if any, should be tried.
pub fn linux_prompt_value(sensitive: bool, success: bool, out: &str) -> (r: Option<Vec<char>>)
    ensures
        match (r, spec_linux_prompt_value(sensitive, success, out@)) {
            (Some(v), Some(s)) => v@ == s,
            (None, None) => true,
            _ => false,
        },
{
    if !success {
        return None;
    }
    let t = trim(&chars_of(out));
    if sensitive && t.len() == 0 {
        None
    } else {
        Some(t)
    }
}

/// What a Windows prompt reports: the trimmed output when the dialog
/// succeeded, unless both the answer and the supplied default were empty,
/// which counts as a cancellation.
pub open spec fn spec_windows_prompt_value(
    success: bool,
    out: Seq<char>,
    default: Seq<char>,
) -> Option<Seq<char>> {
    if success && (spec_trim(out).len() > 0 || default.len() > 0) {
        Some(spec_trim(out))
    } else {
        None
    }
}

/// Read a Windows prompt result from the tool's exit status and output.
pub fn windows_prompt_value(success: bool, out: &str, default: &str) -> (r: Option<Vec<char>>)
    ensures
        match (r, spec_windows_prompt_value(success, out@, default@)) {
            (Some(v), Some(s)) => v@ == s,
            (None, None) => true,
            _ => false,
        },
{
    if !success {
        return None;
    }
    let t = trim(&chars_of(out));
    if t.len() > 0 || !default.is_empty() {
        Some(t)
    } else {
        None
    }
}

} // verus!
