use vstd::prelude::*;

use crate::settings::{PrintOptions, PrintSettings};
use crate::staging::{helper_path, helper_program_path};
use vstd::utf8::{decode_utf8, valid_utf8};

verus! {

/// A program and the arguments it is started with.
pub struct CommandLine {
    pub program: String,
    pub args: Vec<String>,
}

impl View for CommandLine {
    type V = (Seq<char>, Seq<Seq<char>>);

    open spec fn view(&self) -> (Seq<char>, Seq<Seq<char>>) {
        (self.program@, self.args@.map_values(|a: String| a@))
    }
}

/// The option that selects a print queue by name.
pub open spec fn printer_flag(printername: Seq<char>) -> Seq<char> {
    "-P"@ + printername
}

fn printer_flag_arg(printername: &str) -> (r: String)
    ensures
        r@ == printer_flag(printername@),
{
    let mut r = String::from_str("-P");
    r.append(printername);
    r
}

fn command_of(program: &str, args: Vec<String>) -> (r: CommandLine)
    ensures
        r.program@ == program@,
        r.args == args,
{
    CommandLine { program: String::from_str(program), args }
}

/// Lists every printer with its state.
pub fn get_printers_command() -> (r: CommandLine)
    ensures
        r@ == ("lpstat"@, seq!["-p"@]),
{
    let mut args: Vec<String> = Vec::new();
    args.push(String::from_str("-p"));
    let r = command_of("lpstat", args);
    assert(r@.1 =~= seq!["-p"@]);
    r
}

/// Shows the state of the named printer.
pub fn get_printers_by_name_command(printername: &str) -> (r: CommandLine)
    ensures
        r@ == ("lpstat"@, seq!["-p"@, printername@]),
{
    let mut args: Vec<String> = Vec::new();
    args.push(String::from_str("-p"));
    args.push(String::from_str(printername));
    let r = command_of("lpstat", args);
    assert(r@.1 =~= seq!["-p"@, printername@]);
    r
}

/// Lists the jobs waiting in the named queue.
pub fn get_jobs_command(printername: &str) -> (r: CommandLine)
    ensures
        r@ == ("lpq"@, seq![printername@]),
{
    let mut args: Vec<String> = Vec::new();
    args.push(String::from_str(printername));
    let r = command_of("lpq", args);
    assert(r@.1 =~= seq![printername@]);
    r
}

/// `program -P<printer> <job>`.
fn queue_job_command(program: &str, printername: &str, jobid: &str) -> (r: CommandLine)
    ensures
        r@ == (program@, seq![printer_flag(printername@), jobid@]),
{
    let mut args: Vec<String> = Vec::new();
    args.push(printer_flag_arg(printername));
    args.push(String::from_str(jobid));
    let r = command_of(program, args);
    assert(r@.1 =~= seq![printer_flag(printername@), jobid@]);
    r
}

/// `lprm -P<printer> <flag> <job>`.
fn flagged_job_command(printername: &str, flag: &str, jobid: &str) -> (r: CommandLine)
    ensures
        r@ == ("lprm"@, seq![printer_flag(printername@), flag@, jobid@]),
{
    let mut args: Vec<String> = Vec::new();
    args.push(printer_flag_arg(printername));
    args.push(String::from_str(flag));
    args.push(String::from_str(jobid));
    let r = command_of("lprm", args);
    assert(r@.1 =~= seq![printer_flag(printername@), flag@, jobid@]);
    r
}

/// Shows one job of the named queue.
pub fn get_jobs_by_id_command(printername: &str, jobid: &str) -> (r: CommandLine)
    ensures
        r@ == ("lpq"@, seq![printer_flag(printername@), jobid@]),
{
    queue_job_command("lpq", printername, jobid)
}

/// The command issued to resume a job of the named queue: `lprm` with no mode flag.
pub fn resume_job_command(printername: &str, jobid: &str) -> (r: CommandLine)
    ensures
        r@ == ("lprm"@, seq![printer_flag(printername@), jobid@]),
{
    queue_job_command("lprm", printername, jobid)
}

/// Restarts a job of the named queue: `lprm -i`.
pub fn restart_job_command(printername: &str, jobid: &str) -> (r: CommandLine)
    ensures
        r@ == ("lprm"@, seq![printer_flag(printername@), "-i"@, jobid@]),
{
    flagged_job_command(printername, "-i", jobid)
}

/// Holds a job of the named queue: `lprm -H`.
pub fn pause_job_command(printername: &str, jobid: &str) -> (r: CommandLine)
    ensures
        r@ == ("lprm"@, seq![printer_flag(printername@), "-H"@, jobid@]),
{
    flagged_job_command(printername, "-H", jobid)
}

/// Removes a job of the named queue: `lprm -U`.
pub fn remove_job_command(printername: &str, jobid: &str) -> (r: CommandLine)
    ensures
        r@ == ("lprm"@, seq![printer_flag(printername@), "-U"@, jobid@]),
{
    flagged_job_command(printername, "-U", jobid)
}

/// A character that a POSIX shell reads as itself in an unquoted word:
/// a letter or digit, one of `-_./:,=+@%`, or any character beyond ASCII.
pub open spec fn is_shell_safe_char(c: char) -> bool {
    ('a' <= c && c <= 'z') || ('A' <= c && c <= 'Z') || ('0' <= c && c <= '9') || c == '-'
        || c == '_' || c == '.' || c == '/' || c == ':' || c == ',' || c == '=' || c == '+'
        || c == '@' || c == '%' || c > '\u{7f}'
}

/// A text that a POSIX shell reads back unchanged inside an unquoted word.
pub open spec fn is_shell_text(s: Seq<char>) -> bool {
    forall|i: int| 0 <= i < s.len() ==> is_shell_safe_char(#[trigger] s[i])
}

/// A non-empty text that a POSIX shell reads back as exactly one unchanged word.
pub open spec fn is_shell_word(s: Seq<char>) -> bool {
    s.len() > 0 && is_shell_text(s)
}

fn shell_safe_char(c: char) -> (r: bool)
    ensures
        r == is_shell_safe_char(c),
{
    ('a' <= c && c <= 'z') || ('A' <= c && c <= 'Z') || ('0' <= c && c <= '9') || c == '-'
        || c == '_' || c == '.' || c == '/' || c == ':' || c == ',' || c == '=' || c == '+'
        || c == '@' || c == '%' || c > '\u{7f}'
}

/// Whether `s` passes through an unquoted shell command line unchanged, as part of a word.
pub fn shell_text(s: &str) -> (r: bool)
    ensures
        r == is_shell_text(s@),
{
    let n = s.unicode_len();
    let mut i: usize = 0;
    while i < n
        invariant
            n == s@.len(),
            i <= n,
            forall|k: int| 0 <= k < i ==> is_shell_safe_char(#[trigger] s@[k]),
        decreases n - i,
    {
        if !shell_safe_char(s.get_char(i)) {
            return false;
        }
        i = i + 1;
    }
    true
}

/// Whether `s` passes through an unquoted shell command line as one unchanged word.
pub fn shell_word(s: &str) -> (r: bool)
    ensures
        r == is_shell_word(s@),
{
    s.unicode_len() > 0 && shell_text(s)
}

/// An absolute directory whose text stays one shell word; starting with `/`,
/// the helper path built on it cannot be read as a variable assignment.
pub open spec fn is_shell_dir(dir: Seq<char>) -> bool {
    is_shell_word(dir) && dir[0] == '/'
}

/// The `-o` options that carry the print settings to the print system.
pub open spec fn print_options_text(
    paper: Seq<char>,
    method: Seq<char>,
    scale: Seq<char>,
    orientation: Seq<char>,
) -> Seq<char> {
    "-o media="@ + paper + ","@ + method + " -o scaling="@ + scale
        + " -o orientation-requested="@ + orientation + " -o fit-to-page"@
}

/// The shell text that submits the file at `path` under the title `id`
/// through the helper program staged in `dir`.
pub open spec fn print_shell_text(
    dir: Seq<char>,
    id: Seq<char>,
    options: Seq<char>,
    path: Seq<char>,
) -> Seq<char> {
    helper_program_path(dir) + " -t "@ + id + " "@ + options + " -q "@ + path
}

/// Whether the shell reads back every value that `print_pdf_command` writes into its
/// shell text unchanged: the directory, title and path as words of their own, the
/// settings (possibly empty) inside the `-o` words.
pub open spec fn print_request_is_shell_safe(dir: Seq<char>, options: PrintOptions) -> bool {
    &&& is_shell_dir(dir)
    &&& is_shell_word(options.id@)
    &&& is_shell_word(options.path@)
    &&& is_shell_text(options.print_setting.paper@)
    &&& is_shell_text(options.print_setting.method@)
    &&& is_shell_text(options.print_setting.scale@)
    &&& is_shell_text(options.print_setting.orientation@)
}

/// The `-o` options for `settings`.
pub fn print_options_arg(settings: &PrintSettings) -> (r: String)
    ensures
        r@ == print_options_text(
            settings.paper@,
            settings.method@,
            settings.scale@,
            settings.orientation@,
        ),
{
    let mut r = String::from_str("-o media=");
    r.append(settings.paper.as_str());
    r.append(",");
    r.append(settings.method.as_str());
    r.append(" -o scaling=");
    r.append(settings.scale.as_str());
    r.append(" -o orientation-requested=");
    r.append(settings.orientation.as_str());
    r.append(" -o fit-to-page");
    r
}

/// Submits a PDF through `sh -c`, with the helper program staged in `temp_dir`.
/// Refused (`None`) where the shell would not read some value back unchanged,
/// or where `temp_dir` is not absolute.
pub fn print_pdf_command(temp_dir: &str, options: &PrintOptions) -> (r: Option<CommandLine>)
    ensures
        r is Some <==> print_request_is_shell_safe(temp_dir@, *options),
        r matches Some(c) ==> c@ == (
            "sh"@,
            seq![
                "-c"@,
                print_shell_text(
                    temp_dir@,
                    options.id@,
                    print_options_text(
                        options.print_setting.paper@,
                        options.print_setting.method@,
                        options.print_setting.scale@,
                        options.print_setting.orientation@,
                    ),
                    options.path@,
                ),
            ],
        ),
{
    let s = &options.print_setting;
    if !(shell_word(temp_dir) && temp_dir.get_char(0) == '/') {
        return None;
    }
    if !(shell_word(options.id.as_str()) && shell_word(options.path.as_str())) {
        return None;
    }
    if !(shell_text(s.paper.as_str()) && shell_text(s.method.as_str()) && shell_text(
        s.scale.as_str(),
    ) && shell_text(s.orientation.as_str())) {
        return None;
    }
    let mut text = helper_path(temp_dir);
    text.append(" -t ");
    text.append(options.id.as_str());
    text.append(" ");
    let settings_text = print_options_arg(s);
    text.append(settings_text.as_str());
    text.append(" -q ");
    text.append(options.path.as_str());
    let mut args: Vec<String> = Vec::new();
    args.push(String::from_str("-c"));
    args.push(text);
    let r = command_of("sh", args);
    assert(r@.1 =~= seq!["-c"@, text@]);
    Some(r)
}

/// Relies on std's `String::from_utf8`: it accepts exactly the valid UTF-8
/// byte sequences and keeps the characters they encode.
#[verifier::external_body]
fn utf8_string(bytes: Vec<u8>) -> (r: Option<String>)
    ensures
        r is Some <==> valid_utf8(bytes@),
        r matches Some(s) ==> s@ == decode_utf8(bytes@),
{
    String::from_utf8(bytes).ok()
}

/// The text a command printed, or `None` where its output is not UTF-8.
pub fn command_output_text(stdout: Vec<u8>) -> (r: Option<String>)
    ensures
        r is Some <==> valid_utf8(stdout@),
        r matches Some(s) ==> s@ == decode_utf8(stdout@),
{
    utf8_string(stdout)
}

} // verus!
