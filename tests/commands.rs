use tauri_plugin_printer::command::{
    command_output_text, get_jobs_by_id_command, get_jobs_command, get_printers_by_name_command,
    get_printers_command, pause_job_command, print_options_arg, print_pdf_command,
    remove_job_command, restart_job_command, resume_job_command, shell_text, shell_word,
    CommandLine,
};
use tauri_plugin_printer::settings::{PrintOptions, PrintSettings};

fn parts(c: &CommandLine) -> (String, Vec<String>) {
    (c.program.clone(), c.args.clone())
}

fn strings(v: &[&str]) -> Vec<String> {
    v.iter().map(|s| s.to_string()).collect()
}

fn options(id: &str, path: &str, paper: &str, method: &str, scale: &str, orientation: &str) -> PrintOptions {
    PrintOptions {
        id: id.to_string(),
        path: path.to_string(),
        print_setting: PrintSettings {
            paper: paper.to_string(),
            method: method.to_string(),
            scale: scale.to_string(),
            orientation: orientation.to_string(),
            repeat: 1,
        },
    }
}

#[test]
fn lists_printers_with_lpstat() {
    let c = get_printers_command();
    assert_eq!(parts(&c), ("lpstat".to_string(), strings(&["-p"])));
}

#[test]
fn shows_one_printer_by_name() {
    let c = get_printers_by_name_command("Office_Laser");
    assert_eq!(parts(&c), ("lpstat".to_string(), strings(&["-p", "Office_Laser"])));
}

#[test]
fn lists_jobs_of_a_queue() {
    let c = get_jobs_command("Office_Laser");
    assert_eq!(parts(&c), ("lpq".to_string(), strings(&["Office_Laser"])));
}

#[test]
fn shows_one_job_by_id() {
    let c = get_jobs_by_id_command("Office_Laser", "42");
    assert_eq!(parts(&c), ("lpq".to_string(), strings(&["-POffice_Laser", "42"])));
}

#[test]
fn job_control_flags() {
    assert_eq!(
        parts(&resume_job_command("hp", "7")),
        ("lprm".to_string(), strings(&["-Php", "7"]))
    );
    assert_eq!(
        parts(&restart_job_command("hp", "7")),
        ("lprm".to_string(), strings(&["-Php", "-i", "7"]))
    );
    assert_eq!(
        parts(&pause_job_command("hp", "7")),
        ("lprm".to_string(), strings(&["-Php", "-H", "7"]))
    );
    assert_eq!(
        parts(&remove_job_command("hp", "7")),
        ("lprm".to_string(), strings(&["-Php", "-U", "7"]))
    );
}

#[test]
fn empty_printer_name_keeps_bare_flag() {
    assert_eq!(
        parts(&remove_job_command("", "3")),
        ("lprm".to_string(), strings(&["-P", "-U", "3"]))
    );
}

#[test]
fn print_options_text() {
    let o = options("job", "/tmp/a.pdf", "A4", "simplex", "100", "3");
    assert_eq!(
        print_options_arg(&o.print_setting),
        "-o media=A4,simplex -o scaling=100 -o orientation-requested=3 -o fit-to-page"
    );
}

#[test]
fn print_pdf_runs_helper_through_sh() {
    let o = options("invoice-7", "/tmp/invoice.pdf", "A4", "simplex", "100", "3");
    let c = print_pdf_command("/tmp/", &o).unwrap();
    assert_eq!(
        parts(&c),
        (
            "sh".to_string(),
            strings(&[
                "-c",
                "/tmp/sm -t invoice-7 -o media=A4,simplex -o scaling=100 \
                 -o orientation-requested=3 -o fit-to-page -q /tmp/invoice.pdf"
            ])
        )
    );
}

#[test]
fn print_pdf_refuses_shell_text_in_values() {
    let o = options("x; rm -rf ~", "/tmp/a.pdf", "A4", "simplex", "100", "3");
    assert!(print_pdf_command("/tmp/", &o).is_none());
    let o = options("job", "/tmp/my file.pdf", "A4", "simplex", "100", "3");
    assert!(print_pdf_command("/tmp/", &o).is_none());
    let o = options("job", "/tmp/a.pdf", "A4", "simplex", "100", "$(id)");
    assert!(print_pdf_command("/tmp/", &o).is_none());
    let o = options("job", "/tmp/a.pdf", "A4", "simplex", "100", "3");
    assert!(print_pdf_command("/tmp dir/", &o).is_none());
    let o = options("", "/tmp/a.pdf", "A4", "simplex", "100", "3");
    assert!(print_pdf_command("/tmp/", &o).is_none());
    let o = options("job", "", "A4", "simplex", "100", "3");
    assert!(print_pdf_command("/tmp/", &o).is_none());
}

#[test]
fn print_pdf_refuses_relative_temp_dir() {
    let o = options("job", "/tmp/a.pdf", "A4", "simplex", "100", "3");
    assert!(print_pdf_command("a=/x/", &o).is_none());
    assert!(print_pdf_command("tmp/", &o).is_none());
    assert!(print_pdf_command("", &o).is_none());
}

#[test]
fn print_pdf_accepts_non_ascii_values() {
    let o = options("Caf\u{e9}", "/tmp/Rechnung-M\u{e4}rz.pdf", "A4", "simplex", "100", "3");
    let c = print_pdf_command("/tmp/", &o).unwrap();
    assert_eq!(
        parts(&c),
        (
            "sh".to_string(),
            strings(&[
                "-c",
                "/tmp/sm -t Caf\u{e9} -o media=A4,simplex -o scaling=100 \
                 -o orientation-requested=3 -o fit-to-page -q /tmp/Rechnung-M\u{e4}rz.pdf"
            ])
        )
    );
}

#[test]
fn print_pdf_accepts_empty_settings() {
    let o = options("job", "/tmp/a.pdf", "", "", "", "");
    let c = print_pdf_command("/tmp/", &o).unwrap();
    assert_eq!(
        parts(&c),
        (
            "sh".to_string(),
            strings(&[
                "-c",
                "/tmp/sm -t job -o media=, -o scaling= \
                 -o orientation-requested= -o fit-to-page -q /tmp/a.pdf"
            ])
        )
    );
}

#[test]
fn shell_words() {
    assert!(shell_word("A4"));
    assert!(shell_word("/var/folders/x_y/T/report-1.pdf"));
    assert!(shell_word("a,b=c+d@e%f:g"));
    assert!(!shell_word(""));
    assert!(!shell_word("a b"));
    assert!(!shell_word("a;b"));
    assert!(!shell_word("'quoted'"));
    assert!(shell_word("caf\u{e9}"));
    assert!(!shell_word("a\tb"));
    assert!(!shell_word("a$b"));
}

#[test]
fn shell_texts_may_be_empty() {
    assert!(shell_text(""));
    assert!(shell_text("A4"));
    assert!(shell_text("\u{4e2d}\u{6587}"));
    assert!(!shell_text("a b"));
    assert!(!shell_text("a`b`"));
}

#[test]
fn output_text_keeps_utf8() {
    assert_eq!(
        command_output_text("printer hp is idle.\n".as_bytes().to_vec()),
        Some("printer hp is idle.\n".to_string())
    );
    assert_eq!(command_output_text(vec![0xc3, 0xa9]), Some("\u{e9}".to_string()));
    assert_eq!(command_output_text(Vec::new()), Some(String::new()));
}

#[test]
fn output_text_refuses_invalid_utf8() {
    assert_eq!(command_output_text(vec![0x61, 0xff]), None);
    assert_eq!(command_output_text(vec![0xc3]), None);
}
