use backend_bridge::decimal::decimal_text;
use backend_bridge::locator::{backend_dir, choose_backend, BackendChoice, MAX_LEVELS};
use backend_bridge::operation::{dispatch, Action, EntryPoint, Operation};
use backend_bridge::outcome::{
    conclude, interpreter, launch_failure_message, translate, translate_text, InvocationOutcome,
};

fn command_line(op: Operation) -> Vec<String> {
    match dispatch(&op) {
        Action::RunBackend(req) => req.command_line(),
        Action::OpenInHost { .. } => panic!("expected a backend request"),
    }
}

fn outcome(succeeded: bool, stdout: &str, stderr: &str) -> InvocationOutcome {
    InvocationOutcome {
        succeeded,
        stdout: stdout.as_bytes().to_vec(),
        stderr: stderr.as_bytes().to_vec(),
    }
}

#[test]
fn numeric_id_is_plain_decimal() {
    assert_eq!(decimal_text(1024), "1024");
    assert_eq!(decimal_text(0), "0");
    assert_eq!(decimal_text(7), "7");
    assert_eq!(decimal_text(10), "10");
    assert_eq!(decimal_text(-42), "-42");
    assert_eq!(decimal_text(1234567), "1234567");
    assert_eq!(decimal_text(i64::MAX), "9223372036854775807");
    assert_eq!(decimal_text(i64::MIN), "-9223372036854775808");
}

#[test]
fn report_id_on_command_line() {
    assert_eq!(
        command_line(Operation::Report { analysis_id: 1024 }),
        vec!["main.py", "report", "1024"]
    );
}

#[test]
fn largest_pdf_id_on_command_line() {
    assert_eq!(
        command_line(Operation::GeneratePdf { analysis_id: u32::MAX }),
        vec!["main.py", "generate_pdf", "4294967295"]
    );
}

#[test]
fn negative_id_keeps_its_sign() {
    assert_eq!(
        command_line(Operation::DeleteAnalysis { analysis_id: -3 }),
        vec!["main.py", "delete_analysis", "-3"]
    );
}

#[test]
fn primary_operations_command_lines() {
    let s = |t: &str| t.to_string();
    assert_eq!(
        command_line(Operation::AnalyzeFile { file_path: s("/tmp/a b.py") }),
        vec!["main.py", "analyze", "/tmp/a b.py"]
    );
    assert_eq!(
        command_line(Operation::AnalyzeFolder { folder_path: s("/src") }),
        vec!["main.py", "analyze_folder", "/src"]
    );
    assert_eq!(command_line(Operation::History), vec!["main.py", "history"]);
    assert_eq!(command_line(Operation::Dashboard), vec!["main.py", "dashboard"]);
    assert_eq!(command_line(Operation::TrendData), vec!["main.py", "get_trend_data"]);
    assert_eq!(
        command_line(Operation::ExtractFunctions { file_path: s("x.rs") }),
        vec!["main.py", "extract_functions", "x.rs"]
    );
    assert_eq!(command_line(Operation::CheckApi), vec!["main.py", "check_api"]);
    assert_eq!(command_line(Operation::GetSettings), vec!["main.py", "get_settings"]);
    assert_eq!(
        command_line(Operation::SaveSettings { kaggle_url: s("https://example.org/k") }),
        vec!["main.py", "save_settings", "https://example.org/k"]
    );
    assert_eq!(
        command_line(Operation::GeneratePdf { analysis_id: 12 }),
        vec!["main.py", "generate_pdf", "12"]
    );
}

#[test]
fn monitoring_operations_command_lines() {
    assert_eq!(
        command_line(Operation::MonitorRegister { folder_path: "/proj".to_string() }),
        vec!["monitor.py", "register", "/proj"]
    );
    assert_eq!(command_line(Operation::MonitorList), vec!["monitor.py", "list"]);
    assert_eq!(
        command_line(Operation::MonitorCheck { project_id: 5 }),
        vec!["monitor.py", "check", "5"]
    );
    assert_eq!(
        command_line(Operation::MonitorRefresh { project_id: 66 }),
        vec!["monitor.py", "refresh", "66"]
    );
    assert_eq!(
        command_line(Operation::MonitorRemove { project_id: 0 }),
        vec!["monitor.py", "remove", "0"]
    );
}

#[test]
fn request_fields_match_operation() {
    match dispatch(&Operation::MonitorCheck { project_id: 9 }) {
        Action::RunBackend(req) => {
            assert_eq!(req.entry, EntryPoint::Monitoring);
            assert_eq!(req.keyword, "check");
            assert_eq!(req.params, vec!["9".to_string()]);
        }
        Action::OpenInHost { .. } => panic!("expected a backend request"),
    }
    assert_eq!(EntryPoint::Primary.file_name(), "main.py");
    assert_eq!(EntryPoint::Monitoring.file_name(), "monitor.py");
}

#[test]
fn open_path_goes_to_host() {
    match dispatch(&Operation::OpenPath { path: "/home/u/report.pdf".to_string() }) {
        Action::OpenInHost { path } => assert_eq!(path, "/home/u/report.pdf"),
        Action::RunBackend(_) => panic!("opening a path must not start the backend"),
    }
}

#[test]
fn success_yields_output_ignoring_error_stream() {
    let r = translate(outcome(true, "{\"ok\":1}", "warning: slow"));
    assert_eq!(r, Ok("{\"ok\":1}".to_string()));
    let quiet = translate(outcome(true, "{\"ok\":1}", ""));
    assert_eq!(quiet, r);
}

#[test]
fn failure_yields_error_stream_ignoring_output() {
    let r = translate(outcome(false, "partial", "boom"));
    assert_eq!(r, Err("boom".to_string()));
    let quiet = translate(outcome(false, "", "boom"));
    assert_eq!(quiet, r);
}

#[test]
fn empty_streams_translate_to_empty_text() {
    assert_eq!(translate(outcome(true, "", "")), Ok(String::new()));
    assert_eq!(translate(outcome(false, "", "")), Err(String::new()));
}

#[test]
fn invalid_utf8_is_replaced() {
    let o = InvocationOutcome { succeeded: true, stdout: vec![b'a', 0xff, b'b'], stderr: vec![] };
    assert_eq!(translate(o), Ok("a\u{FFFD}b".to_string()));
    let e = InvocationOutcome { succeeded: false, stdout: vec![], stderr: vec![0xc3] };
    assert_eq!(translate(e), Err("\u{FFFD}".to_string()));
}

#[test]
fn translate_text_chooses_by_status() {
    assert_eq!(translate_text(true, "out".to_string(), "err".to_string()), Ok("out".to_string()));
    assert_eq!(translate_text(false, "out".to_string(), "err".to_string()), Err("err".to_string()));
}

#[test]
fn launch_failure_names_cause() {
    let cause = "No such file or directory (os error 2)";
    assert_eq!(
        launch_failure_message(cause),
        "Failed to launch Python: No such file or directory (os error 2)"
    );
    let r = conclude(Err(cause.to_string()));
    assert_eq!(r, Err("Failed to launch Python: No such file or directory (os error 2)".to_string()));
    assert_ne!(r, conclude(Ok(outcome(false, "", cause))));
}

#[test]
fn conclude_translates_finished_process() {
    assert_eq!(conclude(Ok(outcome(true, "T", "E"))), Ok("T".to_string()));
    assert_eq!(conclude(Ok(outcome(false, "T", "E"))), Err("E".to_string()));
}

#[test]
fn names_of_program_and_directory() {
    assert_eq!(interpreter(), "python");
    assert_eq!(backend_dir(), "backend");
    assert_eq!(MAX_LEVELS, 5);
}

#[test]
fn locator_takes_nearest_backend() {
    assert_eq!(choose_backend(&vec![true, true]), BackendChoice::Ancestor(0));
    assert_eq!(choose_backend(&vec![false, false, true, true]), BackendChoice::Ancestor(2));
    assert_eq!(
        choose_backend(&vec![false, false, false, false, true]),
        BackendChoice::Ancestor(4)
    );
}

#[test]
fn locator_falls_back_to_working_directory() {
    assert_eq!(choose_backend(&vec![]), BackendChoice::WorkingDirectory);
    assert_eq!(choose_backend(&vec![false, false]), BackendChoice::WorkingDirectory);
    assert_eq!(
        choose_backend(&vec![false, false, false, false, false, true]),
        BackendChoice::WorkingDirectory
    );
}
