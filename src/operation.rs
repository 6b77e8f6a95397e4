//! The closed set of operations the front end can ask for, and how each one
//! becomes a backend command line (or, for one of them, a request to the host).

use vstd::prelude::*;
use crate::decimal::{decimal_text, int_decimal};

verus! {

/// The backend script that handles a family of commands.
#[derive(Clone, Copy, Debug, PartialEq, Eq, Structural)]
pub enum EntryPoint {
    /// Analysis, history, reports, settings.
    Primary,
    /// Monitored projects.
    Monitoring,
}

/// File name of an entry point, relative to the backend directory.
pub open spec fn entry_file(e: EntryPoint) -> Seq<char> {
    match e {
        EntryPoint::Primary => seq!['m', 'a', 'i', 'n', '.', 'p', 'y'],
        EntryPoint::Monitoring => seq!['m', 'o', 'n', 'i', 't', 'o', 'r', '.', 'p', 'y'],
    }
}

impl EntryPoint {
    /// File name of this entry point.
    pub fn file_name(&self) -> (r: &'static str)
        ensures
            r@ == entry_file(*self),
    {
        proof {
            reveal_strlit("main.py");
            reveal_strlit("monitor.py");
        }
        match self {
            EntryPoint::Primary => "main.py",
            EntryPoint::Monitoring => "monitor.py",
        }
    }
}

/// A named operation with its parameters bound.
#[derive(Clone, Debug)]
pub enum Operation {
    AnalyzeFile { file_path: String },
    AnalyzeFolder { folder_path: String },
    History,
    Report { analysis_id: i32 },
    Dashboard,
    TrendData,
    ExtractFunctions { file_path: String },
    CheckApi,
    MonitorRegister { folder_path: String },
    MonitorList,
    MonitorCheck { project_id: i32 },
    MonitorRefresh { project_id: i32 },
    MonitorRemove { project_id: i32 },
    DeleteAnalysis { analysis_id: i32 },
    GetSettings,
    SaveSettings { kaggle_url: String },
    GeneratePdf { analysis_id: u32 },
    /// Opens a path in the host's file browser; the backend plays no part.
    OpenPath { path: String },
}

/// The entry point that handles a backend operation.
pub open spec fn entry_of(op: Operation) -> EntryPoint {
    match op {
        Operation::MonitorRegister { .. } | Operation::MonitorList | Operation::MonitorCheck {
            ..
        } | Operation::MonitorRefresh { .. } | Operation::MonitorRemove {
            ..
        } => EntryPoint::Monitoring,
        _ => EntryPoint::Primary,
    }
}

/// The command keyword of a backend operation.
pub open spec fn keyword_of(op: Operation) -> Seq<char> {
    match op {
        Operation::AnalyzeFile { .. } => "analyze"@,
        Operation::AnalyzeFolder { .. } => "analyze_folder"@,
        Operation::History => "history"@,
        Operation::Report { .. } => "report"@,
        Operation::Dashboard => "dashboard"@,
        Operation::TrendData => "get_trend_data"@,
        Operation::ExtractFunctions { .. } => "extract_functions"@,
        Operation::CheckApi => "check_api"@,
        Operation::MonitorRegister { .. } => "register"@,
        Operation::MonitorList => "list"@,
        Operation::MonitorCheck { .. } => "check"@,
        Operation::MonitorRefresh { .. } => "refresh"@,
        Operation::MonitorRemove { .. } => "remove"@,
        Operation::DeleteAnalysis { .. } => "delete_analysis"@,
        Operation::GetSettings => "get_settings"@,
        Operation::SaveSettings { .. } => "save_settings"@,
        Operation::GeneratePdf { .. } => "generate_pdf"@,
        Operation::OpenPath { .. } => Seq::empty(),
    }
}

/// The parameters of an operation as text, in order: paths and settings as
/// given, numeric ids in base 10.
pub open spec fn params_of(op: Operation) -> Seq<Seq<char>> {
    match op {
        Operation::AnalyzeFile { file_path } => seq![file_path@],
        Operation::AnalyzeFolder { folder_path } => seq![folder_path@],
        Operation::Report { analysis_id } => seq![int_decimal(analysis_id as int)],
        Operation::ExtractFunctions { file_path } => seq![file_path@],
        Operation::MonitorRegister { folder_path } => seq![folder_path@],
        Operation::MonitorCheck { project_id } => seq![int_decimal(project_id as int)],
        Operation::MonitorRefresh { project_id } => seq![int_decimal(project_id as int)],
        Operation::MonitorRemove { project_id } => seq![int_decimal(project_id as int)],
        Operation::DeleteAnalysis { analysis_id } => seq![int_decimal(analysis_id as int)],
        Operation::SaveSettings { kaggle_url } => seq![kaggle_url@],
        Operation::GeneratePdf { analysis_id } => seq![int_decimal(analysis_id as int)],
        Operation::OpenPath { path } => seq![path@],
        _ => Seq::empty(),
    }
}

/// The texts of a sequence of strings.
pub open spec fn texts(v: Seq<String>) -> Seq<Seq<char>> {
    v.map_values(|s: String| s@)
}

fn keyword(op: &Operation) -> (r: &'static str)
    requires
        !(op is OpenPath),
    ensures
        r@ == keyword_of(*op),
{
    match op {
        Operation::AnalyzeFile { .. } => "analyze",
        Operation::AnalyzeFolder { .. } => "analyze_folder",
        Operation::History => "history",
        Operation::Report { .. } => "report",
        Operation::Dashboard => "dashboard",
        Operation::TrendData => "get_trend_data",
        Operation::ExtractFunctions { .. } => "extract_functions",
        Operation::CheckApi => "check_api",
        Operation::MonitorRegister { .. } => "register",
        Operation::MonitorList => "list",
        Operation::MonitorCheck { .. } => "check",
        Operation::MonitorRefresh { .. } => "refresh",
        Operation::MonitorRemove { .. } => "remove",
        Operation::DeleteAnalysis { .. } => "delete_analysis",
        Operation::GetSettings => "get_settings",
        Operation::SaveSettings { .. } => "save_settings",
        Operation::GeneratePdf { .. } => "generate_pdf",
        Operation::OpenPath { .. } => "",
    }
}

/// A backend operation resolved to what the backend process is started with.
#[derive(Clone, Debug)]
pub struct InvocationRequest {
    pub entry: EntryPoint,
    pub keyword: String,
    pub params: Vec<String>,
}

/// What the bridge does for an operation.
#[derive(Clone, Debug)]
pub enum Action {
    /// Start the backend with this request.
    RunBackend(InvocationRequest),
    /// Ask the host to open `path`; no backend process is started.
    OpenInHost { path: String },
}

/// `a` is what `op` asks for: the host opens the very path of an open-path
/// operation, and every other operation runs its entry point with its
/// keyword and parameters.
pub open spec fn resolves_to(op: Operation, a: Action) -> bool {
    match op {
        Operation::OpenPath { path } => a matches Action::OpenInHost { path: p } && p@ == path@,
        _ => a matches Action::RunBackend(req) && req.entry == entry_of(op) && req.keyword@
            == keyword_of(op) && texts(req.params@) == params_of(op),
    }
}

/// The full argument list of a request: entry file, keyword, parameters.
pub open spec fn command_line_of(req: InvocationRequest) -> Seq<Seq<char>> {
    seq![entry_file(req.entry), req.keyword@] + texts(req.params@)
}

impl InvocationRequest {
    /// The arguments the backend interpreter is started with, in order.
    pub fn command_line(&self) -> (r: Vec<String>)
        ensures
            texts(r@) == command_line_of(*self),
    {
        let mut r: Vec<String> = Vec::new();
        r.push(String::from_str(self.entry.file_name()));
        r.push(self.keyword.clone());
        let mut k: usize = 0;
        while k < self.params.len()
            invariant
                k <= self.params@.len(),
                texts(r@) == seq![entry_file(self.entry), self.keyword@] + texts(
                    self.params@.subrange(0, k as int),
                ),
            decreases self.params@.len() - k,
        {
            let c = self.params[k].clone();
            let ghost before = r@;
            r.push(c);
            proof {
                assert(texts(r@) =~= texts(before).push(c@));
                assert(texts(self.params@.subrange(0, k + 1)) =~= texts(
                    self.params@.subrange(0, k as int),
                ).push(self.params@[k as int]@));
            }
            k = k + 1;
        }
        assert(self.params@.subrange(0, k as int) =~= self.params@);
        r
    }
}

fn single(s: String) -> (r: Vec<String>)
    ensures
        texts(r@) == seq![s@],
{
    let mut r: Vec<String> = Vec::new();
    r.push(s);
    assert(texts(r@) =~= seq![s@]);
    r
}

fn backend_request(op: &Operation) -> (r: InvocationRequest)
    requires
        !(op is OpenPath),
    ensures
        r.entry == entry_of(*op),
        r.keyword@ == keyword_of(*op),
        texts(r.params@) == params_of(*op),
{
    let entry = match op {
        Operation::MonitorRegister { .. }
        | Operation::MonitorList
        | Operation::MonitorCheck { .. }
        | Operation::MonitorRefresh { .. }
        | Operation::MonitorRemove { .. } => EntryPoint::Monitoring,
        _ => EntryPoint::Primary,
    };
    let params = match op {
        Operation::AnalyzeFile { file_path } => single(file_path.clone()),
        Operation::AnalyzeFolder { folder_path } => single(folder_path.clone()),
        Operation::Report { analysis_id } => single(decimal_text(*analysis_id as i64)),
        Operation::ExtractFunctions { file_path } => single(file_path.clone()),
        Operation::MonitorRegister { folder_path } => single(folder_path.clone()),
        Operation::MonitorCheck { project_id } => single(decimal_text(*project_id as i64)),
        Operation::MonitorRefresh { project_id } => single(decimal_text(*project_id as i64)),
        Operation::MonitorRemove { project_id } => single(decimal_text(*project_id as i64)),
        Operation::DeleteAnalysis { analysis_id } => single(decimal_text(*analysis_id as i64)),
        Operation::SaveSettings { kaggle_url } => single(kaggle_url.clone()),
        Operation::GeneratePdf { analysis_id } => single(decimal_text(*analysis_id as i64)),
        _ => {
            let empty: Vec<String> = Vec::new();
            assert(texts(empty@) =~= Seq::<Seq<char>>::empty());
            empty
        },
    };
    InvocationRequest { entry, keyword: String::from_str(keyword(op)), params }
}

/// Resolves an operation to what the bridge does for it.
pub fn dispatch(op: &Operation) -> (a: Action)
    ensures
        resolves_to(*op, a),
{
    match op {
        Operation::OpenPath { path } => Action::OpenInHost { path: path.clone() },
        _ => Action::RunBackend(backend_request(op)),
    }
}

/// Opening a path never starts the backend: the host is asked to open that
/// very path. Every other operation starts the backend and never the host.
pub proof fn lemma_only_open_path_uses_host(op: Operation, a: Action)
    requires
        resolves_to(op, a),
    ensures
        op is OpenPath <==> a is OpenInHost,
        op matches Operation::OpenPath { path } ==> a matches Action::OpenInHost { path: p }
            && p@ == path@,
{
}

} // verus!
