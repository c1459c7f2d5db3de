use vstd::prelude::*;
use crate::functions::get_candid_path_str::{check_candid_dir, checked_path, path_error_text};
use crate::paths::{join, joined_path, parent, parent_path};
use crate::report::{diagnostic, notice, reports_view, Report, ReportView, Stream};
use crate::text::{concat3, concat4, is_substring, opt_text, texts};
use crate::types::dfx_cfg::RustCanisterCfg;
use crate::BUILD_OUTPUT_DIR;

verus! {

/// What is known so far of the extraction of one canister's interface. Each
/// field is `None` until the work that it speaks of has been done.
#[derive(Debug)]
pub struct Extraction {
    /// Whether the build artifact is there.
    pub artifact_exists: Option<bool>,
    /// How creating the directory of the interface file went.
    pub dir_created: Option<Result<(), String>>,
    /// How the extractor's run went.
    pub extracted: Option<Result<(), String>>,
}

/// The mathematical value of an [`Extraction`].
pub struct ExtractionView {
    pub artifact_exists: Option<bool>,
    pub dir_created: Option<Result<(), Seq<char>>>,
    pub extracted: Option<Result<(), Seq<char>>>,
}

/// How a piece of outside work went, with the text of its error.
pub open spec fn done_view(done: Option<Result<(), String>>) -> Option<Result<(), Seq<char>>> {
    match done {
        None => None,
        Some(Ok(_)) => Some(Ok(())),
        Some(Err(error)) => Some(Err(error@)),
    }
}

impl View for Extraction {
    type V = ExtractionView;

    open spec fn view(&self) -> ExtractionView {
        ExtractionView {
            artifact_exists: self.artifact_exists,
            dir_created: done_view(self.dir_created),
            extracted: done_view(self.extracted),
        }
    }
}

/// How the work on one canister ended.
#[derive(Debug, PartialEq, Eq, Clone, Copy)]
pub enum Outcome {
    /// The interface file was written.
    Generated,
    /// The compiler failed; nothing else was tried.
    BuildFailed,
    /// The build artifact is not there; the extractor was not run.
    ArtifactMissing,
    /// The directory of the interface file could not be created.
    DirNotCreated,
    /// The place of the interface file was refused.
    PathRefused,
    /// The extractor failed.
    ExtractorFailed,
}

/// What is to be done next for one canister.
#[derive(Debug, PartialEq, Eq)]
pub enum Action {
    /// Run the compiler with these words.
    Build { command: Vec<String> },
    /// Find out whether this file is there.
    CheckArtifact { wasm: String },
    /// Create this directory, with those above it that are missing.
    CreateDir { dir: String },
    /// Run the extractor on `wasm` and write what it prints to `candid`.
    Extract { wasm: String, candid: String },
    /// Nothing: the work on this canister has ended.
    Done(Outcome),
}

/// The mathematical value of an [`Action`].
pub enum ActionView {
    Build { command: Seq<Seq<char>> },
    CheckArtifact { wasm: Seq<char> },
    CreateDir { dir: Seq<char> },
    Extract { wasm: Seq<char>, candid: Seq<char> },
    Done(Outcome),
}

impl View for Action {
    type V = ActionView;

    open spec fn view(&self) -> ActionView {
        match self {
            Action::Build { command } => ActionView::Build { command: texts(command@) },
            Action::CheckArtifact { wasm } => ActionView::CheckArtifact { wasm: wasm@ },
            Action::CreateDir { dir } => ActionView::CreateDir { dir: dir@ },
            Action::Extract { wasm, candid } => ActionView::Extract {
                wasm: wasm@,
                candid: candid@,
            },
            Action::Done(outcome) => ActionView::Done(*outcome),
        }
    }
}

/// One turn of the work on a canister: the lines to give the user now, and
/// what to do then.
#[derive(Debug)]
pub struct Turn {
    pub say: Vec<Report>,
    pub action: Action,
}

/// The mathematical value of a [`Turn`].
pub struct TurnView {
    pub say: Seq<ReportView>,
    pub action: ActionView,
}

impl View for Turn {
    type V = TurnView;

    open spec fn view(&self) -> TurnView {
        TurnView { say: reports_view(self.say@), action: self.action@ }
    }
}

/// Where the compiler leaves the build artifact of `package`, below the
/// project root: `target/wasm32-unknown-unknown/release/<package>.wasm`.
pub open spec fn artifact_path(package: Seq<char>) -> Seq<char> {
    BUILD_OUTPUT_DIR@ + "/"@ + package + ".wasm"@
}

/// What is said when the build artifact `wasm` is not there.
pub open spec fn artifact_missing(wasm: Seq<char>) -> Seq<char> {
    "Canister wasm file "@ + wasm + " does not exists."@
}

/// What is said when the extractor has failed on `package` with `error`.
pub open spec fn extraction_failure(package: Seq<char>, error: Seq<char>) -> Seq<char> {
    "Failed to extract candid for the canister '"@ + package + "': "@ + error
}

/// What is said at the end of the extractor's run on `package`.
pub open spec fn generated_notice(package: Seq<char>) -> Seq<char> {
    "candid-gen: Canister '"@ + package + "' candid file was successfully generated."@
}

/// The turn of the extraction for `package`, whose build artifact is `wasm`
/// and whose interface file goes to `candid` in the directory `dir`, after
/// what `progress` tells.
///
/// First the artifact is looked for; where it is not there, the extraction
/// ends at once. Then the directory is created, and the place of the interface
/// file is accepted or refused (see [`checked_path`]). Only then is the
/// extractor run. Its failure is told and ends the work on this canister, as
/// its success does.
pub open spec fn extraction_turn(
    package: Seq<char>,
    wasm: Seq<char>,
    candid: Seq<char>,
    dir: Option<Seq<char>>,
    progress: ExtractionView,
) -> TurnView {
    match progress.artifact_exists {
        None => TurnView { say: seq![], action: ActionView::CheckArtifact { wasm } },
        Some(false) => TurnView {
            say: seq![diagnostic(artifact_missing(wasm))],
            action: ActionView::Done(Outcome::ArtifactMissing),
        },
        Some(true) => match (dir, progress.dir_created) {
            (Some(dir), None) => TurnView { say: seq![], action: ActionView::CreateDir { dir } },
            (Some(_), Some(Err(error))) => TurnView {
                say: seq![diagnostic(error)],
                action: ActionView::Done(Outcome::DirNotCreated),
            },
            _ => match checked_path(candid, dir, package) {
                Err(refused) => TurnView {
                    say: seq![diagnostic(path_error_text(refused))],
                    action: ActionView::Done(Outcome::PathRefused),
                },
                Ok(candid) => match progress.extracted {
                    None => TurnView { say: seq![], action: ActionView::Extract { wasm, candid } },
                    Some(Err(error)) => TurnView {
                        say: seq![
                            diagnostic(extraction_failure(package, error)),
                            notice(generated_notice(package)),
                        ],
                        action: ActionView::Done(Outcome::ExtractorFailed),
                    },
                    Some(Ok(_)) => TurnView {
                        say: seq![notice(generated_notice(package))],
                        action: ActionView::Done(Outcome::Generated),
                    },
                },
            },
        },
    }
}

/// A turn that says `say` and then does `action`.
fn turn(say: Vec<Report>, action: Action) -> (r: Turn)
    ensures
        r.say == say,
        r.action == action,
{
    Turn { say, action }
}

/// A turn that says nothing and does `action`.
fn silent(action: Action) -> (r: Turn)
    ensures
        r@ == (TurnView { say: seq![], action: action@ }),
{
    let say: Vec<Report> = Vec::new();
    assert(reports_view(say@) =~= seq![]);
    Turn { say, action }
}

/// A turn that gives one diagnostic and ends the work with `outcome`.
fn failed(text: String, outcome: Outcome) -> (r: Turn)
    ensures
        r@ == (TurnView { say: seq![diagnostic(text@)], action: ActionView::Done(outcome) }),
{
    let mut say: Vec<Report> = Vec::new();
    say.push(Report { stream: Stream::Stderr, text });
    assert(reports_view(say@) =~= seq![diagnostic(text@)]);
    Turn { say, action: Action::Done(outcome) }
}

impl Extraction {
    /// The extraction of which nothing is known yet.
    pub fn new() -> (r: Self)
        ensures
            r@ == (ExtractionView { artifact_exists: None, dir_created: None, extracted: None }),
    {
        Extraction { artifact_exists: None, dir_created: None, extracted: None }
    }
}

/// The turn of the extraction, all paths given; see [`extraction_turn`].
pub fn extraction_step(
    package: &str,
    wasm: String,
    candid: String,
    dir: Option<String>,
    progress: &Extraction,
) -> (r: Turn)
    ensures
        r@ == extraction_turn(
            package@,
            wasm@,
            candid@,
            opt_text(dir),
            progress@,
        ),
{
    match progress.artifact_exists {
        None => {
            return silent(Action::CheckArtifact { wasm });
        },
        Some(false) => {
            let text = concat3("Canister wasm file ", wasm.as_str(), " does not exists.");
            return failed(text, Outcome::ArtifactMissing);
        },
        Some(true) => {},
    }
    if dir.is_some() {
        match &progress.dir_created {
            None => {
                return silent(Action::CreateDir { dir: dir.unwrap() });
            },
            Some(Err(error)) => {
                return failed(error.clone(), Outcome::DirNotCreated);
            },
            Some(Ok(_)) => {},
        }
    }
    let candid = match check_candid_dir(candid, &dir, package) {
        Err(refused) => {
            return failed(refused.message(), Outcome::PathRefused);
        },
        Ok(candid) => candid,
    };
    let generated = Report {
        stream: Stream::Stdout,
        text: concat3("candid-gen: Canister '", package, "' candid file was successfully generated."),
    };
    match &progress.extracted {
        None => silent(Action::Extract { wasm, candid }),
        Some(Err(error)) => {
            let failure = Report {
                stream: Stream::Stderr,
                text: concat4(
                    "Failed to extract candid for the canister '",
                    package,
                    "': ",
                    error.as_str(),
                ),
            };
            let mut say: Vec<Report> = Vec::new();
            say.push(failure);
            say.push(generated);
            assert(reports_view(say@) =~= seq![
                diagnostic(extraction_failure(package@, error@)),
                notice(generated_notice(package@)),
            ]);
            turn(say, Action::Done(Outcome::ExtractorFailed))
        },
        Some(Ok(_)) => {
            let mut say: Vec<Report> = Vec::new();
            say.push(generated);
            assert(reports_view(say@) =~= seq![notice(generated_notice(package@))]);
            turn(say, Action::Done(Outcome::Generated))
        },
    }
}

/// The build artifact of `canister`, below the project root.
pub fn artifact_file(canister: &RustCanisterCfg) -> (r: String)
    ensures
        r@ == artifact_path(canister@.package),
{
    concat4(BUILD_OUTPUT_DIR, "/", canister.package.as_str(), ".wasm")
}

/// The turn of the extraction of the interface of `canister` in the project
/// at `project_root`, after what `progress` tells: the build artifact and the
/// interface file are taken from the project root, and the rest is
/// [`extraction_turn`].
pub fn gen_candid(project_root: &str, canister: &RustCanisterCfg, progress: &Extraction) -> (r:
    Turn)
    ensures
        r@ == extraction_turn(
            canister@.package,
            joined_path(project_root@, artifact_path(canister@.package)),
            joined_path(project_root@, canister@.candid),
            parent_path(joined_path(project_root@, canister@.candid)),
            progress@,
        ),
{
    let wasm = join(project_root, artifact_file(canister).as_str());
    let candid = join(project_root, canister.candid_file_path_str.as_str());
    let dir = parent(candid.as_str());
    extraction_step(canister.package.as_str(), wasm, candid, dir, progress)
}

/// Where the build artifact is not there, the extraction ends at once with
/// that diagnostic: the extractor is not run, whatever else is known.
pub proof fn lemma_missing_artifact_ends_extraction(
    package: Seq<char>,
    wasm: Seq<char>,
    candid: Seq<char>,
    dir: Option<Seq<char>>,
    progress: ExtractionView,
)
    requires
        progress.artifact_exists == Some(false),
    ensures
        extraction_turn(package, wasm, candid, dir, progress) == (TurnView {
            say: seq![diagnostic(artifact_missing(wasm))],
            action: ActionView::Done(Outcome::ArtifactMissing),
        }),
{
}

/// The extractor is run only on an artifact that is there, into a directory
/// that was created and whose path holds the package's name, and only once.
pub proof fn lemma_extractor_runs_last(
    package: Seq<char>,
    wasm: Seq<char>,
    candid: Seq<char>,
    dir: Option<Seq<char>>,
    progress: ExtractionView,
)
    requires
        extraction_turn(package, wasm, candid, dir, progress).action is Extract,
    ensures
        progress.artifact_exists == Some(true),
        dir is Some,
        progress.dir_created is Some && progress.dir_created->0 is Ok,
        is_substring(package, dir->0),
        progress.extracted is None,
        extraction_turn(package, wasm, candid, dir, progress).action == (ActionView::Extract {
            wasm,
            candid,
        }),
{
}

} // verus!
