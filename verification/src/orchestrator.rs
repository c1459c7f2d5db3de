use vstd::prelude::*;
use crate::functions::build_wasm32::{build_command, build_failure, build_wasm32, build_words, built_notice};
use crate::functions::gen_candid::{
    artifact_path,
    done_view,
    extraction_turn,
    gen_candid,
    Action,
    ActionView,
    Extraction,
    ExtractionView,
    Outcome,
    Turn,
    TurnView,
};
use crate::paths::{joined_path, parent_path};
use crate::report::{diagnostic, notice, reports_view, Report, ReportView, Stream};
use crate::text::{concat3, texts};
use crate::types::canisters::{selection, unknown_names, Canisters};
use crate::types::dfx_cfg::{CanisterView, RustCanisterCfg};

verus! {

/// What is known so far of the work on one canister: how the build went, and
/// how far the extraction has come.
#[derive(Debug)]
pub struct Progress {
    /// How the compiler's run went; `None` until it has run.
    pub built: Option<Result<(), String>>,
    pub extraction: Extraction,
}

/// The mathematical value of a [`Progress`].
pub struct ProgressView {
    pub built: Option<Result<(), Seq<char>>>,
    pub extraction: ExtractionView,
}

impl View for Progress {
    type V = ProgressView;

    open spec fn view(&self) -> ProgressView {
        ProgressView { built: done_view(self.built), extraction: self.extraction@ }
    }
}

impl Progress {
    /// The work of which nothing is done yet.
    pub fn new() -> (r: Self)
        ensures
            r@ == (ProgressView {
                built: None,
                extraction: ExtractionView {
                    artifact_exists: None,
                    dir_created: None,
                    extracted: None,
                },
            }),
    {
        Progress { built: None, extraction: Extraction::new() }
    }
}

/// The turn of the work on `canister` in the project at `root`, after what
/// `progress` tells. The canister is built first. A failed build is told and
/// ends the work on the canister: nothing of the extraction is tried. After a
/// build that succeeded, the turns are those of the extraction, the first of
/// them with the notice of the build.
pub open spec fn canister_turn(root: Seq<char>, canister: CanisterView, progress: ProgressView) -> TurnView {
    match progress.built {
        None => TurnView {
            say: seq![],
            action: ActionView::Build { command: build_words(canister.package) },
        },
        Some(Err(error)) => TurnView {
            say: seq![diagnostic(build_failure(canister.package, error))],
            action: ActionView::Done(Outcome::BuildFailed),
        },
        Some(Ok(_)) => {
            let extraction = extraction_turn(
                canister.package,
                joined_path(root, artifact_path(canister.package)),
                joined_path(root, canister.candid),
                parent_path(joined_path(root, canister.candid)),
                progress.extraction,
            );
            let built = if progress.extraction.artifact_exists is None {
                seq![notice(built_notice(canister.package))]
            } else {
                seq![]
            };
            TurnView { say: built + extraction.say, action: extraction.action }
        },
    }
}

/// Says what to tell the user and what to do next for `canister` in the
/// project at `project_root`, after what `progress` tells; see
/// [`canister_turn`]. A caller does what the turn asks, notes in `progress` how
/// it went, and asks again, until the turn is `Done`.
pub fn next_turn(project_root: &str, canister: &RustCanisterCfg, progress: &Progress) -> (r: Turn)
    ensures
        r@ == canister_turn(project_root@, canister@, progress@),
{
    match &progress.built {
        None => {
            let say: Vec<Report> = Vec::new();
            assert(reports_view(say@) =~= seq![]);
            Turn { say, action: Action::Build { command: build_command(canister) } }
        },
        Some(outcome) => match build_wasm32(canister, outcome) {
            Err(text) => {
                let mut say: Vec<Report> = Vec::new();
                say.push(Report { stream: Stream::Stderr, text });
                assert(reports_view(say@) =~= seq![
                    diagnostic(build_failure(canister@.package, outcome->Err_0@)),
                ]);
                Turn { say, action: Action::Done(Outcome::BuildFailed) }
            },
            Ok(text) => {
                let extraction = gen_candid(project_root, canister, &progress.extraction);
                if progress.extraction.artifact_exists.is_none() {
                    let mut say: Vec<Report> = Vec::new();
                    say.push(Report { stream: Stream::Stdout, text });
                    assert(reports_view(say@) =~= seq![notice(built_notice(canister@.package))]
                        + extraction@.say);
                    Turn { say, action: extraction.action }
                } else {
                    extraction
                }
            },
        },
    }
}

/// What is said of a selected name that the registry does not know.
pub open spec fn unknown_canister(name: Seq<char>) -> Seq<char> {
    "candid-gen error: Not able to generate the candid file for the canister: "@ + name
        + ".\nVerify if it is a 'rust' canister type, or if the name is correct.\n"@
}

/// The warnings that a selection gives: one for each name that the registry
/// does not know, as often and in the order in which the selection asks for
/// it. A warning stops nothing.
pub open spec fn warnings_of(
    registry: Map<Seq<char>, CanisterView>,
    names: Option<Seq<Seq<char>>>,
) -> Seq<ReportView> {
    unknown_names(registry, names).map_values(|name: Seq<char>| diagnostic(unknown_canister(name)))
}

/// The warnings that the selection `names` gives against `registry`; see
/// [`warnings_of`].
pub fn selection_warnings(registry: &Canisters, names: &Option<Vec<String>>) -> (r: Vec<Report>)
    ensures
        reports_view(r@) == warnings_of(registry@, selection(*names)),
{
    let unknown = registry.not_found(names);
    let mut warnings: Vec<Report> = Vec::new();
    let mut i: usize = 0;
    while i < unknown.len()
        invariant
            i <= unknown.len(),
            warnings@.len() == i,
            forall|k: int|
                0 <= k < i ==> warnings@[k]@ == diagnostic(unknown_canister(unknown@[k]@)),
        decreases unknown.len() - i,
    {
        let text = concat3(
            "candid-gen error: Not able to generate the candid file for the canister: ",
            unknown[i].as_str(),
            ".\nVerify if it is a 'rust' canister type, or if the name is correct.\n",
        );
        warnings.push(Report { stream: Stream::Stderr, text });
        i += 1;
    }
    warnings
}

/// A failed build ends the work on the canister with a diagnostic that names
/// it and holds what the compiler reported. Nothing of the extraction is
/// tried, whatever is known of it.
pub proof fn lemma_failed_build_skips_extraction(
    root: Seq<char>,
    canister: CanisterView,
    progress: ProgressView,
)
    requires
        progress.built is Some,
        progress.built->0 is Err,
    ensures
        canister_turn(root, canister, progress) == (TurnView {
            say: seq![diagnostic(build_failure(canister.package, progress.built->0->Err_0))],
            action: ActionView::Done(Outcome::BuildFailed),
        }),
{
}

/// Nothing is done for a canister before it is built, and after a successful
/// build what is done is what the extraction asks for.
pub proof fn lemma_build_comes_first(root: Seq<char>, canister: CanisterView, progress: ProgressView)
    ensures
        progress.built is None ==> canister_turn(root, canister, progress).action == (
        ActionView::Build { command: build_words(canister.package) }),
        canister_turn(root, canister, progress).action is Extract ==> progress.built is Some
            && progress.built->0 is Ok && progress.extraction.artifact_exists == Some(true),
{
}

} // verus!
