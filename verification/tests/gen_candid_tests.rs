use candid_gen::functions::gen_candid::{
    artifact_file, extraction_step, gen_candid, Action, Extraction, Outcome,
};
use candid_gen::functions::get_candid_path_str::get_candid_path_str;
use candid_gen::functions::get_project_root::manifest_paths;
use candid_gen::orchestrator::{next_turn, Progress};
use candid_gen::report::{Report, Stream};
use candid_gen::types::canisters::Canisters;
use candid_gen::types::dfx_cfg::{DfxCfg, RustCanisterCfg};
use candid_gen::BUILD_OUTPUT_DIR;

/// A project that exists only as a list of its files.
struct MockProject {
    root: String,
    files: Vec<String>,
}

impl MockProject {
    fn is_file(&self, path: &str) -> bool {
        self.files.iter().any(|file| file == path)
    }

    fn is_dir(&self, path: &str) -> bool {
        let below = format!("{}/", path.trim_end_matches("/"));
        self.files.iter().any(|file| file.starts_with(&below))
    }
}

const MOCK_MANIFEST: &str = r#"{
    "canisters": {
        "mock_canister": {
            "package": "mock_canister",
            "candid": "src/mock_canister/mock_canister.did",
            "type": "rust"
        },
        "frontend": {"type": "assets", "source": ["dist"]}
    }
}"#;

fn mock_project() -> MockProject {
    let root = "/work/candid-gen/tests/mock_project".to_string();
    let files = vec![
        format!("{}/Cargo.toml", root),
        format!("{}/dfx.json", root),
        format!("{}/src/mock_canister/Cargo.toml", root),
        format!("{}/src/mock_canister/src/lib.rs", root),
    ];
    MockProject { root, files }
}

/// Does what the turns ask for against a project that exists as a list of
/// files, with a compiler and an extractor that end as told. Gives back every
/// action and every line, in order.
fn run(
    project: &mut MockProject,
    canister: &RustCanisterCfg,
    build: Result<(), String>,
    extractor: Result<(), String>,
) -> (Vec<Action>, Vec<Report>) {
    let mut progress = Progress::new();
    let mut actions = Vec::new();
    let mut said = Vec::new();
    for _ in 0..10 {
        let turn = next_turn(&project.root, canister, &progress);
        said.extend(turn.say);
        match &turn.action {
            Action::Build { .. } => {
                if build.is_ok() {
                    project.files.push(format!(
                        "{}/{}/{}.wasm",
                        project.root, BUILD_OUTPUT_DIR, canister.package
                    ));
                }
                progress.built = Some(build.clone());
            }
            Action::CheckArtifact { wasm } => {
                progress.extraction.artifact_exists = Some(project.is_file(wasm));
            }
            Action::CreateDir { dir } => {
                project.files.push(format!("{}/", dir));
                progress.extraction.dir_created = Some(Ok(()));
            }
            Action::Extract { wasm, candid } => {
                assert!(project.is_file(wasm));
                if extractor.is_ok() {
                    project.files.push(candid.clone());
                }
                progress.extraction.extracted = Some(extractor.clone());
            }
            Action::Done(_) => {
                actions.push(turn.action);
                return (actions, said);
            }
        }
        actions.push(turn.action);
    }
    panic!("the work on the canister did not end");
}

fn line(stream: Stream, text: &str) -> Report {
    Report { stream, text: text.to_string() }
}

#[test]
fn gen_candid_tests_test_mock_project_dir() {
    let mock_project_dir = mock_project();
    let (dfx_json, cargo_toml) = manifest_paths(&mock_project_dir.root);
    assert!(mock_project_dir.is_dir(&mock_project_dir.root));
    assert!(mock_project_dir.is_file(&cargo_toml));
    assert!(mock_project_dir.is_file(&dfx_json));
}

#[test]
fn test_gen_candid_success() {
    let mut project = mock_project();
    let dfx_cfg: DfxCfg = DfxCfg::parse(MOCK_MANIFEST).unwrap();
    let canisters: Canisters = dfx_cfg.canisters;
    let (_, canister) = canisters.entries().iter().next().expect("No rust canister found");
    let candid_path = get_candid_path_str(&project.root, canister).unwrap();
    assert!(!project.is_file(&candid_path));

    let (actions, said) = run(&mut project, canister, Ok(()), Ok(()));

    assert!(project.is_file(&candid_path), "Candid file should exist");
    assert_eq!(
        candid_path,
        "/work/candid-gen/tests/mock_project/src/mock_canister/mock_canister.did"
    );
    let wasm = "/work/candid-gen/tests/mock_project/target/wasm32-unknown-unknown/release/mock_canister.wasm";
    assert_eq!(actions.len(), 5);
    assert!(matches!(actions[0], Action::Build { .. }));
    assert_eq!(actions[1], Action::CheckArtifact { wasm: wasm.to_string() });
    assert_eq!(
        actions[2],
        Action::CreateDir {
            dir: "/work/candid-gen/tests/mock_project/src/mock_canister".to_string(),
        }
    );
    assert_eq!(actions[3], Action::Extract { wasm: wasm.to_string(), candid: candid_path });
    assert_eq!(actions[4], Action::Done(Outcome::Generated));
    assert_eq!(
        said,
        vec![
            line(Stream::Stdout, "candid-gen: Canister 'mock_canister' built successfully."),
            line(
                Stream::Stdout,
                "candid-gen: Canister 'mock_canister' candid file was successfully generated.",
            ),
        ]
    );
}

#[test]
fn test_gen_candid_failure_nonexistent_wasm() {
    let project = mock_project();
    let dfx_cfg: DfxCfg = DfxCfg::parse(MOCK_MANIFEST).unwrap();
    let canisters: Canisters = dfx_cfg.canisters;
    let (canister_name, canister) = canisters.entries().iter().next().expect("No rust canister found");
    let wasm_file = format!("{}/{}/{}.wasm", project.root, BUILD_OUTPUT_DIR, canister_name);
    let candid_file_path = get_candid_path_str(&project.root, canister).unwrap();
    assert!(!project.is_file(&wasm_file));

    let mut progress = Extraction::new();
    let first = gen_candid(&project.root, canister, &progress);
    assert_eq!(first.action, Action::CheckArtifact { wasm: wasm_file.clone() });
    progress.artifact_exists = Some(project.is_file(&wasm_file));
    let gen_candid_result = gen_candid(&project.root, canister, &progress);

    assert!(!project.is_file(&candid_file_path), "Candid file should not exists");
    assert_eq!(
        gen_candid_result.action,
        Action::Done(Outcome::ArtifactMissing),
        "Candid generation result must be an Error"
    );
    assert_eq!(
        gen_candid_result.say,
        vec![line(
            Stream::Stderr,
            "Canister wasm file /work/candid-gen/tests/mock_project/target/wasm32-unknown-unknown/release/mock_canister.wasm does not exists.",
        )]
    );
}

#[test]
fn absent_artifact_ends_the_extraction_at_once() {
    let canister = RustCanisterCfg::new("m");
    assert_eq!(artifact_file(&canister), "target/wasm32-unknown-unknown/release/m.wasm");

    let mut progress = Extraction::new();
    let turn = gen_candid("", &canister, &progress);
    assert_eq!(
        turn.action,
        Action::CheckArtifact { wasm: "target/wasm32-unknown-unknown/release/m.wasm".to_string() }
    );
    assert!(turn.say.is_empty());

    progress.artifact_exists = Some(false);
    progress.dir_created = Some(Ok(()));
    progress.extracted = None;
    let turn = gen_candid("", &canister, &progress);
    assert_eq!(turn.action, Action::Done(Outcome::ArtifactMissing));
    assert_eq!(turn.say.len(), 1);
    assert_eq!(turn.say[0].stream, Stream::Stderr);
    assert_eq!(
        turn.say[0].text,
        "Canister wasm file target/wasm32-unknown-unknown/release/m.wasm does not exists."
    );
    assert!(turn.say[0].text.contains("does not exist"));
}

#[test]
fn a_canister_that_is_not_built_is_not_extracted() {
    let mut project = mock_project();
    let canister = RustCanisterCfg::new("m");
    let (actions, said) = run(&mut project, &canister, Err("no such package".to_string()), Ok(()));
    assert_eq!(actions.len(), 2);
    assert!(matches!(actions[0], Action::Build { .. }));
    assert_eq!(actions[1], Action::Done(Outcome::BuildFailed));
    assert_eq!(
        said,
        vec![line(Stream::Stderr, "Failed to build the canister 'm': no such package")]
    );
    assert!(!project.files.iter().any(|file| file.ends_with(".did")));
}

#[test]
fn a_failing_extractor_is_told_and_ends_the_work() {
    let mut project = mock_project();
    let canister = RustCanisterCfg::new("m");
    let (actions, said) = run(&mut project, &canister, Ok(()), Err("not a wasm module".to_string()));
    assert_eq!(actions.len(), 5);
    assert_eq!(actions[4], Action::Done(Outcome::ExtractorFailed));
    assert_eq!(
        said,
        vec![
            line(Stream::Stdout, "candid-gen: Canister 'm' built successfully."),
            line(
                Stream::Stderr,
                "Failed to extract candid for the canister 'm': not a wasm module",
            ),
            line(Stream::Stdout, "candid-gen: Canister 'm' candid file was successfully generated."),
        ]
    );
}

#[test]
fn a_directory_that_cannot_be_created_ends_the_extraction() {
    let canister = RustCanisterCfg::new("m");
    let mut progress = Extraction::new();
    progress.artifact_exists = Some(true);
    progress.dir_created = Some(Err("Permission denied (os error 13)".to_string()));
    let turn = gen_candid("/project", &canister, &progress);
    assert_eq!(turn.action, Action::Done(Outcome::DirNotCreated));
    assert_eq!(turn.say, vec![line(Stream::Stderr, "Permission denied (os error 13)")]);
}

#[test]
fn a_refused_place_ends_the_extraction_after_the_directory_is_made() {
    let canister = RustCanisterCfg {
        package: "m".to_string(),
        candid_file_path_str: "src/other/x.did".to_string(),
        other: Vec::new(),
    };
    let mut progress = Extraction::new();
    progress.artifact_exists = Some(true);
    let turn = gen_candid("/work", &canister, &progress);
    assert_eq!(turn.action, Action::CreateDir { dir: "/work/src/other".to_string() });
    progress.dir_created = Some(Ok(()));
    let turn = gen_candid("/work", &canister, &progress);
    assert_eq!(turn.action, Action::Done(Outcome::PathRefused));
    assert_eq!(
        turn.say,
        vec![line(Stream::Stderr, "fn gen_candid_path_str: Could not find the candid dir.")]
    );
}

#[test]
fn a_place_without_a_directory_is_refused() {
    let mut progress = Extraction::new();
    progress.artifact_exists = Some(true);
    let turn = extraction_step("m", "m.wasm".to_string(), "".to_string(), None, &progress);
    assert_eq!(turn.action, Action::Done(Outcome::PathRefused));
    assert_eq!(
        turn.say,
        vec![line(Stream::Stderr, "fn gen_candid_path_str: The candid path has no directory.")]
    );

    let canister = RustCanisterCfg {
        package: "m".to_string(),
        candid_file_path_str: "".to_string(),
        other: Vec::new(),
    };
    let turn = gen_candid("", &canister, &progress);
    assert_eq!(turn.action, Action::Done(Outcome::PathRefused));
}

#[test]
fn extraction_step_takes_the_paths_as_they_are_given() {
    let mut progress = Extraction::new();
    progress.artifact_exists = Some(true);
    progress.dir_created = Some(Ok(()));
    let turn = extraction_step(
        "m",
        "out/m.wasm".to_string(),
        "x/m/m.did".to_string(),
        Some("x/m".to_string()),
        &progress,
    );
    assert!(turn.say.is_empty());
    assert_eq!(
        turn.action,
        Action::Extract { wasm: "out/m.wasm".to_string(), candid: "x/m/m.did".to_string() }
    );
    progress.extracted = Some(Ok(()));
    let turn = extraction_step(
        "m",
        "out/m.wasm".to_string(),
        "x/m/m.did".to_string(),
        Some("x/m".to_string()),
        &progress,
    );
    assert_eq!(turn.action, Action::Done(Outcome::Generated));
}
