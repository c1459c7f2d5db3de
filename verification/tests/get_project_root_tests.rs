use candid_gen::functions::get_project_root::{get_project_root, manifest_paths, visit, RootSearch};

/// Directories that exist only as a list of the files in them.
struct MockFiles {
    files: Vec<String>,
}

impl MockFiles {
    fn holds(&self, path: &str) -> bool {
        self.files.iter().any(|file| file == path)
    }
}

fn create_temp_project_with_files(temp_dir: &str) -> MockFiles {
    MockFiles { files: vec![format!("{}/dfx.json", temp_dir), format!("{}/Cargo.toml", temp_dir)] }
}

/// Looks where the search says and tells it what is there, until it ends.
/// Gives back the end and the directories looked at.
fn search(files: &MockFiles, curr_dir: &str, home_dir: &str) -> (RootSearch, Vec<String>) {
    let mut seen = Vec::new();
    let mut looked_at = Vec::new();
    for _ in 0..64 {
        match get_project_root(curr_dir, home_dir, &seen) {
            RootSearch::Probe(dir) => {
                let (dfx_json, cargo_toml) = manifest_paths(&dir);
                seen.push((files.holds(&dfx_json), files.holds(&cargo_toml)));
                looked_at.push(dir);
            }
            end => return (end, looked_at),
        }
    }
    panic!("the search did not end");
}

#[test]
fn test_get_project_root_success() {
    let temp_dir = "/tmp/.tmpProject";
    let files = create_temp_project_with_files(temp_dir);
    let home_dir = "/tmp";

    let (result, _) = search(&files, temp_dir, home_dir);

    assert!(matches!(result, RootSearch::Found(_)));
    assert_eq!(result, RootSearch::Found(temp_dir.to_string()));
}

#[test]
fn test_get_project_root_failure_no_dfx() {
    let temp_dir = "/tmp/.tmpProject";
    let files = MockFiles { files: vec![format!("{}/Cargo.toml", temp_dir)] };
    let home_dir = "/tmp";

    let (result, _) = search(&files, temp_dir, home_dir);

    assert_eq!(result, RootSearch::NotFound);
}

#[test]
fn test_get_project_root_failure_no_cargo() {
    let temp_dir = "/tmp/.tmpProject";
    let files = MockFiles { files: vec![format!("{}/dfx.json", temp_dir)] };
    let home_dir = "/tmp";

    let (result, _) = search(&files, temp_dir, home_dir);

    assert_eq!(result, RootSearch::NotFound);
}

#[test]
fn test_get_project_root_failure_no_files() {
    let temp_dir = "/tmp/.tmpProject";
    let files = MockFiles { files: Vec::new() };
    let home_dir = "/tmp";

    let (result, _) = search(&files, temp_dir, home_dir);

    assert_eq!(result, RootSearch::NotFound);
}

#[test]
fn test_get_project_root_from_sub_directory() {
    let temp_dir = "/tmp/.tmpProject";
    let mut files = create_temp_project_with_files(temp_dir);
    files.files.push(format!("{}/subdir/", temp_dir));
    let home_dir = "/tmp";

    let (result, _) = search(&files, temp_dir, home_dir);

    assert!(matches!(result, RootSearch::Found(_)));
    assert_eq!(result, RootSearch::Found(temp_dir.to_string()));
}

#[test]
fn search_goes_upwards_to_the_first_directory_with_both_files() {
    let mut files = create_temp_project_with_files("/home/user/work/project");
    files.files.push("/home/user/work/project/src/dfx.json".to_string());
    files.files.push("/home/user/work/Cargo.toml".to_string());
    files.files.push("/home/user/work/dfx.json".to_string());

    let (result, looked_at) = search(&files, "/home/user/work/project/src/canister", "/home/user");

    assert_eq!(result, RootSearch::Found("/home/user/work/project".to_string()));
    assert_eq!(
        looked_at,
        vec![
            "/home/user/work/project/src/canister",
            "/home/user/work/project/src",
            "/home/user/work/project",
        ]
    );
}

#[test]
fn search_does_not_look_at_the_home_directory() {
    let files = create_temp_project_with_files("/home/user");

    let (result, looked_at) = search(&files, "/home/user/work", "/home/user");
    assert_eq!(result, RootSearch::NotFound);
    assert_eq!(looked_at, vec!["/home/user/work"]);

    let (result, looked_at) = search(&files, "/home/user", "/home/user");
    assert_eq!(result, RootSearch::NotFound);
    assert!(looked_at.is_empty());

    let (result, looked_at) = search(&files, "/home/user/", "/home/user");
    assert_eq!(result, RootSearch::NotFound);
    assert!(looked_at.is_empty());
}

#[test]
fn search_ends_where_no_directory_is_above() {
    let files = MockFiles { files: Vec::new() };
    let (result, looked_at) = search(&files, "/srv/project", "/home/user");
    assert_eq!(result, RootSearch::NotFound);
    assert_eq!(looked_at, vec!["/srv/project", "/srv", "/"]);

    let (result, looked_at) = search(&files, "project/canister", "/home/user");
    assert_eq!(result, RootSearch::NotFound);
    assert_eq!(looked_at, vec!["project/canister", "project", ""]);
}

#[test]
fn search_asks_first_for_the_starting_directory() {
    assert_eq!(
        get_project_root("/a/b", "/a", &Vec::new()),
        RootSearch::Probe("/a/b".to_string())
    );
    assert_eq!(get_project_root("/a/b", "/a", &vec![(true, true)]), RootSearch::Found("/a/b".to_string()));
    assert_eq!(get_project_root("/a/b", "/a", &vec![(true, false)]), RootSearch::NotFound);
    assert_eq!(
        get_project_root("/a/b", "/x", &vec![(false, true)]),
        RootSearch::Probe("/a".to_string())
    );
    assert_eq!(
        get_project_root("/a/b", "/x", &vec![(false, false), (true, true), (true, true)]),
        RootSearch::Found("/a".to_string())
    );
}

#[test]
fn visit_decides_for_one_directory() {
    let dir = || "/a/b".to_string();
    assert_eq!(visit(dir(), true, None), Some(RootSearch::NotFound));
    assert_eq!(visit(dir(), true, Some((true, true))), Some(RootSearch::NotFound));
    assert_eq!(visit(dir(), false, None), Some(RootSearch::Probe(dir())));
    assert_eq!(visit(dir(), false, Some((true, true))), Some(RootSearch::Found(dir())));
    assert_eq!(visit(dir(), false, Some((true, false))), None);
    assert_eq!(visit(dir(), false, Some((false, true))), None);
    assert_eq!(visit(dir(), false, Some((false, false))), None);
}

#[test]
fn a_search_without_a_root_says_so() {
    assert_eq!(
        RootSearch::NotFound.failure(),
        Some(
            "Failed to find the IC project root containing both dfx.json and Cargo.toml from this directory"
                .to_string()
        )
    );
    assert_eq!(RootSearch::Found("/a".to_string()).failure(), None);
    assert_eq!(RootSearch::Probe("/a".to_string()).failure(), None);
}

#[test]
fn manifest_paths_are_below_the_directory() {
    assert_eq!(
        manifest_paths("/a/b"),
        ("/a/b/dfx.json".to_string(), "/a/b/Cargo.toml".to_string())
    );
    assert_eq!(manifest_paths("/a/b/"), ("/a/b/dfx.json".to_string(), "/a/b/Cargo.toml".to_string()));
    assert_eq!(manifest_paths(""), ("dfx.json".to_string(), "Cargo.toml".to_string()));
}
