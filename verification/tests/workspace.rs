use bacchus::workspace::{find_workspace_root, parent_dir};
use bacchus::worktree::{Command, Outcome, Progress};

fn path_exists(path: &str) -> Command {
    Command::PathExists { path: path.to_string() }
}

/// Answers the questions of a search from `dir` by what `present` holds.
fn search(dir: &str, present: &[&str]) -> (Vec<Command>, Option<String>) {
    let mut asked = Vec::new();
    let mut outcomes = Vec::new();
    loop {
        match find_workspace_root(dir, &outcomes) {
            Progress::Run(command) => {
                let path = match &command {
                    Command::PathExists { path } => path.clone(),
                    Command::IsDir { path } => path.clone(),
                    Command::CreateDirAll { path } => path.clone(),
                    Command::Git { dir, .. } => dir.clone(),
                };
                outcomes.push(Outcome::Exists(present.contains(&path.as_str())));
                asked.push(command);
            }
            Progress::Return(result) => return (asked, result.unwrap()),
        }
    }
}

#[test]
fn directories_have_parents_up_to_the_root() {
    assert_eq!(parent_dir("/a/b/c"), Some("/a/b".to_string()));
    assert_eq!(parent_dir("/a"), Some("/".to_string()));
    assert_eq!(parent_dir("/"), None);
    assert_eq!(parent_dir(""), None);
    assert_eq!(parent_dir("a"), None);
    assert_eq!(parent_dir("a/b"), Some("a".to_string()));
    assert_eq!(parent_dir("/ä/ö"), Some("/ä".to_string()));
}

#[test]
fn the_nearest_workspace_is_found() {
    let (asked, found) = search("/home/u/ws/src/deep", &["/home/u/ws/.bacchus", "/home/.beads"]);
    assert_eq!(found, Some("/home/u/ws".to_string()));
    assert_eq!(
        asked,
        vec![
            path_exists("/home/u/ws/src/deep/.bacchus"),
            path_exists("/home/u/ws/src/deep/.beads"),
            Command::IsDir { path: "/home/u/ws/src/deep/.git".to_string() },
            path_exists("/home/u/ws/src/.bacchus"),
            path_exists("/home/u/ws/src/.beads"),
            Command::IsDir { path: "/home/u/ws/src/.git".to_string() },
            path_exists("/home/u/ws/.bacchus"),
        ]
    );
    let (_, found) = search("/ws", &["/ws/.beads"]);
    assert_eq!(found, Some("/ws".to_string()));
    let (asked, found) = search("/ws/x", &["/ws/.git"]);
    assert_eq!(found, Some("/ws".to_string()));
    assert_eq!(asked.len(), 6);
}

#[test]
fn no_workspace_is_found_above_the_root() {
    let (asked, found) = search("/a/b", &[]);
    assert_eq!(found, None);
    assert_eq!(asked.len(), 9);
    assert_eq!(asked[6], path_exists("//.bacchus"));
    let (asked, found) = search("/", &[]);
    assert_eq!(found, None);
    assert_eq!(asked.len(), 3);
    let outcomes = vec![Outcome::IoError("denied".to_string())];
    assert_eq!(
        find_workspace_root("/a", &outcomes),
        Progress::Run(path_exists("/a/.beads"))
    );
}
