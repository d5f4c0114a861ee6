use std::collections::HashSet;

use remote_session::errors::SshError;
use remote_session::fsops::{
    delete_action, delete_plan, join_path, path_error, DeleteAction, FileKind, FileStat,
    FsEntry, FsNode, FsOpKind,
};

fn leaf(name: &str) -> FsEntry {
    FsEntry { name: name.to_string(), node: FsNode::Leaf }
}

fn dir(name: &str, entries: Vec<FsEntry>) -> FsEntry {
    FsEntry { name: name.to_string(), node: FsNode::Dir(entries) }
}

#[test]
fn stat_kind_decides_the_branch() {
    let f = FileStat { size: 10, perm: 0o644, kind: FileKind::RegularFile };
    let s = FileStat { size: 0, perm: 0o777, kind: FileKind::Symlink };
    let d = FileStat { size: 4096, perm: 0o755, kind: FileKind::Directory };
    assert_eq!(delete_action(&f), DeleteAction::UnlinkNow);
    assert_eq!(delete_action(&s), DeleteAction::UnlinkNow);
    assert_eq!(delete_action(&d), DeleteAction::RecurseDir);
    assert!(f.is_file() && !f.is_dir() && !f.is_symlink());
    assert!(s.is_symlink() && d.is_dir());
}

#[test]
fn plan_for_single_file_unlinks_it() {
    let plan = delete_plan("/tmp/file", &FsNode::Leaf);
    assert_eq!(plan.len(), 1);
    assert_eq!(plan[0].path, "/tmp/file");
    assert_eq!(plan[0].kind, FsOpKind::Unlink);
}

#[test]
fn plan_for_empty_directory_removes_it() {
    let plan = delete_plan("/tmp/empty", &FsNode::Dir(Vec::new()));
    assert_eq!(plan.len(), 1);
    assert_eq!(plan[0].path, "/tmp/empty");
    assert_eq!(plan[0].kind, FsOpKind::Rmdir);
}

#[test]
fn nested_tree_is_removed_bottom_up() {
    // /tmp/x holding a file, a nested directory tree, and a symlink
    let tree = FsNode::Dir(vec![
        leaf("a"),
        dir("b", vec![leaf("c"), dir("d", vec![leaf("e")])]),
        leaf("f"),
    ]);
    let plan = delete_plan("/tmp/x", &tree);
    let got: Vec<(String, FsOpKind)> =
        plan.iter().map(|op| (op.path.clone(), op.kind)).collect();
    assert_eq!(
        got,
        vec![
            ("/tmp/x/a".to_string(), FsOpKind::Unlink),
            ("/tmp/x/b/c".to_string(), FsOpKind::Unlink),
            ("/tmp/x/b/d/e".to_string(), FsOpKind::Unlink),
            ("/tmp/x/b/d".to_string(), FsOpKind::Rmdir),
            ("/tmp/x/b".to_string(), FsOpKind::Rmdir),
            ("/tmp/x/f".to_string(), FsOpKind::Unlink),
            ("/tmp/x".to_string(), FsOpKind::Rmdir),
        ]
    );
    // one operation per node, every path distinct, the root goes last
    assert_eq!(plan.len(), 7);
    for i in 0..plan.len() {
        for j in (i + 1)..plan.len() {
            assert_ne!(plan[i].path, plan[j].path);
            // no later operation touches anything below an earlier one
            assert!(!plan[j].path.starts_with(&format!("{}/", plan[i].path)));
        }
    }
    // every directory's removal comes after all operations inside it
    for i in 0..plan.len() {
        if plan[i].kind == FsOpKind::Rmdir {
            for j in (i + 1)..plan.len() {
                assert!(!plan[j].path.starts_with(&format!("{}/", plan[i].path)));
            }
        }
    }
}

#[test]
fn plan_execution_empties_the_tree() {
    // simulate the remote side as a set of existing paths: every
    // operation must find its path, a directory removal must find the
    // directory already empty, and at the end nothing under the root is
    // left while unrelated paths survive
    let tree = FsNode::Dir(vec![
        dir("deep", vec![dir("deeper", vec![leaf("leaf")])]),
        leaf("top"),
    ]);
    let plan = delete_plan("/srv/data", &tree);
    let mut fs: HashSet<String> = plan.iter().map(|op| op.path.clone()).collect();
    fs.insert("/srv".to_string());
    fs.insert("/srv/kept".to_string());
    for op in &plan {
        assert!(fs.contains(&op.path));
        if op.kind == FsOpKind::Rmdir {
            let inside = format!("{}/", op.path);
            assert!(!fs.iter().any(|q| q.starts_with(&inside)));
        }
        fs.remove(&op.path);
    }
    assert!(!fs.contains("/srv/data"));
    assert!(!fs.iter().any(|q| q.starts_with("/srv/data/")));
    assert!(fs.contains("/srv"));
    assert!(fs.contains("/srv/kept"));
}

#[test]
fn join_path_inserts_one_separator() {
    assert_eq!(join_path("/tmp/x", "file"), "/tmp/x/file");
    assert_eq!(join_path("", "file"), "/file");
}

#[test]
fn filesystem_errors_carry_the_path() {
    assert_eq!(
        path_error("/tmp/missing"),
        SshError::FileSystem { path: "/tmp/missing".to_string() }
    );
}
