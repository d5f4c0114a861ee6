//! File-system metadata and the recursive deletion algorithm.
//!
//! Remote metadata is modelled as plain values: a stat carries size,
//! permissions and kind, and a snapshot of a directory tree is a tree of
//! named entries. Deleting a path stats it; a file or symlink is unlinked
//! directly (symlinks are never traversed), while a directory has each
//! entry deleted recursively before the then-empty directory itself is
//! removed. The planner below turns a snapshot into exactly that sequence
//! of operations, and the laws at the end show the plan removes the whole
//! tree: one operation per node, all of them under the root, no path
//! touched twice, and no directory removed before everything inside it.

use vstd::prelude::*;
use vstd::string::StringExecFns;
use crate::errors::SshError;

verus! {

/// What a path is, as a stat reports it.
#[derive(Clone, Copy, Debug, PartialEq, Eq, Structural)]
pub enum FileKind {
    RegularFile,
    Directory,
    Symlink,
}

/// The metadata the session layer reads from a stat.
#[derive(Clone, Copy, Debug, PartialEq, Eq, Structural)]
pub struct FileStat {
    /// Size in bytes.
    pub size: u64,
    /// Permission bits.
    pub perm: u32,
    /// What the path is.
    pub kind: FileKind,
}

impl FileStat {
    pub fn is_file(&self) -> (r: bool)
        ensures
            r == (self.kind == FileKind::RegularFile),
    {
        matches!(self.kind, FileKind::RegularFile)
    }

    pub fn is_dir(&self) -> (r: bool)
        ensures
            r == (self.kind == FileKind::Directory),
    {
        matches!(self.kind, FileKind::Directory)
    }

    pub fn is_symlink(&self) -> (r: bool)
        ensures
            r == (self.kind == FileKind::Symlink),
    {
        matches!(self.kind, FileKind::Symlink)
    }
}

/// How deletion proceeds at a path, given its stat.
#[derive(Clone, Copy, Debug, PartialEq, Eq, Structural)]
pub enum DeleteAction {
    /// A file or symlink: unlink it directly, never traverse it.
    UnlinkNow,
    /// A directory: list it and delete every entry first.
    RecurseDir,
}

/// The deletion branch the algorithm takes at a freshly statted path.
pub fn delete_action(stat: &FileStat) -> (r: DeleteAction)
    ensures
        r == DeleteAction::UnlinkNow <==> (stat.kind == FileKind::RegularFile || stat.kind
            == FileKind::Symlink),
        r == DeleteAction::RecurseDir <==> stat.kind == FileKind::Directory,
{
    if stat.is_symlink() || stat.is_file() {
        DeleteAction::UnlinkNow
    } else {
        DeleteAction::RecurseDir
    }
}

/// The path-qualified error every failed file-system operation surfaces as.
pub fn path_error(path: &str) -> (r: SshError)
    ensures
        (r matches SshError::FileSystem { path: p } && p@ == path@),
{
    SshError::FileSystem { path: String::from_str(path) }
}

/// A snapshot of what is behind one path.
pub enum FsNode {
    /// A regular file or a symlink: unlinked, never traversed.
    Leaf,
    /// A directory with its named entries.
    Dir(Vec<FsEntry>),
}

/// One directory entry of a snapshot.
pub struct FsEntry {
    pub name: String,
    pub node: FsNode,
}

/// One step of a deletion plan.
#[derive(Clone, Copy, Debug, PartialEq, Eq, Structural)]
pub enum FsOpKind {
    /// Remove a file or symlink.
    Unlink,
    /// Remove a (by now empty) directory.
    Rmdir,
}

/// One operation of an executable deletion plan.
pub struct FsOp {
    pub path: String,
    pub kind: FsOpKind,
}

/// A plan operation, mathematically.
pub struct FsOpModel {
    pub path: Seq<char>,
    pub kind: FsOpKind,
}

/// The executable plan, mathematically.
pub open spec fn ops_model(s: Seq<FsOp>) -> Seq<FsOpModel> {
    s.map_values(|op: FsOp| FsOpModel { path: op.path@, kind: op.kind })
}

/// `name` under the directory `parent`.
pub open spec fn joined(parent: Seq<char>, name: Seq<char>) -> Seq<char> {
    parent + seq!['/'] + name
}

/// Joins a directory path and an entry name.
pub fn join_path(parent: &str, name: &str) -> (r: String)
    ensures
        r@ == joined(parent@, name@),
{
    proof {
        reveal_strlit("/");
    }
    let mut s = String::from_str(parent);
    s.append("/");
    s.append(name);
    proof {
        assert(s@ =~= parent@ + seq!['/'] + name@);
    }
    s
}

/// How many nodes the snapshot holds.
pub open spec fn node_count(t: FsNode) -> nat
    decreases t,
{
    match t {
        FsNode::Leaf => 1,
        FsNode::Dir(es) => 1 + entries_count(es@),
    }
}

pub open spec fn entries_count(es: Seq<FsEntry>) -> nat
    decreases es,
{
    if es.len() == 0 {
        0
    } else {
        node_count(es[0].node) + entries_count(es.drop_first())
    }
}

/// The deletion plan for the subtree at `path`: children in listing order,
/// each deleted in full, then the node itself.
pub open spec fn plan_spec(path: Seq<char>, t: FsNode) -> Seq<FsOpModel>
    decreases t,
{
    match t {
        FsNode::Leaf => seq![FsOpModel { path: path, kind: FsOpKind::Unlink }],
        FsNode::Dir(es) => entries_plan(path, es@) + seq![
            FsOpModel { path: path, kind: FsOpKind::Rmdir },
        ],
    }
}

pub open spec fn entries_plan(path: Seq<char>, es: Seq<FsEntry>) -> Seq<FsOpModel>
    decreases es,
{
    if es.len() == 0 {
        Seq::empty()
    } else {
        plan_spec(joined(path, es[0].name@), es[0].node) + entries_plan(path, es.drop_first())
    }
}

/// A directory snapshot is well formed when, at every level, entry names
/// are what a listing yields: free of the path separator and pairwise
/// distinct, with well-formed subtrees.
pub open spec fn wf_node(t: FsNode) -> bool
    decreases t,
{
    match t {
        FsNode::Leaf => true,
        FsNode::Dir(es) => {
            &&& forall|k: int, c: int|
                0 <= k < es@.len() && 0 <= c < es@[k].name@.len() ==> #[trigger] es@[k].name@[c]
                    != '/'
            &&& forall|k: int, l: int|
                0 <= k < l < es@.len() ==> es@[k].name@ != es@[l].name@
            &&& forall|k: int| 0 <= k < es@.len() ==> wf_node(#[trigger] es@[k].node)
        },
    }
}

proof fn lemma_entry_count_le(es: Seq<FsEntry>, i: int)
    requires
        0 <= i < es.len(),
    ensures
        node_count(es[i].node) <= entries_count(es),
    decreases es,
{
    if i == 0 {
    } else {
        lemma_entry_count_le(es.drop_first(), i - 1);
        assert(es.drop_first()[i - 1] == es[i]);
    }
}

proof fn lemma_entries_plan_snoc(path: Seq<char>, es: Seq<FsEntry>, e: FsEntry)
    ensures
        entries_plan(path, es.push(e)) == entries_plan(path, es) + plan_spec(
            joined(path, e.name@),
            e.node,
        ),
    decreases es,
{
    let whole = es.push(e);
    if es.len() == 0 {
        assert(whole[0] == e);
        assert(whole.drop_first() =~= es);
        assert(entries_plan(path, es) =~= Seq::<FsOpModel>::empty());
        assert(entries_plan(path, whole) =~= entries_plan(path, es) + plan_spec(
            joined(path, e.name@),
            e.node,
        ));
    } else {
        assert(whole[0] == es[0]);
        assert(whole.drop_first() =~= es.drop_first().push(e));
        lemma_entries_plan_snoc(path, es.drop_first(), e);
        assert(entries_plan(path, whole) =~= entries_plan(path, es) + plan_spec(
            joined(path, e.name@),
            e.node,
        ));
    }
}

/// Computes the deletion plan for the snapshot `t` rooted at `path`.
pub fn delete_plan(path: &str, t: &FsNode) -> (r: Vec<FsOp>)
    ensures
        ops_model(r@) == plan_spec(path@, *t),
    decreases node_count(*t),
{
    match t {
        FsNode::Leaf => {
            let mut out: Vec<FsOp> = Vec::new();
            out.push(FsOp { path: String::from_str(path), kind: FsOpKind::Unlink });
            proof {
                assert(ops_model(out@) =~= plan_spec(path@, *t));
            }
            out
        },
        FsNode::Dir(entries) => {
            let mut out: Vec<FsOp> = Vec::new();
            proof {
                assert(entries@.take(0) =~= Seq::<FsEntry>::empty());
                assert(ops_model(out@) =~= entries_plan(path@, entries@.take(0)));
            }
            let mut i: usize = 0;
            while i < entries.len()
                invariant
                    *t == FsNode::Dir(*entries),
                    i <= entries.len(),
                    ops_model(out@) == entries_plan(path@, entries@.take(i as int)),
                decreases entries.len() - i,
            {
                let child_path = join_path(path, entries[i].name.as_str());
                proof {
                    lemma_entry_count_le(entries@, i as int);
                    assert(*t == FsNode::Dir(*entries));
                    assert(node_count(*t) == 1 + entries_count(entries@));
                }
                let mut sub = delete_plan(child_path.as_str(), &entries[i].node);
                let ghost subv = sub@;
                let ghost pre = out@;
                out.append(&mut sub);
                proof {
                    assert(ops_model(out@) =~= ops_model(pre) + ops_model(subv));
                    assert(entries@.take(i + 1) =~= entries@.take(i as int).push(
                        entries@[i as int],
                    ));
                    lemma_entries_plan_snoc(path@, entries@.take(i as int), entries@[i as int]);
                }
                i = i + 1;
            }
            proof {
                assert(entries@.take(entries@.len() as int) =~= entries@);
            }
            let ghost pre = out@;
            out.push(FsOp { path: String::from_str(path), kind: FsOpKind::Rmdir });
            proof {
                assert(ops_model(out@) =~= ops_model(pre) + seq![
                    FsOpModel { path: path@, kind: FsOpKind::Rmdir },
                ]);
            }
            out
        },
    }
}

/// `q` lies strictly inside the directory `p`.
pub open spec fn strict_descendant(q: Seq<char>, p: Seq<char>) -> bool {
    q.len() > p.len() && q.take(p.len() as int) == p && q[p.len() as int] == '/'
}

/// `q` is `p` itself or lies inside it.
pub open spec fn in_region(q: Seq<char>, p: Seq<char>) -> bool {
    q == p || strict_descendant(q, p)
}

proof fn lemma_region_trans(q: Seq<char>, r: Seq<char>, p: Seq<char>)
    requires
        in_region(q, r),
        in_region(r, p),
    ensures
        in_region(q, p),
{
    if q != r && r != p {
        assert(q.take(p.len() as int) =~= q.take(r.len() as int).take(p.len() as int));
        assert(q[p.len() as int] == r[p.len() as int]);
    }
}

proof fn lemma_joined_descends(p: Seq<char>, n: Seq<char>)
    ensures
        strict_descendant(joined(p, n), p),
{
    assert(joined(p, n).take(p.len() as int) =~= p);
}

/// Regions of two differently named entries of one directory never meet:
/// listing names hold no separator, so neither root can sit inside the
/// other.
proof fn lemma_sibling_regions_disjoint(
    p: Seq<char>,
    n1: Seq<char>,
    n2: Seq<char>,
    q: Seq<char>,
)
    requires
        n1 != n2,
        forall|c: int| 0 <= c < n1.len() ==> n1[c] != '/',
        forall|c: int| 0 <= c < n2.len() ==> n2[c] != '/',
        in_region(q, joined(p, n1)),
    ensures
        !in_region(q, joined(p, n2)),
{
    let r1 = joined(p, n1);
    let r2 = joined(p, n2);
    if in_region(q, r2) {
        if r1.len() == r2.len() {
            assert(q.take(r1.len() as int) == r1 && q.take(r2.len() as int) == r2);
            assert(n1 =~= r1.skip(p.len() + 1 as int));
            assert(n2 =~= r2.skip(p.len() + 1 as int));
            assert(n1 =~= n2);
        } else if r1.len() < r2.len() {
            // r1 would be a proper prefix of r2, putting a separator inside n2
            assert(q.take(r1.len() as int) == r1);
            assert(q.take(r2.len() as int) == r2);
            assert(q.len() > r1.len());
            assert(q[r1.len() as int] == '/');
            assert(r2[r1.len() as int] == q[r1.len() as int]);
            assert(r2[r1.len() as int] == n2[r1.len() - p.len() - 1]);
            assert(false);
        } else {
            assert(q.take(r2.len() as int) == r2);
            assert(q.take(r1.len() as int) == r1);
            assert(q.len() > r2.len());
            assert(q[r2.len() as int] == '/');
            assert(r1[r2.len() as int] == q[r2.len() as int]);
            assert(r1[r2.len() as int] == n1[r2.len() - p.len() - 1]);
            assert(false);
        }
    }
}

/// Every operation of a subtree's plan stays inside that subtree's region:
/// the plan touches nothing outside the deleted tree.
pub proof fn lemma_plan_in_region(path: Seq<char>, t: FsNode)
    ensures
        forall|i: int|
            0 <= i < plan_spec(path, t).len() ==> in_region(
                #[trigger] plan_spec(path, t)[i].path,
                path,
            ),
    decreases t,
{
    match t {
        FsNode::Leaf => {},
        FsNode::Dir(es) => {
            lemma_entries_plan_in_region(path, es@);
        },
    }
}

proof fn lemma_entries_plan_in_region(path: Seq<char>, es: Seq<FsEntry>)
    ensures
        forall|i: int|
            0 <= i < entries_plan(path, es).len() ==> in_region(
                #[trigger] entries_plan(path, es)[i].path,
                path,
            ),
    decreases es,
{
    if es.len() > 0 {
        let r0 = joined(path, es[0].name@);
        let head = plan_spec(r0, es[0].node);
        lemma_plan_in_region(r0, es[0].node);
        lemma_joined_descends(path, es[0].name@);
        lemma_entries_plan_in_region(path, es.drop_first());
        assert forall|i: int| 0 <= i < entries_plan(path, es).len() implies in_region(
            #[trigger] entries_plan(path, es)[i].path,
            path,
        ) by {
            if i < head.len() {
                assert(entries_plan(path, es)[i] == head[i]);
                lemma_region_trans(head[i].path, r0, path);
            } else {
                assert(entries_plan(path, es)[i] == entries_plan(path, es.drop_first())[i
                    - head.len()]);
            }
        }
    }
}

/// Every operation of a subtree's plan lies in the region of one of the
/// directory's entries.
proof fn lemma_entries_plan_regions(path: Seq<char>, es: Seq<FsEntry>)
    ensures
        forall|i: int|
            0 <= i < entries_plan(path, es).len() ==> exists|l: int|
                0 <= l < es.len() && in_region(
                    #[trigger] entries_plan(path, es)[i].path,
                    joined(path, es[l].name@),
                ),
    decreases es,
{
    if es.len() > 0 {
        let r0 = joined(path, es[0].name@);
        let head = plan_spec(r0, es[0].node);
        lemma_plan_in_region(r0, es[0].node);
        lemma_entries_plan_regions(path, es.drop_first());
        assert forall|i: int| 0 <= i < entries_plan(path, es).len() implies exists|l: int|
            0 <= l < es.len() && in_region(
                #[trigger] entries_plan(path, es)[i].path,
                joined(path, es[l].name@),
            ) by {
            if i < head.len() {
                assert(entries_plan(path, es)[i] == head[i]);
                assert(in_region(entries_plan(path, es)[i].path, joined(path, es[0].name@)));
            } else {
                let tail_op = entries_plan(path, es.drop_first())[i - head.len()];
                assert(entries_plan(path, es)[i] == tail_op);
                let l = choose|l: int|
                    0 <= l < es.drop_first().len() && in_region(
                        tail_op.path,
                        joined(path, es.drop_first()[l].name@),
                    );
                assert(es.drop_first()[l] == es[l + 1]);
                assert(in_region(entries_plan(path, es)[i].path, joined(path, es[l + 1].name@)));
            }
        }
    }
}

/// In a well-formed subtree's plan, no later operation revisits an earlier
/// operation's path or anything inside it: what an operation removes is
/// never needed again — in particular a directory is removed only after
/// every path inside it.
pub proof fn lemma_plan_ordering(path: Seq<char>, t: FsNode)
    requires
        wf_node(t),
    ensures
        forall|i: int, j: int|
            0 <= i < j < plan_spec(path, t).len() ==> !in_region(
                plan_spec(path, t)[j].path,
                plan_spec(path, t)[i].path,
            ),
    decreases t,
{
    match t {
        FsNode::Leaf => {},
        FsNode::Dir(es) => {
            lemma_entries_plan_ordering(path, es@);
            lemma_entries_plan_regions(path, es@);
            let ep = entries_plan(path, es@);
            let whole = plan_spec(path, t);
            assert forall|i: int, j: int| 0 <= i < j < whole.len() implies !in_region(
                whole[j].path,
                whole[i].path,
            ) by {
                if j < ep.len() {
                    assert(whole[i] == ep[i] && whole[j] == ep[j]);
                } else {
                    // the root's own removal comes last; everything earlier
                    // lies strictly inside the root's region, hence is longer
                    assert(whole[j].path == path);
                    assert(whole[i] == ep[i]);
                    let l = choose|l: int|
                        0 <= l < es@.len() && in_region(ep[i].path, joined(path, es@[l].name@));
                    lemma_joined_descends(path, es@[l].name@);
                    assert(ep[i].path.len() > path.len());
                }
            }
        },
    }
}

proof fn lemma_entries_plan_ordering(path: Seq<char>, es: Seq<FsEntry>)
    requires
        forall|k: int, c: int|
            0 <= k < es.len() && 0 <= c < es[k].name@.len() ==> #[trigger] es[k].name@[c] != '/',
        forall|k: int, l: int| 0 <= k < l < es.len() ==> es[k].name@ != es[l].name@,
        forall|k: int| 0 <= k < es.len() ==> wf_node(#[trigger] es[k].node),
    ensures
        forall|i: int, j: int|
            0 <= i < j < entries_plan(path, es).len() ==> !in_region(
                entries_plan(path, es)[j].path,
                entries_plan(path, es)[i].path,
            ),
    decreases es,
{
    if es.len() > 0 {
        let r0 = joined(path, es[0].name@);
        let head = plan_spec(r0, es[0].node);
        let tail = entries_plan(path, es.drop_first());
        let ep = entries_plan(path, es);
        lemma_plan_ordering(r0, es[0].node);
        lemma_plan_in_region(r0, es[0].node);
        assert forall|k: int, c: int|
            0 <= k < es.drop_first().len() && 0 <= c
                < es.drop_first()[k].name@.len() implies #[trigger] es.drop_first()[k].name@[c]
            != '/' by {
            assert(es.drop_first()[k] == es[k + 1]);
        }
        assert forall|k: int, l: int|
            0 <= k < l < es.drop_first().len() implies es.drop_first()[k].name@
            != es.drop_first()[l].name@ by {
            assert(es.drop_first()[k] == es[k + 1] && es.drop_first()[l] == es[l + 1]);
        }
        assert forall|k: int| 0 <= k < es.drop_first().len() implies wf_node(
            #[trigger] es.drop_first()[k].node,
        ) by {
            assert(es.drop_first()[k] == es[k + 1]);
        }
        lemma_entries_plan_ordering(path, es.drop_first());
        lemma_entries_plan_regions(path, es.drop_first());
        assert forall|i: int, j: int| 0 <= i < j < ep.len() implies !in_region(
            ep[j].path,
            ep[i].path,
        ) by {
            if j < head.len() {
                assert(ep[i] == head[i] && ep[j] == head[j]);
            } else if i >= head.len() {
                assert(ep[i] == tail[i - head.len()] && ep[j] == tail[j - head.len()]);
            } else {
                // an operation of the first entry, then one of a later entry:
                // their regions belong to differently named siblings
                assert(ep[i] == head[i] && ep[j] == tail[j - head.len()]);
                assert(in_region(head[i].path, r0));
                let l = choose|l: int|
                    0 <= l < es.drop_first().len() && in_region(
                        tail[j - head.len()].path,
                        joined(path, es.drop_first()[l].name@),
                    );
                assert(es.drop_first()[l] == es[l + 1]);
                let rl = joined(path, es[l + 1].name@);
                assert(es[0].name@ != es[l + 1].name@);
                if in_region(ep[j].path, ep[i].path) {
                    lemma_region_trans(ep[j].path, ep[i].path, r0);
                    lemma_sibling_regions_disjoint(path, es[l + 1].name@, es[0].name@, ep[j].path);
                }
            }
        }
    }
}


/// The paths the plan operates on.
pub open spec fn planned_paths(path: Seq<char>, t: FsNode) -> Set<Seq<char>> {
    Set::new(
        |q: Seq<char>|
            exists|i: int| 0 <= i < plan_spec(path, t).len() && plan_spec(path, t)[i].path == q,
    )
}

/// The remote file system, modelled as the set of paths that exist:
/// carrying out one operation removes its path.
pub open spec fn apply_plan(fs: Set<Seq<char>>, ops: Seq<FsOpModel>) -> Set<Seq<char>>
    decreases ops.len(),
{
    if ops.len() == 0 {
        fs
    } else {
        apply_plan(fs.remove(ops[0].path), ops.drop_first())
    }
}

/// The remote side accepts an operation: the path still exists, and a
/// directory removal finds nothing left inside.
pub open spec fn op_accepted(fs: Set<Seq<char>>, op: FsOpModel) -> bool {
    &&& fs.contains(op.path)
    &&& op.kind == FsOpKind::Rmdir ==> forall|q: Seq<char>|
        fs.contains(q) ==> !strict_descendant(q, op.path)
}

proof fn lemma_apply_plan_membership(fs: Set<Seq<char>>, ops: Seq<FsOpModel>, q: Seq<char>)
    ensures
        apply_plan(fs, ops).contains(q) <==> (fs.contains(q) && forall|i: int|
            0 <= i < ops.len() ==> ops[i].path != q),
    decreases ops.len(),
{
    if ops.len() > 0 {
        let rest = ops.drop_first();
        lemma_apply_plan_membership(fs.remove(ops[0].path), rest, q);
        if fs.contains(q) && forall|i: int| 0 <= i < ops.len() ==> ops[i].path != q {
            assert forall|i: int| 0 <= i < rest.len() implies rest[i].path != q by {
                assert(rest[i] == ops[i + 1]);
            }
            assert(apply_plan(fs, ops).contains(q));
        }
        if apply_plan(fs, ops).contains(q) {
            assert forall|i: int| 0 <= i < ops.len() implies ops[i].path != q by {
                if i > 0 {
                    assert(rest[i - 1] == ops[i]);
                }
            }
        }
    }
}

/// Executing the plan, in order, against any state whose contents under
/// the root match the snapshot removes the entire tree and nothing else:
/// the remote side accepts every operation as it comes — in particular a
/// directory is removed only once nothing is left inside it — and
/// afterwards no path under the root exists, the root itself included,
/// while everything outside the root's region is untouched.
pub proof fn lemma_plan_execution_removes_tree(path: Seq<char>, t: FsNode, fs0: Set<Seq<char>>)
    requires
        wf_node(t),
        // snapshot accuracy: what exists under the root is exactly what
        // the plan names
        forall|q: Seq<char>|
            #![trigger fs0.contains(q)]
            #![trigger in_region(q, path)]
            (fs0.contains(q) && in_region(q, path)) <==> planned_paths(path, t).contains(q),
    ensures
        forall|i: int|
            0 <= i < plan_spec(path, t).len() ==> op_accepted(
                apply_plan(fs0, plan_spec(path, t).take(i)),
                #[trigger] plan_spec(path, t)[i],
            ),
        forall|q: Seq<char>|
            #![trigger fs0.contains(q)]
            #![trigger in_region(q, path)]
            apply_plan(fs0, plan_spec(path, t)).contains(q) <==> (fs0.contains(q) && !in_region(
                q,
                path,
            )),
        !apply_plan(fs0, plan_spec(path, t)).contains(path),
{
    let plan = plan_spec(path, t);
    lemma_plan_ordering(path, t);
    lemma_plan_in_region(path, t);

    assert forall|i: int| 0 <= i < plan.len() implies op_accepted(
        apply_plan(fs0, plan.take(i)),
        #[trigger] plan[i],
    ) by {
        let fsi = apply_plan(fs0, plan.take(i));
        let p = plan[i].path;
        assert(planned_paths(path, t).contains(p)) by {
            assert(0 <= i < plan.len() && plan[i].path == p);
        }
        assert(fs0.contains(p));
        lemma_apply_plan_membership(fs0, plan.take(i), p);
        assert forall|j: int| 0 <= j < plan.take(i).len() implies plan.take(i)[j].path != p by {
            assert(plan.take(i)[j] == plan[j]);
            assert(!in_region(plan[i].path, plan[j].path));
        }
        assert(fsi.contains(p));
        if plan[i].kind == FsOpKind::Rmdir {
            assert forall|q: Seq<char>| fsi.contains(q) implies !strict_descendant(q, p) by {
                if strict_descendant(q, p) {
                    lemma_apply_plan_membership(fs0, plan.take(i), q);
                    assert(fs0.contains(q));
                    lemma_region_trans(q, p, path);
                    assert(planned_paths(path, t).contains(q));
                    let j = choose|j: int| 0 <= j < plan.len() && plan[j].path == q;
                    // the path inside the directory is planned; ordering
                    // puts its removal before the directory's own
                    assert(j != i);
                    if i < j {
                        assert(!in_region(plan[j].path, plan[i].path));
                    }
                    assert(j < i);
                    assert(plan.take(i)[j].path == q);
                    assert(false);
                }
            }
        }
    }

    assert forall|q: Seq<char>|
        apply_plan(fs0, plan).contains(q) <==> (fs0.contains(q) && !in_region(q, path)) by {
        lemma_apply_plan_membership(fs0, plan, q);
        if apply_plan(fs0, plan).contains(q) && in_region(q, path) {
            assert(planned_paths(path, t).contains(q));
            let j = choose|j: int| 0 <= j < plan.len() && plan[j].path == q;
            assert(plan[j].path != q);
            assert(false);
        }
        if fs0.contains(q) && !in_region(q, path) {
            assert forall|i: int| 0 <= i < plan.len() implies plan[i].path != q by {
                assert(in_region(plan[i].path, path));
            }
        }
    }
    assert(in_region(path, path));
}

/// The plan is complete: exactly one operation per node of the snapshot,
/// and the root itself goes last — unlinked if it is a file or symlink,
/// removed as a directory otherwise.
pub proof fn lemma_plan_complete(path: Seq<char>, t: FsNode)
    ensures
        plan_spec(path, t).len() == node_count(t),
        plan_spec(path, t).len() >= 1,
        plan_spec(path, t).last().path == path,
        plan_spec(path, t).last().kind == (if t is Dir {
            FsOpKind::Rmdir
        } else {
            FsOpKind::Unlink
        }),
    decreases t,
{
    match t {
        FsNode::Leaf => {},
        FsNode::Dir(es) => {
            lemma_entries_plan_count(path, es@);
        },
    }
}

proof fn lemma_entries_plan_count(path: Seq<char>, es: Seq<FsEntry>)
    ensures
        entries_plan(path, es).len() == entries_count(es),
    decreases es,
{
    if es.len() > 0 {
        lemma_plan_complete(joined(path, es[0].name@), es[0].node);
        lemma_entries_plan_count(path, es.drop_first());
    }
}

} // verus!
