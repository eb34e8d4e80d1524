//! Transfers, download targets and the target planner.
//!
//! The planner expands a snapshot of a remote file tree into an ordered list
//! of local download targets: one `Directory` target per non-skipped folder,
//! one `File` target per video-typed leaf, nothing for anything else. A
//! skipped folder drops its entire subtree. The unverified shell gathers the
//! snapshot from the remote listing calls; planning over it is pure.

use vstd::prelude::*;

use crate::putio::PutIOTransfer;
use crate::text::{is_skipped, join_path, spec_skipped};

verus! {

/// Kind of one unit of local work.
#[derive(Debug, Clone, Copy, PartialEq, Eq, Structural)]
pub enum TargetType {
    Directory,
    File,
}

/// One unit of local work: a directory to create or a file to fetch.
#[derive(Debug, PartialEq)]
pub struct DownloadTarget {
    /// Fetch URL; absent for directories.
    pub from: Option<String>,
    /// Destination local path.
    pub to: String,
    pub target_type: TargetType,
    /// True for the one target per transfer whose path is deleted wholesale
    /// after import.
    pub top_level: bool,
    /// Owning transfer's hash, for log correlation only.
    pub transfer_hash: String,
}

/// Mathematical value of a [`DownloadTarget`].
#[verifier::ext_equal]
pub struct SpecTarget {
    pub from: Option<Seq<char>>,
    pub to: Seq<char>,
    pub target_type: TargetType,
    pub top_level: bool,
    pub transfer_hash: Seq<char>,
}

impl View for DownloadTarget {
    type V = SpecTarget;

    open spec fn view(&self) -> SpecTarget {
        SpecTarget {
            from: match self.from {
                Option::Some(s) => Option::Some(s@),
                Option::None => Option::None,
            },
            to: self.to@,
            target_type: self.target_type,
            top_level: self.top_level,
            transfer_hash: self.transfer_hash@,
        }
    }
}

impl DeepView for DownloadTarget {
    type V = SpecTarget;

    open spec fn deep_view(&self) -> SpecTarget {
        self.view()
    }
}

/// One remote download job tracked by the pipeline.
#[derive(Debug)]
pub struct Transfer {
    pub name: String,
    pub file_id: Option<u64>,
    pub hash: Option<String>,
    pub transfer_id: u64,
    pub targets: Option<Vec<DownloadTarget>>,
}

/// Mathematical value of a [`Transfer`].
#[verifier::ext_equal]
pub struct SpecTransfer {
    pub name: Seq<char>,
    pub file_id: Option<u64>,
    pub hash: Option<Seq<char>>,
    pub transfer_id: u64,
    pub targets: Option<Seq<SpecTarget>>,
}

impl View for Transfer {
    type V = SpecTransfer;

    open spec fn view(&self) -> SpecTransfer {
        SpecTransfer {
            name: self.name@,
            file_id: self.file_id,
            hash: match self.hash {
                Option::Some(h) => Option::Some(h@),
                Option::None => Option::None,
            },
            transfer_id: self.transfer_id,
            targets: match self.targets {
                Option::Some(ts) => Option::Some(ts.deep_view()),
                Option::None => Option::None,
            },
        }
    }
}

impl DeepView for Transfer {
    type V = SpecTransfer;

    open spec fn deep_view(&self) -> SpecTransfer {
        self.view()
    }
}

impl Clone for DownloadTarget {
    /// A clone carries the same value.
    fn clone(&self) -> (r: Self)
        ensures
            r@ == self@,
    {
        DownloadTarget {
            from: match &self.from {
                Option::Some(u) => Option::Some(u.clone()),
                Option::None => Option::None,
            },
            to: self.to.clone(),
            target_type: self.target_type,
            top_level: self.top_level,
            transfer_hash: self.transfer_hash.clone(),
        }
    }
}

impl Clone for Transfer {
    /// A clone carries the same value.
    fn clone(&self) -> (r: Self)
        ensures
            r@ == self@,
    {
        let targets: Option<Vec<DownloadTarget>> = match &self.targets {
            Option::Some(ts) => {
                let copy = ts.clone();
                proof {
                    assert forall|i: int|
                        0 <= i < ts@.len() implies copy.deep_view()[i] == ts.deep_view()[i] by {
                        assert(cloned::<DownloadTarget>(ts[i], copy[i]));
                    }
                    assert(copy.deep_view() =~= ts.deep_view());
                }
                Option::Some(copy)
            },
            Option::None => Option::None,
        };
        Transfer {
            name: self.name.clone(),
            file_id: self.file_id,
            hash: match &self.hash {
                Option::Some(h) => Option::Some(h.clone()),
                Option::None => Option::None,
            },
            transfer_id: self.transfer_id,
            targets,
        }
    }
}

/// The message multiplexed through the pipeline's one event queue. Producing
/// `Downloaded` or `Imported` re-enters the same queue, so the per-transfer
/// state machine advances by message passing alone.
#[derive(Debug)]
pub enum TransferMessage {
    QueuedForDownload(Transfer),
    Downloaded(Transfer),
    Imported(Transfer),
}

/// Type tag of a node of the remote file tree.
#[derive(Debug, Clone, Copy, PartialEq, Eq, Structural)]
pub enum FileKind {
    Folder,
    Video,
    Other,
}

/// Snapshot of one node of the remote file tree, with its subtree. The shell
/// builds it from the remote list-children and resolve-url calls.
#[derive(Debug)]
pub struct FileNode {
    pub id: u64,
    pub name: String,
    pub kind: FileKind,
    /// Resolved fetch URL, for video nodes the shell resolved one for.
    pub url: Option<String>,
    pub children: Vec<FileNode>,
}

/// Destination local path of a node: the parent's local path joined with the
/// node's name, or the bare name at the root.
pub open spec fn spec_dest(base: Option<Seq<char>>, name: Seq<char>) -> Seq<char> {
    match base {
        Option::Some(b) => b + seq!['/'] + name,
        Option::None => name,
    }
}

/// The planned targets of one node's subtree.
pub open spec fn spec_plan(
    node: FileNode,
    skip: Seq<String>,
    base: Option<Seq<char>>,
    hash: Seq<char>,
    top: bool,
) -> Seq<SpecTarget>
    decreases node,
{
    let dest = spec_dest(base, node.name@);
    match node.kind {
        FileKind::Folder => if spec_skipped(skip, node.name@) {
            Seq::empty()
        } else {
            seq![
                SpecTarget {
                    from: Option::None,
                    to: dest,
                    target_type: TargetType::Directory,
                    top_level: top,
                    transfer_hash: hash,
                },
            ] + spec_plan_seq(node.children@, skip, dest, hash)
        },
        FileKind::Video => seq![
            SpecTarget {
                from: match node.url {
                    Option::Some(u) => Option::Some(u@),
                    Option::None => Option::None,
                },
                to: dest,
                target_type: TargetType::File,
                top_level: top,
                transfer_hash: hash,
            },
        ],
        FileKind::Other => Seq::empty(),
    }
}

/// The planned targets of a folder's children, in order. Children are never
/// top-level.
pub open spec fn spec_plan_seq(
    nodes: Seq<FileNode>,
    skip: Seq<String>,
    base: Seq<char>,
    hash: Seq<char>,
) -> Seq<SpecTarget>
    decreases nodes,
{
    if nodes.len() == 0 {
        Seq::empty()
    } else {
        spec_plan_seq(nodes.drop_last(), skip, base, hash) + spec_plan(
            nodes.last(),
            skip,
            Option::Some(base),
            hash,
            false,
        )
    }
}

/// Spec value of an optional base path handed to the planner.
pub open spec fn spec_base(base: Option<&String>) -> Option<Seq<char>> {
    match base {
        Option::Some(b) => Option::Some(b@),
        Option::None => Option::None,
    }
}

/// Plans the targets of one node's subtree: depth-first, one `Directory`
/// target per non-skipped folder followed by its children's targets, one
/// `File` target per video leaf, nothing for any other node, and nothing at
/// all below a skipped folder.
pub fn plan_targets(
    node: &FileNode,
    skip: &Vec<String>,
    base: Option<&String>,
    hash: &String,
    top: bool,
) -> (r: Vec<DownloadTarget>)
    ensures
        r.deep_view() == spec_plan(*node, skip@, spec_base(base), hash@, top),
    decreases *node,
{
    let dest: String = match base {
        Option::Some(b) => join_path(b.as_str(), node.name.as_str()),
        Option::None => node.name.clone(),
    };
    let ghost spec_dest_val = spec_dest(spec_base(base), node.name@);
    assert(dest@ == spec_dest_val);
    let mut out: Vec<DownloadTarget> = Vec::new();
    match node.kind {
        FileKind::Folder => {
            if !is_skipped(skip, node.name.as_str()) {
                out.push(
                    DownloadTarget {
                        from: Option::None,
                        to: dest.clone(),
                        target_type: TargetType::Directory,
                        top_level: top,
                        transfer_hash: hash.clone(),
                    },
                );
                let ghost dir_target = SpecTarget {
                    from: Option::None,
                    to: spec_dest_val,
                    target_type: TargetType::Directory,
                    top_level: top,
                    transfer_hash: hash@,
                };
                assert(out.deep_view() =~= seq![dir_target]);
                let mut i: usize = 0;
                while i < node.children.len()
                    invariant
                        0 <= i <= node.children@.len(),
                        dest@ == spec_dest_val,
                        out.deep_view() =~= seq![dir_target] + spec_plan_seq(
                            node.children@.take(i as int),
                            skip@,
                            spec_dest_val,
                            hash@,
                        ),
                    decreases node.children@.len() - i,
                {
                    let mut sub = plan_targets(&node.children[i], skip, Option::Some(&dest), hash, false);
                    let ghost old_out = out.deep_view();
                    let ghost sub_view = sub.deep_view();
                    out.append(&mut sub);
                    proof {
                        assert(node.children@.take(i + 1).drop_last() =~= node.children@.take(
                            i as int,
                        ));
                        assert(node.children@.take(i + 1).last() == node.children@[i as int]);
                        assert(out.deep_view() =~= old_out + sub_view);
                    }
                    i = i + 1;
                }
                proof {
                    assert(node.children@.take(node.children@.len() as int) =~= node.children@);
                }
            }
        },
        FileKind::Video => {
            let from: Option<String> = match &node.url {
                Option::Some(u) => Option::Some(u.clone()),
                Option::None => Option::None,
            };
            out.push(
                DownloadTarget {
                    from,
                    to: dest,
                    target_type: TargetType::File,
                    top_level: top,
                    transfer_hash: hash.clone(),
                },
            );
            assert(out.deep_view() =~= spec_plan(*node, skip@, spec_base(base), hash@, top));
        },
        FileKind::Other => {
            assert(out.deep_view() =~= Seq::<SpecTarget>::empty());
        },
    }
    out
}

/// Number of `Directory` targets in a plan.
pub open spec fn spec_dir_count(ts: Seq<SpecTarget>) -> nat
    decreases ts,
{
    if ts.len() == 0 {
        0
    } else {
        spec_dir_count(ts.drop_last()) + if ts.last().target_type == TargetType::Directory {
            1nat
        } else {
            0nat
        }
    }
}

/// Number of `File` targets in a plan.
pub open spec fn spec_file_count(ts: Seq<SpecTarget>) -> nat
    decreases ts,
{
    if ts.len() == 0 {
        0
    } else {
        spec_file_count(ts.drop_last()) + if ts.last().target_type == TargetType::File {
            1nat
        } else {
            0nat
        }
    }
}

/// Number of top-level targets in a plan.
pub open spec fn spec_top_count(ts: Seq<SpecTarget>) -> nat
    decreases ts,
{
    if ts.len() == 0 {
        0
    } else {
        spec_top_count(ts.drop_last()) + if ts.last().top_level {
            1nat
        } else {
            0nat
        }
    }
}

proof fn lemma_dir_count_add(a: Seq<SpecTarget>, b: Seq<SpecTarget>)
    ensures
        spec_dir_count(a + b) == spec_dir_count(a) + spec_dir_count(b),
    decreases b,
{
    if b.len() == 0 {
        assert(a + b =~= a);
    } else {
        assert((a + b).drop_last() =~= a + b.drop_last());
        lemma_dir_count_add(a, b.drop_last());
    }
}

proof fn lemma_file_count_add(a: Seq<SpecTarget>, b: Seq<SpecTarget>)
    ensures
        spec_file_count(a + b) == spec_file_count(a) + spec_file_count(b),
    decreases b,
{
    if b.len() == 0 {
        assert(a + b =~= a);
    } else {
        assert((a + b).drop_last() =~= a + b.drop_last());
        lemma_file_count_add(a, b.drop_last());
    }
}

proof fn lemma_top_count_add(a: Seq<SpecTarget>, b: Seq<SpecTarget>)
    ensures
        spec_top_count(a + b) == spec_top_count(a) + spec_top_count(b),
    decreases b,
{
    if b.len() == 0 {
        assert(a + b =~= a);
    } else {
        assert((a + b).drop_last() =~= a + b.drop_last());
        lemma_top_count_add(a, b.drop_last());
    }
}

proof fn lemma_counts_singleton(t: SpecTarget)
    ensures
        spec_dir_count(seq![t]) == if t.target_type == TargetType::Directory { 1nat } else { 0nat },
        spec_file_count(seq![t]) == if t.target_type == TargetType::File { 1nat } else { 0nat },
        spec_top_count(seq![t]) == if t.top_level { 1nat } else { 0nat },
{
    assert(seq![t].drop_last() =~= Seq::<SpecTarget>::empty());
    assert(spec_dir_count(Seq::<SpecTarget>::empty()) == 0);
    assert(spec_file_count(Seq::<SpecTarget>::empty()) == 0);
    assert(spec_top_count(Seq::<SpecTarget>::empty()) == 0);
    assert(seq![t].last() == t);
}

/// Number of non-skipped folders in a node's subtree. A skipped folder hides
/// its whole subtree, so nothing below it is counted.
pub open spec fn spec_count_folders(node: FileNode, skip: Seq<String>) -> nat
    decreases node,
{
    match node.kind {
        FileKind::Folder => if spec_skipped(skip, node.name@) {
            0
        } else {
            spec_count_folders_seq(node.children@, skip) + 1
        },
        FileKind::Video => 0,
        FileKind::Other => 0,
    }
}

/// Number of non-skipped folders across a forest.
pub open spec fn spec_count_folders_seq(nodes: Seq<FileNode>, skip: Seq<String>) -> nat
    decreases nodes,
{
    if nodes.len() == 0 {
        0
    } else {
        spec_count_folders_seq(nodes.drop_last(), skip) + spec_count_folders(nodes.last(), skip)
    }
}

/// Number of video nodes in a node's subtree that are not hidden below a
/// skipped folder.
pub open spec fn spec_count_videos(node: FileNode, skip: Seq<String>) -> nat
    decreases node,
{
    match node.kind {
        FileKind::Folder => if spec_skipped(skip, node.name@) {
            0
        } else {
            spec_count_videos_seq(node.children@, skip)
        },
        FileKind::Video => 1,
        FileKind::Other => 0,
    }
}

/// Number of reachable video nodes across a forest.
pub open spec fn spec_count_videos_seq(nodes: Seq<FileNode>, skip: Seq<String>) -> nat
    decreases nodes,
{
    if nodes.len() == 0 {
        0
    } else {
        spec_count_videos_seq(nodes.drop_last(), skip) + spec_count_videos(nodes.last(), skip)
    }
}

/// Law: for any remote tree, the planner yields exactly one `Directory`
/// target per non-skipped folder and exactly one `File` target per video
/// node, and no target for any other node or for anything below a skipped
/// folder: every planned target is one of those two counts.
pub proof fn lemma_planner_counts(
    node: FileNode,
    skip: Seq<String>,
    base: Option<Seq<char>>,
    hash: Seq<char>,
    top: bool,
)
    ensures
        spec_dir_count(spec_plan(node, skip, base, hash, top)) == spec_count_folders(node, skip),
        spec_file_count(spec_plan(node, skip, base, hash, top)) == spec_count_videos(node, skip),
        spec_plan(node, skip, base, hash, top).len() == spec_count_folders(node, skip)
            + spec_count_videos(node, skip),
    decreases node,
{
    let plan = spec_plan(node, skip, base, hash, top);
    let dest = spec_dest(base, node.name@);
    match node.kind {
        FileKind::Folder => {
            if !spec_skipped(skip, node.name@) {
                let dir = SpecTarget {
                    from: Option::None,
                    to: dest,
                    target_type: TargetType::Directory,
                    top_level: top,
                    transfer_hash: hash,
                };
                let rest = spec_plan_seq(node.children@, skip, dest, hash);
                lemma_planner_seq_counts(node.children@, skip, dest, hash);
                lemma_dir_count_add(seq![dir], rest);
                lemma_file_count_add(seq![dir], rest);
                lemma_counts_singleton(dir);
            }
        },
        FileKind::Video => {
            lemma_counts_singleton(plan.last());
            assert(plan =~= seq![plan.last()]);
        },
        FileKind::Other => {},
    }
}

/// The forest version of [`lemma_planner_counts`].
pub proof fn lemma_planner_seq_counts(
    nodes: Seq<FileNode>,
    skip: Seq<String>,
    base: Seq<char>,
    hash: Seq<char>,
)
    ensures
        spec_dir_count(spec_plan_seq(nodes, skip, base, hash)) == spec_count_folders_seq(
            nodes,
            skip,
        ),
        spec_file_count(spec_plan_seq(nodes, skip, base, hash)) == spec_count_videos_seq(
            nodes,
            skip,
        ),
        spec_plan_seq(nodes, skip, base, hash).len() == spec_count_folders_seq(nodes, skip)
            + spec_count_videos_seq(nodes, skip),
    decreases nodes,
{
    if nodes.len() == 0 {
    } else {
        let front = spec_plan_seq(nodes.drop_last(), skip, base, hash);
        let last = spec_plan(nodes.last(), skip, Option::Some(base), hash, false);
        lemma_planner_seq_counts(nodes.drop_last(), skip, base, hash);
        lemma_planner_counts(nodes.last(), skip, Option::Some(base), hash, false);
        lemma_dir_count_add(front, last);
        lemma_file_count_add(front, last);
    }
}

proof fn lemma_plan_no_top(node: FileNode, skip: Seq<String>, base: Option<Seq<char>>, hash: Seq<char>)
    ensures
        spec_top_count(spec_plan(node, skip, base, hash, false)) == 0,
    decreases node,
{
    let plan = spec_plan(node, skip, base, hash, false);
    let dest = spec_dest(base, node.name@);
    match node.kind {
        FileKind::Folder => {
            if !spec_skipped(skip, node.name@) {
                let dir = SpecTarget {
                    from: Option::None,
                    to: dest,
                    target_type: TargetType::Directory,
                    top_level: false,
                    transfer_hash: hash,
                };
                let rest = spec_plan_seq(node.children@, skip, dest, hash);
                lemma_plan_seq_no_top(node.children@, skip, dest, hash);
                lemma_top_count_add(seq![dir], rest);
                lemma_counts_singleton(dir);
            }
        },
        FileKind::Video => {
            lemma_counts_singleton(plan.last());
            assert(plan =~= seq![plan.last()]);
        },
        FileKind::Other => {},
    }
}

proof fn lemma_plan_seq_no_top(nodes: Seq<FileNode>, skip: Seq<String>, base: Seq<char>, hash: Seq<char>)
    ensures
        spec_top_count(spec_plan_seq(nodes, skip, base, hash)) == 0,
    decreases nodes,
{
    if nodes.len() == 0 {
    } else {
        lemma_plan_seq_no_top(nodes.drop_last(), skip, base, hash);
        lemma_plan_no_top(nodes.last(), skip, Option::Some(base), hash);
        lemma_top_count_add(
            spec_plan_seq(nodes.drop_last(), skip, base, hash),
            spec_plan(nodes.last(), skip, Option::Some(base), hash, false),
        );
    }
}

/// Law: a non-empty root plan holds exactly one top-level target, namely its
/// first element, which is the root's own target; and the plan is empty
/// exactly when the root itself is not plannable (a skipped folder or a
/// non-folder, non-video node).
pub proof fn lemma_planner_top_level(
    node: FileNode,
    skip: Seq<String>,
    base: Option<Seq<char>>,
    hash: Seq<char>,
)
    ensures
        ({
            let plan = spec_plan(node, skip, base, hash, true);
            &&& plan.len() > 0 ==> {
                &&& spec_top_count(plan) == 1
                &&& plan[0].top_level
                &&& plan[0].to == spec_dest(base, node.name@)
                &&& (node.kind is Folder ==> plan[0].target_type == TargetType::Directory)
                &&& (node.kind is Video ==> plan[0].target_type == TargetType::File)
                &&& forall|i: int| 1 <= i < plan.len() ==> !(#[trigger] plan[i]).top_level
            }
            &&& plan.len() == 0 <==> (node.kind is Other || (node.kind is Folder && spec_skipped(
                skip,
                node.name@,
            )))
        }),
    decreases node,
{
    let plan = spec_plan(node, skip, base, hash, true);
    let dest = spec_dest(base, node.name@);
    match node.kind {
        FileKind::Folder => {
            if !spec_skipped(skip, node.name@) {
                let dir = SpecTarget {
                    from: Option::None,
                    to: dest,
                    target_type: TargetType::Directory,
                    top_level: true,
                    transfer_hash: hash,
                };
                let rest = spec_plan_seq(node.children@, skip, dest, hash);
                lemma_plan_seq_no_top(node.children@, skip, dest, hash);
                lemma_top_count_add(seq![dir], rest);
                lemma_counts_singleton(dir);
                assert(plan == seq![dir] + rest);
                assert(spec_top_count(plan) == 1);
                assert forall|i: int| 1 <= i < plan.len() implies !(#[trigger] plan[i]).top_level by {
                    assert(plan[i] == rest[i - 1]);
                    lemma_top_count_member_zero(rest, i - 1);
                }
            }
        },
        FileKind::Video => {
            lemma_counts_singleton(plan.last());
            assert(plan =~= seq![plan.last()]);
        },
        FileKind::Other => {},
    }
}

/// In a plan whose top-level count is zero, no member is top-level.
proof fn lemma_top_count_member_zero(ts: Seq<SpecTarget>, i: int)
    requires
        spec_top_count(ts) == 0,
        0 <= i < ts.len(),
    ensures
        !ts[i].top_level,
    decreases ts,
{
    if i == ts.len() - 1 {
        assert(ts.last() == ts[i]);
    } else {
        assert(ts.drop_last()[i] == ts[i]);
        lemma_top_count_member_zero(ts.drop_last(), i);
    }
}

/// Hash label used for log correlation: the transfer's hash, or a fixed
/// placeholder when it has none.
pub open spec fn spec_hash_label(hash: Option<Seq<char>>) -> Seq<char> {
    match hash {
        Option::Some(h) => h,
        Option::None => "0000"@,
    }
}

/// The transfer value under which a remote transfer enters the pipeline: its
/// name, ids and hash carried over, no targets planned yet.
pub open spec fn spec_fresh_transfer(t: PutIOTransfer) -> SpecTransfer {
    SpecTransfer {
        name: t.name@,
        file_id: t.file_id,
        hash: match t.hash {
            Option::Some(h) => Option::Some(h@),
            Option::None => Option::None,
        },
        transfer_id: t.id,
        targets: Option::None,
    }
}

impl Transfer {
    /// A fresh transfer observed from the remote service: no targets planned
    /// yet.
    pub fn from(transfer: &PutIOTransfer) -> (r: Self)
        ensures
            r@ == spec_fresh_transfer(*transfer),
    {
        Self {
            name: transfer.name.clone(),
            file_id: transfer.file_id,
            hash: match &transfer.hash {
                Option::Some(h) => Option::Some(h.clone()),
                Option::None => Option::None,
            },
            transfer_id: transfer.id,
            targets: Option::None,
        }
    }

    /// The transfer's hash label for log correlation.
    pub fn hash_label(&self) -> (r: String)
        ensures
            r@ == spec_hash_label(self@.hash),
    {
        match &self.hash {
            Option::Some(h) => h.clone(),
            Option::None => "0000".to_owned(),
        }
    }

    /// Plans this transfer's download targets over a snapshot of its remote
    /// file tree. The transfer must be downloadable (root file id present).
    pub fn get_download_targets(&self, tree: &FileNode, skip: &Vec<String>) -> (r: Vec<
        DownloadTarget,
    >)
        requires
            self.file_id is Some,
        ensures
            r.deep_view() == spec_plan(*tree, skip@, Option::None, spec_hash_label(self@.hash), true),
    {
        let hash = self.hash_label();
        plan_targets(tree, skip, Option::None, &hash, true)
    }

    /// The transfer's top-level target, if its planned targets hold one.
    pub fn find_top_level(&self) -> (r: Option<DownloadTarget>)
        ensures
            match spec_top_target(self@) {
                Option::Some(top) => r matches Option::Some(t) && t@ == top,
                Option::None => r is None,
            },
    {
        match &self.targets {
            Option::None => Option::None,
            Option::Some(targets) => {
                let ghost full = targets.deep_view();
                proof {
                    assert(spec_top_target(self@) == spec_find_top(full));
                    assert(full.skip(0) =~= full);
                }
                let mut i: usize = 0;
                while i < targets.len()
                    invariant
                        0 <= i <= targets@.len(),
                        full == targets.deep_view(),
                        spec_top_target(self@) == spec_find_top(full),
                        spec_find_top(full) == spec_find_top(full.skip(i as int)),
                    decreases targets@.len() - i,
                {
                    proof {
                        assert(full.skip(i as int)[0] == full[i as int]);
                        assert(full.skip(i as int).drop_first() =~= full.skip(i + 1));
                    }
                    if targets[i].top_level {
                        proof {
                            assert(spec_find_top(full) == Option::Some(full[i as int]));
                        }
                        return Option::Some(targets[i].clone());
                    }
                    i = i + 1;
                }
                proof {
                    assert(full.skip(full.len() as int) =~= Seq::<SpecTarget>::empty());
                }
                Option::None
            },
        }
    }

    /// The transfer's single top-level target. The targets must be planned
    /// and hold one.
    pub fn get_top_level(&self) -> (r: DownloadTarget)
        requires
            spec_top_target(self@) is Some,
        ensures
            r@ == spec_top_target(self@).unwrap(),
    {
        self.find_top_level().unwrap()
    }
}

/// The event through which a remote transfer enters the pipeline; also the
/// operation the HTTP facade uses to inject a transfer it was handed.
pub fn enqueue_request(remote: &PutIOTransfer) -> (r: TransferMessage)
    ensures
        r matches TransferMessage::QueuedForDownload(t) && t@ == spec_fresh_transfer(*remote),
{
    TransferMessage::QueuedForDownload(Transfer::from(remote))
}

/// The first top-level target of a plan, if any.
pub open spec fn spec_find_top(ts: Seq<SpecTarget>) -> Option<SpecTarget>
    decreases ts.len(),
{
    if ts.len() == 0 {
        Option::None
    } else if ts[0].top_level {
        Option::Some(ts[0])
    } else {
        spec_find_top(ts.drop_first())
    }
}

/// The transfer's top-level target, if its targets are planned and hold one.
pub open spec fn spec_top_target(t: SpecTransfer) -> Option<SpecTarget> {
    match t.targets {
        Option::Some(ts) => spec_find_top(ts),
        Option::None => Option::None,
    }
}

} // verus!
