//! A model of the filesystem a plan acts on: a map from paths to nodes.  A
//! file write creates or replaces the node at its path; a directory action
//! creates the directory and, as `create_dir_all` does, every ancestor on
//! its parent chain.  The laws proved here say what a successful extraction
//! leaves on disk: every entry stands under its joined path with its own
//! bytes, every directory an entry needs exists, and running the same plan
//! a second time changes nothing, because every write places a fixed node
//! at a fixed path.

use vstd::prelude::*;

use crate::ops::ActionModel;
use crate::ops::entry_plan;
use crate::ops::plan_spec;
use crate::paths::join_spec;
use crate::paths::lemma_parent_shorter;
use crate::paths::parent_spec;

verus! {

/// One node of the filesystem model.
pub enum FsNode {
    Dir,
    File { data: Seq<u8> },
}

/// Whether `q` is `path` itself or an ancestor on its parent chain — the
/// directories that creating `path` with all its parents brings into being.
pub open spec fn in_dir_chain(q: Seq<char>, path: Seq<char>) -> bool
    decreases path.len(),
    via in_dir_chain_decreases
{
    path.len() > 0 && (q == path || in_dir_chain(q, parent_spec(path)))
}

#[via_fn]
proof fn in_dir_chain_decreases(q: Seq<char>, path: Seq<char>) {
    if path.len() > 0 {
        lemma_parent_shorter(path);
    }
}

/// Creating a directory with all its parents: the path and every ancestor
/// on its chain become directories; nothing else changes.
pub open spec fn make_dirs(fs: Map<Seq<char>, FsNode>, path: Seq<char>) -> Map<Seq<char>, FsNode>
    decreases path.len(),
    via make_dirs_decreases
{
    if path.len() == 0 {
        fs
    } else {
        make_dirs(fs, parent_spec(path)).insert(path, FsNode::Dir)
    }
}

#[via_fn]
proof fn make_dirs_decreases(fs: Map<Seq<char>, FsNode>, path: Seq<char>) {
    if path.len() > 0 {
        lemma_parent_shorter(path);
    }
}

/// Applying one action to the filesystem.
pub open spec fn apply_action(fs: Map<Seq<char>, FsNode>, a: ActionModel) -> Map<
    Seq<char>,
    FsNode,
> {
    match a {
        ActionModel::MakeDir { path } => make_dirs(fs, path),
        ActionModel::MakeParentDir { path } => make_dirs(fs, path),
        ActionModel::WriteFile { path, data } => fs.insert(path, FsNode::File { data }),
    }
}

/// Applying a plan, in order.
pub open spec fn apply_plan(fs: Map<Seq<char>, FsNode>, p: Seq<ActionModel>) -> Map<
    Seq<char>,
    FsNode,
>
    decreases p.len(),
{
    if p.len() == 0 {
        fs
    } else {
        apply_action(apply_plan(fs, p.drop_last()), p.last())
    }
}

/// What a directory creation writes: chain members become directories,
/// everything else keeps its node.
proof fn lemma_make_dirs_effect(fs: Map<Seq<char>, FsNode>, path: Seq<char>, q: Seq<char>)
    ensures
        in_dir_chain(q, path) ==> make_dirs(fs, path).contains_key(q) && make_dirs(fs, path)[q]
            == FsNode::Dir,
        !in_dir_chain(q, path) ==> make_dirs(fs, path).contains_key(q) == fs.contains_key(q)
            && (fs.contains_key(q) ==> make_dirs(fs, path)[q] == fs[q]),
    decreases path.len(),
{
    if path.len() == 0 {
    } else {
        lemma_parent_shorter(path);
        lemma_make_dirs_effect(fs, parent_spec(path), q);
    }
}

/// Creating directories only overrides the filesystem with what it writes
/// itself.
proof fn lemma_make_dirs_union(fs: Map<Seq<char>, FsNode>, path: Seq<char>)
    ensures
        make_dirs(fs, path) == fs.union_prefer_right(
            make_dirs(Map::<Seq<char>, FsNode>::empty(), path),
        ),
    decreases path.len(),
{
    if path.len() == 0 {
        assert(make_dirs(fs, path) =~= fs.union_prefer_right(
            make_dirs(Map::<Seq<char>, FsNode>::empty(), path),
        ));
    } else {
        lemma_parent_shorter(path);
        lemma_make_dirs_union(fs, parent_spec(path));
        assert(make_dirs(fs, path) =~= fs.union_prefer_right(
            make_dirs(Map::<Seq<char>, FsNode>::empty(), path),
        ));
    }
}

/// One action applied over a union acts on the right part.
proof fn lemma_action_union(
    g: Map<Seq<char>, FsNode>,
    h: Map<Seq<char>, FsNode>,
    a: ActionModel,
)
    ensures
        apply_action(g.union_prefer_right(h), a) == g.union_prefer_right(apply_action(h, a)),
{
    match a {
        ActionModel::MakeDir { path } => {
            lemma_make_dirs_union(g.union_prefer_right(h), path);
            lemma_make_dirs_union(h, path);
            assert(apply_action(g.union_prefer_right(h), a) =~= g.union_prefer_right(
                apply_action(h, a),
            ));
        },
        ActionModel::MakeParentDir { path } => {
            lemma_make_dirs_union(g.union_prefer_right(h), path);
            lemma_make_dirs_union(h, path);
            assert(apply_action(g.union_prefer_right(h), a) =~= g.union_prefer_right(
                apply_action(h, a),
            ));
        },
        ActionModel::WriteFile { path, data } => {
            assert(apply_action(g.union_prefer_right(h), a) =~= g.union_prefer_right(
                apply_action(h, a),
            ));
        },
    }
}

/// Applying a plan only overrides the filesystem with what the plan itself
/// writes.
proof fn lemma_apply_plan_union(fs: Map<Seq<char>, FsNode>, p: Seq<ActionModel>)
    ensures
        apply_plan(fs, p) == fs.union_prefer_right(
            apply_plan(Map::<Seq<char>, FsNode>::empty(), p),
        ),
    decreases p.len(),
{
    if p.len() == 0 {
        assert(apply_plan(fs, p) =~= fs.union_prefer_right(
            apply_plan(Map::<Seq<char>, FsNode>::empty(), p),
        ));
    } else {
        lemma_apply_plan_union(fs, p.drop_last());
        lemma_action_union(
            fs,
            apply_plan(Map::<Seq<char>, FsNode>::empty(), p.drop_last()),
            p.last(),
        );
    }
}

/// Running a plan twice leaves the filesystem exactly as running it once:
/// every action writes fixed nodes at fixed paths, so the second run
/// replaces each of them with identical content.
pub proof fn lemma_plan_idempotent(fs: Map<Seq<char>, FsNode>, p: Seq<ActionModel>)
    ensures
        apply_plan(apply_plan(fs, p), p) == apply_plan(fs, p),
{
    lemma_apply_plan_union(fs, p);
    lemma_apply_plan_union(apply_plan(fs, p), p);
    assert(apply_plan(apply_plan(fs, p), p) =~= apply_plan(fs, p));
}

/// Plans apply piecewise.
proof fn lemma_apply_plan_concat(
    fs: Map<Seq<char>, FsNode>,
    p: Seq<ActionModel>,
    q: Seq<ActionModel>,
)
    ensures
        apply_plan(fs, p + q) == apply_plan(apply_plan(fs, p), q),
    decreases q.len(),
{
    if q.len() == 0 {
        assert(p + q =~= p);
    } else {
        lemma_apply_plan_concat(fs, p, q.drop_last());
        assert((p + q).drop_last() =~= p + q.drop_last());
        assert((p + q).last() == q.last());
    }
}

/// The plan of concatenated entries is the concatenation of their plans.
proof fn lemma_plan_spec_concat(
    dest: Seq<char>,
    s1: Seq<(Seq<char>, bool, Seq<u8>)>,
    s2: Seq<(Seq<char>, bool, Seq<u8>)>,
)
    ensures
        plan_spec(dest, s1 + s2) == plan_spec(dest, s1) + plan_spec(dest, s2),
    decreases s2.len(),
{
    if s2.len() == 0 {
        assert(s1 + s2 =~= s1);
        assert(plan_spec(dest, s1) + plan_spec(dest, s2) =~= plan_spec(dest, s1));
    } else {
        lemma_plan_spec_concat(dest, s1, s2.drop_last());
        assert((s1 + s2).drop_last() =~= s1 + s2.drop_last());
        assert((s1 + s2).last() == s2.last());
        assert(plan_spec(dest, s1 + s2) =~= plan_spec(dest, s1) + plan_spec(dest, s2));
    }
}

/// Applying a one-action plan.
proof fn lemma_apply_one(fs: Map<Seq<char>, FsNode>, a: ActionModel)
    ensures
        apply_plan(fs, seq![a]) == apply_action(fs, a),
{
    assert(seq![a].drop_last() =~= Seq::<ActionModel>::empty());
    assert(apply_plan(fs, seq![a].drop_last()) == fs);
}

/// Applying a two-action plan.
proof fn lemma_apply_two(fs: Map<Seq<char>, FsNode>, a: ActionModel, b: ActionModel)
    ensures
        apply_plan(fs, seq![a, b]) == apply_action(apply_action(fs, a), b),
{
    let s = seq![a, b];
    assert(s.drop_last() =~= seq![a]);
    assert(s.last() == b);
    lemma_apply_one(fs, a);
}

/// The node an entry leaves under its joined path.
pub open spec fn entry_node(e: (Seq<char>, bool, Seq<u8>)) -> FsNode {
    if e.1 {
        FsNode::Dir
    } else {
        FsNode::File { data: e.2 }
    }
}

/// The directory an entry's extraction creates with all its parents: the
/// entry's own path for a directory entry, the parent of its path for a
/// file entry.
pub open spec fn dir_base(dest: Seq<char>, e: (Seq<char>, bool, Seq<u8>)) -> Seq<char> {
    if e.1 {
        join_spec(dest, e.0)
    } else {
        parent_spec(join_spec(dest, e.0))
    }
}

/// A joined path is never empty.
proof fn lemma_join_nonempty(dest: Seq<char>, name: Seq<char>)
    ensures
        join_spec(dest, name).len() > 0,
{
}

/// A file entry's parent directory is created before the file itself is
/// written.
pub proof fn lemma_parent_created_first(dest: Seq<char>, e: (Seq<char>, bool, Seq<u8>))
    requires
        !e.1,
    ensures
        entry_plan(dest, e).len() == 2,
        entry_plan(dest, e)[0] == (ActionModel::MakeParentDir {
            path: parent_spec(join_spec(dest, e.0)),
        }),
        entry_plan(dest, e)[1] == (ActionModel::WriteFile {
            path: join_spec(dest, e.0),
            data: e.2,
        }),
{
}

/// Applying one entry's actions places the entry's node under its path.
proof fn lemma_entry_plan_sets_key(
    fs: Map<Seq<char>, FsNode>,
    dest: Seq<char>,
    e: (Seq<char>, bool, Seq<u8>),
)
    ensures
        apply_plan(fs, entry_plan(dest, e)).contains_key(join_spec(dest, e.0)),
        apply_plan(fs, entry_plan(dest, e))[join_spec(dest, e.0)] == entry_node(e),
{
    let j = join_spec(dest, e.0);
    lemma_join_nonempty(dest, e.0);
    if e.1 {
        lemma_apply_one(fs, ActionModel::MakeDir { path: j });
        assert(make_dirs(fs, j) == make_dirs(fs, parent_spec(j)).insert(j, FsNode::Dir));
    } else {
        lemma_apply_two(
            fs,
            ActionModel::MakeParentDir { path: parent_spec(j) },
            ActionModel::WriteFile { path: j, data: e.2 },
        );
    }
}

/// Later entries do not disturb a settled path: no file is written there,
/// no directory creation reaches a file there, and a directory write at a
/// directory's path leaves it a directory.
proof fn lemma_apply_preserves_key(
    fs: Map<Seq<char>, FsNode>,
    dest: Seq<char>,
    rest: Seq<(Seq<char>, bool, Seq<u8>)>,
    key: Seq<char>,
    node: FsNode,
)
    requires
        fs.contains_key(key),
        fs[key] == node,
        forall|j: int|
            0 <= j < rest.len() ==> (!(#[trigger] rest[j]).1 ==> join_spec(dest, rest[j].0)
                != key),
        node is File ==> forall|j: int|
            0 <= j < rest.len() ==> !in_dir_chain(key, dir_base(dest, #[trigger] rest[j])),
    ensures
        apply_plan(fs, plan_spec(dest, rest)).contains_key(key),
        apply_plan(fs, plan_spec(dest, rest))[key] == node,
    decreases rest.len(),
{
    if rest.len() == 0 {
    } else {
        let q = rest.drop_last();
        let e = rest.last();
        assert(forall|j: int| 0 <= j < q.len() ==> q[j] == rest[j]);
        lemma_apply_preserves_key(fs, dest, q, key, node);
        lemma_plan_spec_concat(dest, q, seq![e]);
        assert(q + seq![e] =~= rest);
        lemma_apply_plan_concat(fs, plan_spec(dest, q), plan_spec(dest, seq![e]));
        let h = apply_plan(fs, plan_spec(dest, q));
        assert(plan_spec(dest, seq![e]) =~= entry_plan(dest, e)) by {
            let single = seq![e];
            assert(single.drop_last() =~= Seq::<(Seq<char>, bool, Seq<u8>)>::empty());
            assert(plan_spec(dest, single.drop_last()) =~= Seq::<ActionModel>::empty());
            assert(single.last() == e);
            assert(Seq::<ActionModel>::empty() + entry_plan(dest, e) =~= entry_plan(dest, e));
        }
        assert(rest[rest.len() - 1] == e);
        if e.1 {
            lemma_apply_one(h, ActionModel::MakeDir { path: join_spec(dest, e.0) });
            lemma_make_dirs_effect(h, join_spec(dest, e.0), key);
        } else {
            lemma_apply_two(
                h,
                ActionModel::MakeParentDir { path: parent_spec(join_spec(dest, e.0)) },
                ActionModel::WriteFile { path: join_spec(dest, e.0), data: e.2 },
            );
            lemma_make_dirs_effect(h, parent_spec(join_spec(dest, e.0)), key);
        }
    }
}

/// After an extraction plan is applied, every entry of the archive stands
/// in the filesystem under its joined path: a directory entry as a
/// directory, a file entry as a file holding exactly the entry's
/// decompressed bytes.  This asks that the entries' joined paths do not
/// repeat and that no file entry's path is among the directories another
/// entry creates — an archive breaking either would overwrite its own
/// output on disk too.
pub proof fn lemma_plan_writes_every_entry(
    fs: Map<Seq<char>, FsNode>,
    dest: Seq<char>,
    entries: Seq<(Seq<char>, bool, Seq<u8>)>,
    i: int,
)
    requires
        0 <= i < entries.len(),
        forall|j: int, k: int|
            0 <= j < k < entries.len() ==> join_spec(dest, (#[trigger] entries[j]).0)
                != join_spec(dest, (#[trigger] entries[k]).0),
        !entries[i].1 ==> forall|j: int|
            0 <= j < entries.len() ==> !in_dir_chain(
                join_spec(dest, entries[i].0),
                dir_base(dest, #[trigger] entries[j]),
            ),
    ensures
        apply_plan(fs, plan_spec(dest, entries)).contains_key(join_spec(dest, entries[i].0)),
        apply_plan(fs, plan_spec(dest, entries))[join_spec(dest, entries[i].0)] == entry_node(
            entries[i],
        ),
{
    let key = join_spec(dest, entries[i].0);
    let head = entries.take(i + 1);
    let tail = entries.skip(i + 1);
    assert(head + tail =~= entries);
    lemma_plan_spec_concat(dest, head, tail);
    lemma_apply_plan_concat(fs, plan_spec(dest, head), plan_spec(dest, tail));

    let front = entries.take(i);
    assert(front + seq![entries[i]] =~= head);
    lemma_plan_spec_concat(dest, front, seq![entries[i]]);
    assert(plan_spec(dest, seq![entries[i]]) =~= entry_plan(dest, entries[i])) by {
        let single = seq![entries[i]];
        assert(single.len() == 1);
        assert(single.drop_last() =~= Seq::<(Seq<char>, bool, Seq<u8>)>::empty());
        assert(plan_spec(dest, single.drop_last()) =~= Seq::<ActionModel>::empty());
        assert(single.last() == entries[i]);
        assert(plan_spec(dest, single) == plan_spec(dest, single.drop_last()) + entry_plan(
            dest,
            single.last(),
        ));
        assert(Seq::<ActionModel>::empty() + entry_plan(dest, entries[i]) =~= entry_plan(
            dest,
            entries[i],
        ));
    }
    lemma_apply_plan_concat(fs, plan_spec(dest, front), entry_plan(dest, entries[i]));
    let g = apply_plan(fs, plan_spec(dest, front));
    lemma_entry_plan_sets_key(g, dest, entries[i]);
    let settled = apply_plan(fs, plan_spec(dest, head));
    assert(settled.contains_key(key) && settled[key] == entry_node(entries[i])) by {
        assert(plan_spec(dest, head) =~= plan_spec(dest, front) + entry_plan(dest, entries[i]));
    }

    assert forall|j: int| 0 <= j < tail.len() && !(#[trigger] tail[j]).1 implies join_spec(
        dest,
        tail[j].0,
    ) != key by {
        assert(tail[j] == entries[i + 1 + j]);
    }
    if !entries[i].1 {
        assert forall|j: int| 0 <= j < tail.len() implies !in_dir_chain(
            key,
            dir_base(dest, #[trigger] tail[j]),
        ) by {
            assert(tail[j] == entries[i + 1 + j]);
        }
    }
    lemma_apply_preserves_key(settled, dest, tail, key, entry_node(entries[i]));
}

/// Every directory an entry's extraction creates — the entry's own
/// directory, or for a file entry the whole ancestor chain of its parent —
/// exists as a directory in the final tree, provided no file entry is
/// written at that very path.
pub proof fn lemma_plan_creates_ancestors(
    fs: Map<Seq<char>, FsNode>,
    dest: Seq<char>,
    entries: Seq<(Seq<char>, bool, Seq<u8>)>,
    i: int,
    q: Seq<char>,
)
    requires
        0 <= i < entries.len(),
        in_dir_chain(q, dir_base(dest, entries[i])),
        forall|j: int|
            0 <= j < entries.len() ==> (!(#[trigger] entries[j]).1 ==> join_spec(
                dest,
                entries[j].0,
            ) != q),
    ensures
        apply_plan(fs, plan_spec(dest, entries)).contains_key(q),
        apply_plan(fs, plan_spec(dest, entries))[q] == FsNode::Dir,
{
    let head = entries.take(i + 1);
    let tail = entries.skip(i + 1);
    assert(head + tail =~= entries);
    lemma_plan_spec_concat(dest, head, tail);
    lemma_apply_plan_concat(fs, plan_spec(dest, head), plan_spec(dest, tail));

    let front = entries.take(i);
    assert(front + seq![entries[i]] =~= head);
    lemma_plan_spec_concat(dest, front, seq![entries[i]]);
    assert(plan_spec(dest, seq![entries[i]]) =~= entry_plan(dest, entries[i])) by {
        let single = seq![entries[i]];
        assert(single.drop_last() =~= Seq::<(Seq<char>, bool, Seq<u8>)>::empty());
        assert(plan_spec(dest, single.drop_last()) =~= Seq::<ActionModel>::empty());
        assert(single.last() == entries[i]);
        assert(Seq::<ActionModel>::empty() + entry_plan(dest, entries[i]) =~= entry_plan(
            dest,
            entries[i],
        ));
    }
    lemma_apply_plan_concat(fs, plan_spec(dest, front), entry_plan(dest, entries[i]));
    let g = apply_plan(fs, plan_spec(dest, front));
    let e = entries[i];
    if e.1 {
        lemma_apply_one(g, ActionModel::MakeDir { path: join_spec(dest, e.0) });
        lemma_make_dirs_effect(g, join_spec(dest, e.0), q);
    } else {
        lemma_apply_two(
            g,
            ActionModel::MakeParentDir { path: parent_spec(join_spec(dest, e.0)) },
            ActionModel::WriteFile { path: join_spec(dest, e.0), data: e.2 },
        );
        lemma_make_dirs_effect(g, parent_spec(join_spec(dest, e.0)), q);
    }
    let settled = apply_plan(fs, plan_spec(dest, head));
    assert(settled.contains_key(q) && settled[q] == FsNode::Dir) by {
        assert(plan_spec(dest, head) =~= plan_spec(dest, front) + entry_plan(dest, entries[i]));
    }

    assert forall|j: int| 0 <= j < tail.len() && !(#[trigger] tail[j]).1 implies join_spec(
        dest,
        tail[j].0,
    ) != q by {
        assert(tail[j] == entries[i + 1 + j]);
    }
    lemma_apply_preserves_key(settled, dest, tail, q, FsNode::Dir);
}

} // verus!
