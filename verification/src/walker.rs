use vstd::prelude::*;
use vstd::string::*;

use crate::errors::{is_walk_error, Error};
use crate::fsops;
use crate::handler::Handler;
use crate::paths::{
    join_path, lemma_paths_below_child, lemma_paths_below_sides, path_below, paths_below,
};
use crate::seqs::{lemma_prefix_index, lemma_prefix_push, lemma_prefix_refl, lemma_prefix_trans};

verus! {

/// An equality-comparable token identifying one filesystem object within a
/// filesystem: its device number paired with its inode number. Two entries
/// with equal identity are the same underlying object.
#[derive(Clone, Copy, PartialEq, Eq, Structural, Debug)]
pub struct Identity {
    pub dev: u64,
    pub ino: u64,
}

/// Whether a directory with identity `id` is the copy's destination root,
/// whose identity is `root` (`None` until the top directory of the copy has
/// been created).
pub open spec fn hits_destination_root(root: Option<Identity>, id: Identity) -> bool {
    root matches Some(rid) && id == rid
}

/// Whether visiting a directory with identity `id`, while the identity of
/// the copy's destination root is `root`, means the walk has reached the
/// copy's own destination — descending into it would copy the copy into
/// itself without end, so such a directory is reported and skipped, never
/// entered.
///
/// Only the single destination root is compared against, never all
/// ancestors: copying a directory into a sibling of itself is not a cycle.
pub fn is_destination_root(root: Option<Identity>, id: Identity) -> (r: bool)
    ensures
        r == hits_destination_root(root, id),
{
    match root {
        Some(rid) => id == rid,
        None => false,
    }
}

/// The kind of a visited source entry, decided from the answers of the three
/// filesystem queries, asked in this order: a symbolic link is handled as a
/// link even where it points to a file or directory; only what is neither
/// link, file nor directory is unsupported.
pub enum EntryKind {
    Symlink,
    File,
    Directory,
    Unsupported,
}

/// Decide how an entry is copied from what the filesystem said of it.
pub fn classify_entry(is_symlink: bool, is_file: bool, is_dir: bool) -> (r: EntryKind)
    ensures
        is_symlink ==> r matches EntryKind::Symlink,
        !is_symlink && is_file ==> r matches EntryKind::File,
        !is_symlink && !is_file && is_dir ==> r matches EntryKind::Directory,
        !is_symlink && !is_file && !is_dir ==> r matches EntryKind::Unsupported,
{
    if is_symlink {
        EntryKind::Symlink
    } else if is_file {
        EntryKind::File
    } else if is_dir {
        EntryKind::Directory
    } else {
        EntryKind::Unsupported
    }
}

/// Refuse a directory that is the copy's own destination root, with the
/// error that names both paths; admit every other directory.
pub fn cycle_check(root: Option<Identity>, id: Identity, source: &str, dest: &str) -> (r: Result<
    (),
    Error,
>)
    ensures
        hits_destination_root(root, id) ==> (r matches Err(
            Error::SourceIsDestinationRoot { source: s, destination: d },
        ) && s@ == source@ && d@ == dest@),
        !hits_destination_root(root, id) ==> r is Ok,
{
    if is_destination_root(root, id) {
        Err(
            Error::SourceIsDestinationRoot {
                source: String::from_str(source),
                destination: String::from_str(dest),
            },
        )
    } else {
        Ok(())
    }
}

/// One pending step of the walk: visit a source entry and copy it to a
/// destination path, or apply a directory's permission bits, deferred until
/// after all its children have been copied.
enum Task {
    Visit { source: String, dest: String, root: Option<Identity> },
    ApplyMode { dest: String, mode: u32 },
}

/// A visit task for the child named `name` of the pair `(source, dest)`,
/// carrying the fixed destination-root identity `rid`.
spec fn visit_task_for(
    t: Task,
    source: Seq<char>,
    dest: Seq<char>,
    name: Seq<char>,
    rid: Identity,
) -> bool {
    t matches Task::Visit { source: s, dest: d, root: r } && s@ == source + seq!['/'] + name && d@
        == dest + seq!['/'] + name && r == Some(rid)
}

/// What visiting the pair `(source, dest)` may put on the stack: the pair's
/// own deferred mode application, or a visit of one of its children — both
/// paths extended by one and the same name, with the root identity fixed.
spec fn scheduled_under(t: Task, source: Seq<char>, dest: Seq<char>) -> bool {
    match t {
        Task::Visit { source: s, dest: d, root: r } => r is Some && (exists|n: Seq<char>|
            s@ == #[trigger] (source + seq!['/'] + n) && d@ == dest + seq!['/'] + n),
        Task::ApplyMode { dest: d, mode: _ } => d@ == dest,
    }
}

/// Every visit task of a walk rooted at `(source, dest)` stays below that
/// pair, source and destination extended by the same relative path.
spec fn task_below(t: Task, source: Seq<char>, dest: Seq<char>) -> bool {
    match t {
        Task::Visit { source: s, dest: d, root: _ } => paths_below(source, dest, s@, d@),
        Task::ApplyMode { dest: _, mode: _ } => true,
    }
}

/// What visiting the pair `(source, dest)` may report: a walk error, and
/// where it names paths, exactly the visited pair — a cycle carries the
/// pair itself, an unsupported entry carries the source path itself.
spec fn entry_report(e: Error, source: Seq<char>, dest: Seq<char>) -> bool {
    &&& is_walk_error(e)
    &&& (e matches Error::SourceIsDestinationRoot { source: s, destination: d } ==> s@ == source
        && d@ == dest)
    &&& (e matches Error::Unknown(p) ==> p@ == source)
}

/// What a walk rooted at `(source, dest)` may report: a walk error, and
/// where it names paths, they are the root pair or lie below it.
pub open spec fn walk_report(e: Error, source: Seq<char>, dest: Seq<char>) -> bool {
    &&& is_walk_error(e)
    &&& (e matches Error::SourceIsDestinationRoot { source: s, destination: d } ==> paths_below(
        source,
        dest,
        s@,
        d@,
    ))
    &&& (e matches Error::Unknown(p) ==> path_below(source, p@))
}

/// A report about a pair below the roots is a report of the rooted walk.
proof fn lemma_entry_report_below(
    e: Error,
    source: Seq<char>,
    dest: Seq<char>,
    s: Seq<char>,
    d: Seq<char>,
)
    requires
        entry_report(e, s, d),
        paths_below(source, dest, s, d),
    ensures
        walk_report(e, source, dest),
{
    if e matches Error::Unknown(p) {
        lemma_paths_below_sides(source, dest, s, d);
    }
}

/// A task scheduled under a pair below the roots stays below the roots.
proof fn lemma_scheduled_below(
    t: Task,
    source: Seq<char>,
    dest: Seq<char>,
    s: Seq<char>,
    d: Seq<char>,
)
    requires
        scheduled_under(t, s, d),
        paths_below(source, dest, s, d),
    ensures
        task_below(t, source, dest),
{
    match t {
        Task::Visit { source: ts, dest: td, root: _ } => {
            let n = choose|n: Seq<char>|
                ts@ == #[trigger] (s + seq!['/'] + n) && td@ == d + seq!['/'] + n;
            lemma_paths_below_child(source, dest, s, d, n);
        },
        Task::ApplyMode { .. } => {},
    }
}

/// The destination-root identity for the rest of a directory's branch: the
/// one already fixed, or — at the top directory of the copy, where none is
/// fixed yet — the identity of the destination directory just created.
fn fixed_root(root: Option<Identity>, dest: &str) -> (r: Result<Identity, std::io::Error>)
    ensures
        root matches Some(id) ==> r == Ok::<Identity, std::io::Error>(id),
{
    match root {
        Some(id) => Ok(id),
        None => match fsops::stat_path(dest) {
            Ok((dev, ino, _mode)) => Ok(Identity { dev, ino }),
            Err(e) => Err(e),
        },
    }
}

/// Route one error about the visited pair to the policy: earlier reports
/// stay in place and at most this one is added.
fn report(h: &mut Handler, error: Error, Ghost(src): Ghost<Seq<char>>, Ghost(dst): Ghost<Seq<char>>)
    requires
        entry_report(error, src, dst),
    ensures
        final(h).is_vector() == old(h).is_vector(),
        final(h).is_log() == old(h).is_log(),
        final(h).is_ignore() == old(h).is_ignore(),
        old(h).recorded().is_prefix_of(final(h).recorded()),
        final(h).recorded().len() <= old(h).recorded().len() + 1,
        forall|i: int|
            old(h).recorded().len() <= i < final(h).recorded().len() ==> entry_report(
                #[trigger] final(h).recorded()[i],
                src,
                dst,
            ),
{
    let ghost pre = *h;
    h.handle(error);
    proof {
        if pre.is_vector() {
            lemma_prefix_push(pre.recorded(), error);
        } else {
            lemma_prefix_refl(pre.recorded());
        }
    }
}

/// Schedule a directory's pending work: its deferred mode application
/// first, so it is taken only after everything pushed above it, then one
/// visit per child in reverse, so the children are visited in the order
/// they were listed. Everything already scheduled stays where it was.
fn schedule_children(
    stack: &mut Vec<Task>,
    source: &str,
    dest: &str,
    rid: Identity,
    mode: u32,
    children: &Vec<String>,
)
    ensures
        final(stack)@.len() == old(stack)@.len() + children@.len() + 1,
        final(stack)@.subrange(0, old(stack)@.len() as int) == old(stack)@,
        (final(stack)@[old(stack)@.len() as int] matches Task::ApplyMode { dest: d, mode: m } && d@
            == dest@ && m == mode),
        forall|j: int|
            0 <= j < children@.len() ==> #[trigger] visit_task_for(
                final(stack)@[old(stack)@.len() + 1 + j],
                source@,
                dest@,
                children@[children@.len() - 1 - j]@,
                rid,
            ),
{
    let ghost orig = stack@;
    stack.push(Task::ApplyMode { dest: String::from_str(dest), mode });
    proof {
        assert(stack@.subrange(0, orig.len() as int) =~= orig);
    }
    let mut idx = children.len();
    while idx > 0
        invariant
            idx <= children@.len(),
            stack@.len() == orig.len() + 1 + (children@.len() - idx),
            stack@.subrange(0, orig.len() as int) == orig,
            (stack@[orig.len() as int] matches Task::ApplyMode { dest: d, mode: m } && d@ == dest@
                && m == mode),
            forall|j: int|
                0 <= j < children@.len() - idx ==> #[trigger] visit_task_for(
                    stack@[orig.len() + 1 + j],
                    source@,
                    dest@,
                    children@[children@.len() - 1 - j]@,
                    rid,
                ),
        decreases idx,
    {
        idx = idx - 1;
        let name = &children[idx];
        stack.push(
            Task::Visit {
                source: join_path(source, name.as_str()),
                dest: join_path(dest, name.as_str()),
                root: Some(rid),
            },
        );
        proof {
            assert(stack@.subrange(0, orig.len() as int) =~= orig);
        }
    }
}

/// Visit one source entry: reproduce a symbolic link verbatim, copy a
/// regular file's bytes, schedule a directory's children and its deferred
/// mode, or report the entry as unsupported. A directory whose identity
/// equals the destination root's is reported and skipped, never entered.
///
/// At most one error is reported, it speaks of the visited pair, and
/// everything already scheduled or recorded stays in place: a failing entry
/// loses only its own branch.
fn visit_entry(
    source: String,
    dest: String,
    root: Option<Identity>,
    stack: &mut Vec<Task>,
    h: &mut Handler,
)
    ensures
        final(h).is_vector() == old(h).is_vector(),
        final(h).is_log() == old(h).is_log(),
        final(h).is_ignore() == old(h).is_ignore(),
        old(h).recorded().is_prefix_of(final(h).recorded()),
        final(h).recorded().len() <= old(h).recorded().len() + 1,
        forall|i: int|
            old(h).recorded().len() <= i < final(h).recorded().len() ==> entry_report(
                #[trigger] final(h).recorded()[i],
                source@,
                dest@,
            ),
        old(stack)@.is_prefix_of(final(stack)@),
        forall|i: int|
            old(stack)@.len() <= i < final(stack)@.len() ==> scheduled_under(
                #[trigger] final(stack)@[i],
                source@,
                dest@,
            ),
{
    proof {
        lemma_prefix_refl(h.recorded());
        lemma_prefix_refl(stack@);
    }
    let kind = classify_entry(
        fsops::path_is_symlink(source.as_str()),
        fsops::path_is_file(source.as_str()),
        fsops::path_is_dir(source.as_str()),
    );
    match kind {
        EntryKind::Symlink => {
            match fsops::read_link(source.as_str()) {
                Err(e) => report(h, Error::Io(e), Ghost(source@), Ghost(dest@)),
                Ok(target) => match fsops::make_symlink(target.as_str(), dest.as_str()) {
                    Ok(()) => {},
                    Err(e) => report(h, Error::Io(e), Ghost(source@), Ghost(dest@)),
                },
            }
        },
        EntryKind::File => {
            match fsops::copy_file(source.as_str(), dest.as_str()) {
                Ok(()) => {},
                Err(e) => report(h, Error::Io(e), Ghost(source@), Ghost(dest@)),
            }
        },
        EntryKind::Unsupported => {
            // Tell a vanished path apart from an entry of a kind the copy
            // does not support: only what can still be queried is the latter.
            match fsops::stat_path(source.as_str()) {
                Err(e) => report(h, Error::Io(e), Ghost(source@), Ghost(dest@)),
                Ok(_) => {
                    let ghost sv = source@;
                    report(h, Error::Unknown(source), Ghost(sv), Ghost(dest@));
                },
            }
        },
        EntryKind::Directory => {
            let (dev, ino, mode) = match fsops::stat_path(source.as_str()) {
                Ok(info) => info,
                Err(e) => {
                    report(h, Error::Io(e), Ghost(source@), Ghost(dest@));
                    return;
                },
            };
            match cycle_check(root, Identity { dev, ino }, source.as_str(), dest.as_str()) {
                Err(e) => {
                    report(h, e, Ghost(source@), Ghost(dest@));
                    return;
                },
                Ok(()) => {},
            }
            match fsops::create_dir_all(dest.as_str()) {
                Ok(()) => {},
                Err(e) => {
                    report(h, Error::Io(e), Ghost(source@), Ghost(dest@));
                    return;
                },
            }
            let rid = match fixed_root(root, dest.as_str()) {
                Ok(rid) => rid,
                Err(e) => {
                    report(h, Error::Io(e), Ghost(source@), Ghost(dest@));
                    return;
                },
            };
            let children = match fsops::list_children(source.as_str()) {
                Ok(children) => children,
                Err(e) => {
                    report(h, Error::Io(e), Ghost(source@), Ghost(dest@));
                    return;
                },
            };
            let ghost pre = stack@;
            schedule_children(stack, source.as_str(), dest.as_str(), rid, mode, &children);
            proof {
                assert forall|i: int| pre.len() <= i < stack@.len() implies scheduled_under(
                    #[trigger] stack@[i],
                    source@,
                    dest@,
                ) by {
                    if i > pre.len() {
                        let j: int = i - pre.len() - 1;
                        assert(visit_task_for(
                            stack@[pre.len() + 1 + j],
                            source@,
                            dest@,
                            children@[children@.len() - 1 - j]@,
                            rid,
                        ));
                        assert(stack@[i] == stack@[pre.len() + 1 + j]);
                    }
                }
            }
        },
    }
}

/// Depth-first copy of the entry at `source` to the path `dest`.
///
/// Every failure is routed to the policy and only the failing branch is
/// abandoned; the walk itself never fails, and the policy only ever grows
/// by walk errors whose paths are the roots or lie below them. A regular
/// file's bytes are copied; a symbolic link is reproduced with its target
/// verbatim, never followed; a directory is recreated, its children are
/// copied in the order the platform lists them, and its permission bits are
/// applied after all of its children so that a restrictive mode cannot
/// interfere with the copying of its own contents; any other kind of entry
/// is reported as unsupported. A directory whose identity equals the
/// destination root's is reported and skipped, which keeps a copy nested
/// under its own source from recursing without end.
pub(crate) fn run_copy(source: &str, dest: &str, handler: Handler) -> (h: Handler)
    ensures
        h.is_vector() == handler.is_vector(),
        h.is_log() == handler.is_log(),
        h.is_ignore() == handler.is_ignore(),
        handler.recorded().is_prefix_of(h.recorded()),
        forall|i: int|
            handler.recorded().len() <= i < h.recorded().len() ==> walk_report(
                #[trigger] h.recorded()[i],
                source@,
                dest@,
            ),
{
    let ghost base = handler.recorded();
    let mut h = handler;
    proof {
        lemma_prefix_refl(base);
    }
    let mut stack: Vec<Task> = Vec::new();
    stack.push(
        Task::Visit { source: String::from_str(source), dest: String::from_str(dest), root: None },
    );
    // One pending step is taken per iteration; the count only makes the
    // loop's progress measure explicit, and no real tree comes near it.
    let mut fuel: u64 = u64::MAX;
    while fuel > 0 && stack.len() > 0
        invariant
            h.is_vector() == handler.is_vector(),
            h.is_log() == handler.is_log(),
            h.is_ignore() == handler.is_ignore(),
            base == handler.recorded(),
            base.is_prefix_of(h.recorded()),
            forall|i: int|
                base.len() <= i < h.recorded().len() ==> walk_report(
                    #[trigger] h.recorded()[i],
                    source@,
                    dest@,
                ),
            forall|i: int|
                0 <= i < stack@.len() ==> task_below(#[trigger] stack@[i], source@, dest@),
        decreases fuel,
    {
        fuel = fuel - 1;
        let ghost h_pre = h;
        proof {
            lemma_prefix_refl(h_pre.recorded());
        }
        let ghost stack_with_top = stack@;
        let task = stack.pop().unwrap();
        match task {
            Task::ApplyMode { dest: mode_dest, mode } => {
                match fsops::set_mode(mode_dest.as_str(), mode) {
                    Ok(()) => {},
                    Err(e) => report(&mut h, Error::Io(e), Ghost(source@), Ghost(dest@)),
                }
                proof {
                    assert forall|i: int|
                        h_pre.recorded().len() <= i < h.recorded().len() implies walk_report(
                        #[trigger] h.recorded()[i],
                        source@,
                        dest@,
                    ) by {
                        lemma_entry_report_below(h.recorded()[i], source@, dest@, source@, dest@);
                    }
                }
            },
            Task::Visit { source: entry_source, dest: entry_dest, root } => {
                let ghost esv = entry_source@;
                let ghost edv = entry_dest@;
                proof {
                    assert(task_below(stack_with_top[stack_with_top.len() - 1], source@, dest@));
                }
                let ghost stack_pre = stack@;
                visit_entry(entry_source, entry_dest, root, &mut stack, &mut h);
                proof {
                    assert forall|i: int|
                        h_pre.recorded().len() <= i < h.recorded().len() implies walk_report(
                        #[trigger] h.recorded()[i],
                        source@,
                        dest@,
                    ) by {
                        lemma_entry_report_below(h.recorded()[i], source@, dest@, esv, edv);
                    }
                    assert forall|i: int| 0 <= i < stack@.len() implies task_below(
                        #[trigger] stack@[i],
                        source@,
                        dest@,
                    ) by {
                        if i < stack_pre.len() {
                            lemma_prefix_index(stack_pre, stack@, i);
                        } else {
                            lemma_scheduled_below(stack@[i], source@, dest@, esv, edv);
                        }
                    }
                }
            },
        }
        proof {
            lemma_prefix_trans(base, h_pre.recorded(), h.recorded());
            assert forall|i: int| base.len() <= i < h.recorded().len() implies walk_report(
                #[trigger] h.recorded()[i],
                source@,
                dest@,
            ) by {
                if i < h_pre.recorded().len() {
                    lemma_prefix_index(h_pre.recorded(), h.recorded(), i);
                }
            }
        }
    }
    h
}

} // verus!
