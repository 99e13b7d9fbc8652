//! Recursive copying of a filesystem entry — a regular file or a whole
//! directory tree — from a source path to a destination path.
//!
//! The strict entry points, [`copy_dir`] and [`copy_dir_with_handler`],
//! demand that nothing exists at the destination yet; [`copy_tree_merge`]
//! accepts an existing destination directory and nests the source under it.
//! Per-entry failures never abort the walk as a whole: they are routed to a
//! pluggable [`Handler`] and only the failing branch is skipped. A copy of a
//! directory into a path nested under itself is detected by comparing each
//! visited directory's filesystem identity against the identity of the
//! destination root, and is reported instead of recursing without end.
//!
//! Known limitations: hard links are copied as separate files; filesystem
//! boundaries may be crossed; symbolic links are copied as entries, never
//! followed into; and paths are handled as UTF-8 text, so a child name or a
//! link target that is not valid UTF-8 is decoded lossily rather than
//! reproduced byte for byte.

use vstd::prelude::*;
use vstd::string::*;

use crate::paths::{
    basename_spec, lemma_path_below_trans, lemma_paths_below_sides, path_below,
};
use crate::walker::walk_report;

pub mod errors;
mod fsops;
pub mod handler;
pub mod paths;
pub mod resolver;
mod seqs;
pub mod walker;

pub use errors::{is_walk_error, Error};
pub use handler::Handler;
pub use walker::{classify_entry, cycle_check, is_destination_root, EntryKind, Identity};

verus! {

/// The strict entry points' precondition check, over what was found at the
/// two paths: a missing source is refused, then an occupied destination is
/// refused, and otherwise the copy is allowed to start.
pub fn strict_preconditions(
    source_exists: bool,
    destination_exists: bool,
    from: &str,
    to: &str,
) -> (r: Result<(), Error>)
    ensures
        !source_exists ==> (r matches Err(Error::SourceDoesNotExist(p)) && p@ == from@),
        source_exists && destination_exists ==> (r matches Err(
            Error::DestinationExists { source: s, destination: d },
        ) && s@ == from@ && d@ == to@),
        source_exists && !destination_exists ==> r is Ok,
{
    if !source_exists {
        Err(Error::SourceDoesNotExist(String::from_str(from)))
    } else if destination_exists {
        Err(
            Error::DestinationExists {
                source: String::from_str(from),
                destination: String::from_str(to),
            },
        )
    } else {
        Ok(())
    }
}

/// Copy the file or directory tree at `from` to the path `to`, routing every
/// per-entry failure through the supplied policy.
///
/// The copy never starts unless `from` exists and nothing exists at `to`:
/// the only errors this function itself returns are those two precondition
/// failures, carrying the offending paths. Once the walk has started, every
/// further failure goes to `handler` — which only ever grows, keeping
/// earlier reports in order — and the corresponding branch of the tree is
/// skipped while its siblings are still copied.
pub fn copy_dir_with_handler(from: &str, to: &str, handler: &mut Handler) -> (r: Result<
    (),
    Error,
>)
    ensures
        final(handler).is_vector() == old(handler).is_vector(),
        final(handler).is_log() == old(handler).is_log(),
        final(handler).is_ignore() == old(handler).is_ignore(),
        old(handler).recorded().is_prefix_of(final(handler).recorded()),
        forall|i: int|
            old(handler).recorded().len() <= i < final(handler).recorded().len() ==> walk_report(
                #[trigger] final(handler).recorded()[i],
                from@,
                to@,
            ),
        r matches Err(e) ==> (e matches Error::SourceDoesNotExist(p) && p@ == from@) || (
        e matches Error::DestinationExists { source: s, destination: d } && s@ == from@ && d@
            == to@),
        r is Err ==> *final(handler) == *old(handler),
{
    let source_exists = fsops::path_exists(from);
    let destination_exists = fsops::path_exists(to);
    match strict_preconditions(source_exists, destination_exists, from, to) {
        Err(e) => {
            proof {
                seqs::lemma_prefix_refl(handler.recorded());
            }
            Err(e)
        },
        Ok(()) => {
            let mut h = Handler::Ignore;
            core::mem::swap(handler, &mut h);
            let mut done = walker::run_copy(from, to, h);
            core::mem::swap(handler, &mut done);
            Ok(())
        },
    }
}

/// Copy the file or directory tree at `from` to the path `to`, silently
/// discarding every per-entry failure.
///
/// Fails only when `from` does not exist or something already exists at
/// `to`; the error carries the offending paths. Nothing at `to` is touched
/// in either case.
pub fn copy_dir(from: &str, to: &str) -> (r: Result<(), Error>)
    ensures
        r matches Err(e) ==> (e matches Error::SourceDoesNotExist(p) && p@ == from@) || (
        e matches Error::DestinationExists { source: s, destination: d } && s@ == from@ && d@
            == to@),
{
    let mut handler = Handler::Ignore;
    copy_dir_with_handler(from, to, &mut handler)
}

/// Copy the file or directory tree at `from` into a destination that may
/// already exist: a missing destination is created, and a destination that
/// is already a directory receives the copy nested under it, as
/// `to/basename(from)`.
///
/// Fails outright only when the destination cannot be resolved — it exists
/// and is not a directory, the source has no final component to nest, or
/// the target directory cannot be created. Every per-entry failure of the
/// walk itself is accumulated instead, and returned in reporting order.
pub fn copy_tree_merge(from: &str, to: &str) -> (r: Result<Vec<Error>, Error>)
    ensures
        r matches Ok(v) ==> forall|i: int|
            0 <= i < v@.len() ==> merge_report(#[trigger] v@[i], from@, to@),
        r matches Err(e) ==> (e matches Error::CannotDetermineBasename(p) && p@ == from@) || (
        e matches Error::DestinationExists { source: s, destination: d } && s@ == from@ && d@
            == to@) || (e matches Error::TargetNotADirectory(t) && basename_spec(from@)
            matches Some(b) && t@ == to@ + seq!['/'] + b) || (e matches Error::Io(_)),
{
    let create_missing = fsops::path_is_dir(from);
    match resolver::resolve(from, to, create_missing) {
        Err(e) => Err(e),
        Ok(actual) => {
            let ghost av = actual@;
            proof {
                if av != to@ {
                    match basename_spec(from@) {
                        Some(b) => {
                            assert(av == to@ + seq!['/'] + b);
                        },
                        None => {
                            assert(false);
                        },
                    }
                }
                assert(path_below(to@, av));
            }
            let done = walker::run_copy(from, actual.as_str(), Handler::Vector(Vec::new()));
            match done {
                Handler::Vector(v) => {
                    proof {
                        assert forall|i: int| 0 <= i < v@.len() implies merge_report(
                            #[trigger] v@[i],
                            from@,
                            to@,
                        ) by {
                            lemma_walk_to_merge_report(v@[i], from@, av, to@);
                        }
                    }
                    Ok(v)
                },
                _ => {
                    proof {
                        assert(false);
                    }
                    Ok(Vec::new())
                },
            }
        },
    }
}

/// What a merge copy may accumulate: a walk error, and where it names
/// paths, the source side is the source or lies below it and the
/// destination side is the nominal destination or lies below it.
pub open spec fn merge_report(e: Error, source: Seq<char>, destination: Seq<char>) -> bool {
    &&& is_walk_error(e)
    &&& (e matches Error::SourceIsDestinationRoot { source: s, destination: d } ==> path_below(
        source,
        s@,
    ) && path_below(destination, d@))
    &&& (e matches Error::Unknown(p) ==> path_below(source, p@))
}

/// A report of a walk rooted at the resolved target, when that target is
/// the nominal destination or lies below it, is a merge report.
proof fn lemma_walk_to_merge_report(e: Error, source: Seq<char>, actual: Seq<char>, to: Seq<char>)
    requires
        walk_report(e, source, actual),
        path_below(to, actual),
    ensures
        merge_report(e, source, to),
{
    match e {
        Error::SourceIsDestinationRoot { source: s, destination: d } => {
            lemma_paths_below_sides(source, actual, s@, d@);
            lemma_path_below_trans(to, actual, d@);
        },
        _ => {
        },
    }
}

} // verus!
