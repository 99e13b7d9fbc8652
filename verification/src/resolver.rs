use vstd::prelude::*;
use vstd::string::*;

use crate::errors::Error;
use crate::fsops;
use crate::paths::{basename, basename_spec, join_path};

verus! {

/// What the state of the nominal destination asks of the merge entry point.
pub enum ResolveStep {
    /// Nothing stands at the nominal destination: use it as it is.
    UseNominal,
    /// The nominal destination is a directory: nest the source's final
    /// component under it, at this joined path.
    NestUnder(String),
    /// The merge cannot proceed.
    Refuse(Error),
}

/// Decide the merge target from what was found at the nominal destination:
/// a missing destination is used as given; an existing directory receives
/// the source's final component nested under it, unless the source has no
/// final component; anything else already standing there is refused.
pub fn resolve_step(
    destination_exists: bool,
    destination_is_dir: bool,
    source: &str,
    nominal: &str,
) -> (r: ResolveStep)
    ensures
        !destination_exists ==> r matches ResolveStep::UseNominal,
        destination_exists && destination_is_dir ==> (match basename_spec(source@) {
            None => r matches ResolveStep::Refuse(Error::CannotDetermineBasename(p)) && p@
                == source@,
            Some(b) => r matches ResolveStep::NestUnder(j) && j@ == nominal@ + seq!['/'] + b,
        }),
        destination_exists && !destination_is_dir ==> (r matches ResolveStep::Refuse(
            Error::DestinationExists { source: s, destination: d },
        ) && s@ == source@ && d@ == nominal@),
{
    if !destination_exists {
        ResolveStep::UseNominal
    } else if destination_is_dir {
        match basename(source) {
            None => ResolveStep::Refuse(
                Error::CannotDetermineBasename(String::from_str(source)),
            ),
            Some(b) => ResolveStep::NestUnder(join_path(nominal, b.as_str())),
        }
    } else {
        ResolveStep::Refuse(
            Error::DestinationExists {
                source: String::from_str(source),
                destination: String::from_str(nominal),
            },
        )
    }
}

/// Refuse a merge target that exists and is not a directory; accept a
/// missing one or a directory.
pub fn nested_target_check(target_exists: bool, target_is_dir: bool, target: &str) -> (r: Result<
    (),
    Error,
>)
    ensures
        target_exists && !target_is_dir ==> (r matches Err(Error::TargetNotADirectory(p)) && p@
            == target@),
        !target_exists || target_is_dir ==> r is Ok,
{
    if target_exists && !target_is_dir {
        Err(Error::TargetNotADirectory(String::from_str(target)))
    } else {
        Ok(())
    }
}

/// The actual destination of a merge copy of `source` over the nominal
/// destination, creating the target directory when `create_missing` asks
/// for it and nothing is there yet: [`resolve_step`] decides the target and
/// [`nested_target_check`] guards the nested one.
pub fn resolve(source: &str, nominal: &str, create_missing: bool) -> (r: Result<String, Error>)
    ensures
        r matches Ok(actual) ==> actual@ == nominal@ || (basename_spec(source@) matches Some(b)
            && actual@ == nominal@ + seq!['/'] + b),
        r matches Err(e) ==> (e matches Error::CannotDetermineBasename(p) && p@ == source@) || (
        e matches Error::DestinationExists { source: s, destination: d } && s@ == source@ && d@
            == nominal@) || (e matches Error::TargetNotADirectory(t) && basename_spec(source@)
            matches Some(b) && t@ == nominal@ + seq!['/'] + b) || (e matches Error::Io(_)),
{
    let destination_exists = fsops::path_exists(nominal);
    let destination_is_dir = fsops::path_is_dir(nominal);
    match resolve_step(destination_exists, destination_is_dir, source, nominal) {
        ResolveStep::Refuse(e) => Err(e),
        ResolveStep::UseNominal => {
            let actual = String::from_str(nominal);
            if create_missing {
                match fsops::create_dir_all(actual.as_str()) {
                    Err(e) => {
                        return Err(Error::Io(e));
                    },
                    Ok(()) => {},
                }
            }
            Ok(actual)
        },
        ResolveStep::NestUnder(joined) => {
            let joined_exists = fsops::path_exists(joined.as_str());
            let joined_is_dir = fsops::path_is_dir(joined.as_str());
            match nested_target_check(joined_exists, joined_is_dir, joined.as_str()) {
                Err(e) => Err(e),
                Ok(()) => {
                    if create_missing && !joined_exists {
                        match fsops::create_dir_all(joined.as_str()) {
                            Err(e) => {
                                return Err(Error::Io(e));
                            },
                            Ok(()) => {},
                        }
                    }
                    Ok(joined)
                },
            }
        },
    }
}

} // verus!
