use vstd::prelude::*;

verus! {

/// Relies on std::path::Path::exists: whether anything is at the path,
/// following symbolic links.
#[verifier::external_body]
pub(crate) fn path_exists(p: &str) -> bool {
    std::path::Path::new(p).exists()
}

/// Relies on std::path::Path::is_dir: whether the path names a directory,
/// following symbolic links.
#[verifier::external_body]
pub(crate) fn path_is_dir(p: &str) -> bool {
    std::path::Path::new(p).is_dir()
}

/// Relies on std::path::Path::is_file: whether the path names a regular
/// file, following symbolic links.
#[verifier::external_body]
pub(crate) fn path_is_file(p: &str) -> bool {
    std::path::Path::new(p).is_file()
}

/// Relies on std::path::Path::is_symlink: whether the path itself names a
/// symbolic link, without following it.
#[verifier::external_body]
pub(crate) fn path_is_symlink(p: &str) -> bool {
    std::path::Path::new(p).is_symlink()
}

/// Relies on nix::fcntl::readlink: the target path a symbolic link holds,
/// decoded lossily as UTF-8.
#[verifier::external_body]
pub(crate) fn read_link(p: &str) -> Result<String, std::io::Error> {
    match nix::fcntl::readlink(p) {
        Ok(target) => Ok(target.to_string_lossy().into_owned()),
        Err(e) => Err(std::io::Error::from(e)),
    }
}

/// Relies on nix::unistd::symlinkat: creates at the path a symbolic link
/// holding the target verbatim; fails when something already stands there.
#[verifier::external_body]
pub(crate) fn make_symlink(target: &str, at: &str) -> Result<(), std::io::Error> {
    match nix::unistd::symlinkat(target, nix::fcntl::AT_FDCWD, at) {
        Ok(()) => Ok(()),
        Err(e) => Err(std::io::Error::from(e)),
    }
}

/// Relies on nix::sys::stat::stat: the device number, inode number and mode
/// of the filesystem object at the path, following symbolic links.
#[verifier::external_body]
pub(crate) fn stat_path(p: &str) -> Result<(u64, u64, u32), std::io::Error> {
    match nix::sys::stat::stat(p) {
        Ok(st) => Ok((st.st_dev as u64, st.st_ino as u64, st.st_mode as u32)),
        Err(e) => Err(std::io::Error::from(e)),
    }
}

/// Relies on fs_extra::file::copy: copies the file's bytes and its
/// permission bits to the destination path, overwriting a file already
/// there.
#[verifier::external_body]
pub(crate) fn copy_file(from: &str, to: &str) -> Result<(), std::io::Error> {
    let mut options = fs_extra::file::CopyOptions::new();
    options.overwrite = true;
    match fs_extra::file::copy(from, to, &options) {
        Ok(_) => Ok(()),
        Err(e) => Err(std::io::Error::other(e)),
    }
}

/// Relies on fs_extra::dir::create_all: creates a directory at the path
/// along with every missing parent component; succeeds when the directory
/// already exists.
#[verifier::external_body]
pub(crate) fn create_dir_all(p: &str) -> Result<(), std::io::Error> {
    match fs_extra::dir::create_all(p, false) {
        Ok(()) => Ok(()),
        Err(e) => Err(std::io::Error::other(e)),
    }
}

/// Relies on walkdir::WalkDir: the names of the directory's immediate
/// entries, in whatever order the platform lists them; symbolic links are
/// listed, not followed.
#[verifier::external_body]
pub(crate) fn list_children(p: &str) -> Result<Vec<String>, std::io::Error> {
    walkdir::WalkDir::new(p)
        .min_depth(1)
        .max_depth(1)
        .into_iter()
        .map(|entry| match entry {
            Ok(e) => Ok(e.file_name().to_string_lossy().into_owned()),
            Err(e) => Err(std::io::Error::from(e)),
        })
        .collect()
}

/// Relies on nix::sys::stat::fchmodat: applies the mode's permission bits
/// to the filesystem object at the path, following symbolic links.
#[verifier::external_body]
pub(crate) fn set_mode(p: &str, mode: u32) -> Result<(), std::io::Error> {
    let m = nix::sys::stat::Mode::from_bits_truncate(mode);
    let flag = nix::sys::stat::FchmodatFlags::FollowSymlink;
    match nix::sys::stat::fchmodat(nix::fcntl::AT_FDCWD, p, m, flag) {
        Ok(()) => Ok(()),
        Err(e) => Err(std::io::Error::from(e)),
    }
}

} // verus!
