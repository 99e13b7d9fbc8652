use copy_dir::copy_dir;
use copy_dir::copy_dir_with_handler;
use copy_dir::Error;
use copy_dir::Handler;

fn base_dir() -> tempfile::TempDir {
    tempfile::Builder::new()
        .prefix("copy_dir_test")
        .tempdir()
        .unwrap()
}

fn sub(base: &tempfile::TempDir, rel: &str) -> String {
    format!("{}/{}", base.path().to_str().unwrap(), rel)
}

/// Builds the tree foo/{bar, baz/{quux, fobe}} under `base`, with each
/// file's own name as its content.
fn make_foo_tree(base: &tempfile::TempDir) {
    fs_extra::dir::create_all(&sub(base, "foo/baz"), false).unwrap();
    fs_extra::file::write_all(&sub(base, "foo/bar"), "bar").unwrap();
    fs_extra::file::write_all(&sub(base, "foo/baz/quux"), "quux").unwrap();
    fs_extra::file::write_all(&sub(base, "foo/baz/fobe"), "fobe").unwrap();
}

#[test]
fn source_does_not_exist() {
    let base_dir = base_dir();
    let source_path = sub(&base_dir, "noexist.file");
    match copy_dir(&source_path, "dest.file") {
        Ok(_) => panic!("expected Err"),
        Err(err) => match err {
            Error::SourceDoesNotExist { .. } => (),
            _ => panic!("expected SourceDoesNotExist"),
        },
    }
}

#[test]
fn target_exists() {
    let base_dir = base_dir();
    let source_path = sub(&base_dir, "exist.file");
    let target_path = sub(&base_dir, "exist2.file");

    {
        fs_extra::file::write_all(&source_path, "").unwrap();
        fs_extra::file::write_all(&target_path, "").unwrap();
    }

    match copy_dir(&source_path, &target_path) {
        Ok(_) => panic!("expected Err"),
        Err(err) => match err {
            Error::DestinationExists { .. } => (),
            _ => panic!("expected kind AlreadyExists"),
        },
    }
}

#[test]
fn attempt_copy_under_self() {
    let base_dir = base_dir();
    make_foo_tree(&base_dir);

    let from = sub(&base_dir, "foo");
    let to = sub(&base_dir, "foo/beez");

    let copy_result = copy_dir(&from, &to).unwrap();
    let _ = copy_result;
}

#[test]
fn copy_under_self_reports_cycle_and_skips_it() {
    let base_dir = base_dir();
    make_foo_tree(&base_dir);

    let from = sub(&base_dir, "foo");
    let to = sub(&base_dir, "foo/beez");

    let mut handler = Handler::Vector(Vec::new());
    copy_dir_with_handler(&from, &to, &mut handler).unwrap();

    match handler {
        Handler::Vector(errors) => {
            assert_eq!(errors.len(), 1);
            match &errors[0] {
                Error::SourceIsDestinationRoot {
                    source,
                    destination,
                } => {
                    assert_eq!(source, &sub(&base_dir, "foo/beez"));
                    assert_eq!(destination, &sub(&base_dir, "foo/beez/beez"));
                }
                _ => panic!("expected SourceIsDestinationRoot"),
            }
        }
        _ => panic!("expected the vector policy back"),
    }

    // Everything else was copied; the destination itself was not descended
    // into, so no nested copy of it appears inside the copy.
    assert_eq!(
        fs_extra::file::read_to_string(&sub(&base_dir, "foo/beez/bar")).unwrap(),
        "bar"
    );
    assert_eq!(
        fs_extra::file::read_to_string(&sub(&base_dir, "foo/beez/baz/quux")).unwrap(),
        "quux"
    );
    assert!(!std::path::Path::new(&sub(&base_dir, "foo/beez/beez")).exists());
}

#[test]
fn copy_single_file_bytes() {
    let base_dir = base_dir();
    let source_path = sub(&base_dir, "foo.file");
    let target_path = sub(&base_dir, "copied.file");
    fs_extra::file::write_all(&source_path, "hello").unwrap();

    copy_dir(&source_path, &target_path).unwrap();

    assert_eq!(
        fs_extra::file::read_to_string(&target_path).unwrap(),
        "hello"
    );
}

#[test]
fn directory_with_file_copied_structurally() {
    let base_dir = base_dir();
    fs_extra::dir::create_all(&sub(&base_dir, "foo/baz"), false).unwrap();
    fs_extra::file::write_all(&sub(&base_dir, "foo/bar"), "hello").unwrap();
    fs_extra::file::write_all(&sub(&base_dir, "foo/baz/quux"), "world").unwrap();

    let from = sub(&base_dir, "foo");
    let to = sub(&base_dir, "out");
    copy_dir(&from, &to).unwrap();

    assert!(std::path::Path::new(&to).is_dir());
    assert!(std::path::Path::new(&sub(&base_dir, "out/baz")).is_dir());
    assert!(std::path::Path::new(&sub(&base_dir, "out/bar")).is_file());
    assert_eq!(
        fs_extra::file::read_to_string(&sub(&base_dir, "out/bar")).unwrap(),
        "hello"
    );
    assert_eq!(
        fs_extra::file::read_to_string(&sub(&base_dir, "out/baz/quux")).unwrap(),
        "world"
    );
}

#[test]
fn destination_not_modified_when_it_exists() {
    let base_dir = base_dir();
    let source_path = sub(&base_dir, "src.file");
    let target_path = sub(&base_dir, "kept.file");
    fs_extra::file::write_all(&source_path, "new").unwrap();
    fs_extra::file::write_all(&target_path, "original").unwrap();

    let result = copy_dir(&source_path, &target_path);
    assert!(matches!(result, Err(Error::DestinationExists { .. })));
    assert_eq!(
        fs_extra::file::read_to_string(&target_path).unwrap(),
        "original"
    );
}

#[test]
fn directory_permissions_copied_after_children() {
    let base_dir = base_dir();
    fs_extra::dir::create_all(&sub(&base_dir, "modes"), false).unwrap();
    fs_extra::file::write_all(&sub(&base_dir, "modes/inner"), "x").unwrap();
    let from = sub(&base_dir, "modes");
    nix::sys::stat::fchmodat(
        nix::fcntl::AT_FDCWD,
        from.as_str(),
        nix::sys::stat::Mode::from_bits_truncate(0o705),
        nix::sys::stat::FchmodatFlags::FollowSymlink,
    )
    .unwrap();

    let to = sub(&base_dir, "modes_copy");
    copy_dir(&from, &to).unwrap();

    let st = nix::sys::stat::stat(to.as_str()).unwrap();
    assert_eq!(st.st_mode & 0o7777, 0o705);
    assert_eq!(
        fs_extra::file::read_to_string(&sub(&base_dir, "modes_copy/inner")).unwrap(),
        "x"
    );
}

#[test]
fn io_failure_is_reported_not_fatal() {
    let base_dir = base_dir();
    fs_extra::dir::create_all(&sub(&base_dir, "tree"), false).unwrap();
    fs_extra::file::write_all(&sub(&base_dir, "blocker"), "").unwrap();

    // The destination's parent is a regular file, so the walk cannot create
    // the destination directory; the failure is reported, not returned.
    let from = sub(&base_dir, "tree");
    let to = sub(&base_dir, "blocker/child");
    let mut handler = Handler::Vector(Vec::new());
    copy_dir_with_handler(&from, &to, &mut handler).unwrap();

    match handler {
        Handler::Vector(errors) => {
            assert_eq!(errors.len(), 1);
            assert!(matches!(errors[0], Error::Io(_)));
        }
        _ => panic!("expected the vector policy back"),
    }
}

#[test]
fn unsupported_entry_kind_reported() {
    let base_dir = base_dir();
    fs_extra::dir::create_all(&sub(&base_dir, "special"), false).unwrap();
    fs_extra::file::write_all(&sub(&base_dir, "special/plain"), "ok").unwrap();
    nix::unistd::mkfifo(
        sub(&base_dir, "special/pipe").as_str(),
        nix::sys::stat::Mode::from_bits_truncate(0o644),
    )
    .unwrap();

    let from = sub(&base_dir, "special");
    let to = sub(&base_dir, "special_copy");
    let mut handler = Handler::Vector(Vec::new());
    copy_dir_with_handler(&from, &to, &mut handler).unwrap();

    match handler {
        Handler::Vector(errors) => {
            assert_eq!(errors.len(), 1);
            assert!(matches!(errors[0], Error::Unknown(_)));
        }
        _ => panic!("expected the vector policy back"),
    }
    assert_eq!(
        fs_extra::file::read_to_string(&sub(&base_dir, "special_copy/plain")).unwrap(),
        "ok"
    );
    assert!(!std::path::Path::new(&sub(&base_dir, "special_copy/pipe")).exists());
}

#[test]
fn symlink_reproduced_verbatim() {
    let base_dir = base_dir();
    fs_extra::dir::create_all(&sub(&base_dir, "tree"), false).unwrap();
    fs_extra::file::write_all(&sub(&base_dir, "tree/real"), "content").unwrap();
    nix::unistd::symlinkat(
        "real",
        nix::fcntl::AT_FDCWD,
        sub(&base_dir, "tree/link").as_str(),
    )
    .unwrap();

    let from = sub(&base_dir, "tree");
    let to = sub(&base_dir, "tree_copy");
    copy_dir(&from, &to).unwrap();

    let link_path = sub(&base_dir, "tree_copy/link");
    assert!(std::path::Path::new(&link_path).is_symlink());
    assert_eq!(
        std::path::Path::new(&link_path)
            .read_link()
            .unwrap()
            .to_str()
            .unwrap(),
        "real"
    );
    assert_eq!(
        fs_extra::file::read_to_string(&link_path).unwrap(),
        "content"
    );
}
