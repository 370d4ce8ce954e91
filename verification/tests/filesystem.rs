use dx::filesystem::{Filesystem, PathResolutionError};
use dx::memory::MemoryFilesystem;
use dx::path::AbsolutePath;
use std::cell::RefCell;

fn path(components: &[&str]) -> AbsolutePath {
    AbsolutePath::from_components(components.iter().map(|c| c.to_string()).collect())
}

fn with_files(files: &[&[&str]]) -> MemoryFilesystem {
    let mut fs = MemoryFilesystem::new();
    for file in files {
        fs.add_file(path(file));
    }
    fs
}

/// A filesystem that answers from a list of files and records every path
/// that it is asked about, in the order of the questions.
struct Recording {
    files: Vec<AbsolutePath>,
    asked: RefCell<Vec<AbsolutePath>>,
}

impl Recording {
    fn new(files: &[&[&str]]) -> Recording {
        Recording { files: files.iter().map(|f| path(f)).collect(), asked: RefCell::new(Vec::new()) }
    }

    fn asked(&self) -> Vec<AbsolutePath> {
        self.asked.borrow().clone()
    }
}

impl Filesystem for Recording {
    fn is_file(&self, path: &AbsolutePath) -> bool {
        self.asked.borrow_mut().push(path.clone());
        self.files.contains(path)
    }

    fn canonicalize(&self, _path: &str) -> Result<AbsolutePath, PathResolutionError> {
        Err(PathResolutionError::Io)
    }
}

#[test]
fn not_found() {
    let fs = MemoryFilesystem::new();
    let stop = path(&["test", "filesystem", "test-not-found"]);
    let start = path(&["test", "filesystem", "test-not-found", "a", "b"]);

    let result = fs.find_file_ascending(&start, &stop, "not-found");

    assert_eq!(result, None);
}

#[test]
fn found_at_start() {
    let stop = path(&["test", "filesystem", "test-found-at-start"]);
    let start = path(&["test", "filesystem", "test-found-at-start", "a", "b"]);
    let mut fs = MemoryFilesystem::new();
    fs.add_file(start.join("found"));

    let result = fs.find_file_ascending(&start, &stop, "found");

    let expected = path(&["test", "filesystem", "test-found-at-start", "a", "b", "found"]);
    assert_eq!(result, Some(expected));
}

#[test]
fn found_at_stop() {
    let stop = path(&["test", "filesystem", "test-found-at-stop"]);
    let start = path(&["test", "filesystem", "test-found-at-stop", "a", "b"]);
    let mut fs = MemoryFilesystem::new();
    fs.add_file(stop.join("found"));

    let result = fs.find_file_ascending(&start, &stop, "found");

    let expected = path(&["test", "filesystem", "test-found-at-stop", "found"]);
    assert_eq!(result, Some(expected));
}

#[test]
fn marker_at_the_stop_directory_is_found() {
    let fs = with_files(&[&["a", "dx.toml"]]);

    let result = fs.find_file_ascending(&path(&["a", "b", "c"]), &path(&["a"]), "dx.toml");

    assert_eq!(result, Some(path(&["a", "dx.toml"])));
}

#[test]
fn start_that_is_the_file_is_returned() {
    let fs = with_files(&[&["a", "b", "dx.toml"]]);

    let result = fs.find_file_ascending(&path(&["a", "b", "dx.toml"]), &path(&[]), "dx.toml");

    assert_eq!(result, Some(path(&["a", "b", "dx.toml"])));
}

#[test]
fn start_that_is_the_file_wins_over_an_entry_inside_it() {
    let fs = with_files(&[&["a", "dx.toml"], &["a", "dx.toml", "dx.toml"]]);

    let result = fs.find_file_ascending(&path(&["a", "dx.toml"]), &path(&[]), "dx.toml");

    assert_eq!(result, Some(path(&["a", "dx.toml"])));
}

#[test]
fn start_that_is_the_file_is_returned_after_one_question() {
    let fs = Recording::new(&[&["a", "b", "dx.toml"]]);

    let result = fs.find_file_ascending(&path(&["a", "b", "dx.toml"]), &path(&[]), "dx.toml");

    assert_eq!(result, Some(path(&["a", "b", "dx.toml"])));
    assert_eq!(fs.asked(), vec![path(&["a", "b", "dx.toml"])]);
}

#[test]
fn nothing_between_start_and_stop_gives_none() {
    let fs = with_files(&[&["x", "y", "other.toml"], &["q", "dx.toml"]]);

    let result = fs.find_file_ascending(&path(&["x", "y", "z"]), &path(&["x"]), "dx.toml");

    assert_eq!(result, None);
}

#[test]
fn nearest_marker_wins() {
    let fs = with_files(&[&["dx.toml"], &["a", "dx.toml"], &["a", "b", "dx.toml"]]);

    let result = fs.find_file_ascending(&path(&["a", "b", "c", "d"]), &path(&[]), "dx.toml");

    assert_eq!(result, Some(path(&["a", "b", "dx.toml"])));
}

#[test]
fn nearest_marker_wins_whatever_the_order_of_the_files() {
    let fs = with_files(&[&["a", "b", "dx.toml"], &["a", "dx.toml"], &["dx.toml"]]);

    let result = fs.find_file_ascending(&path(&["a", "b", "c", "d"]), &path(&[]), "dx.toml");

    assert_eq!(result, Some(path(&["a", "b", "dx.toml"])));
}

#[test]
fn marker_above_stop_is_out_of_reach() {
    let fs = with_files(&[&["dx.toml"]]);

    let result = fs.find_file_ascending(&path(&["a", "b"]), &path(&["a"]), "dx.toml");

    assert_eq!(result, None);
}

#[test]
fn start_equal_to_stop_looks_at_that_level_only() {
    let stop = path(&["a", "b"]);
    let above = with_files(&[&["a", "dx.toml"]]);
    let there = with_files(&[&["a", "b", "dx.toml"]]);

    assert_eq!(above.find_file_ascending(&stop, &stop, "dx.toml"), None);
    assert_eq!(
        there.find_file_ascending(&stop, &stop, "dx.toml"),
        Some(path(&["a", "b", "dx.toml"]))
    );
}

#[test]
fn stop_that_is_no_ancestor_lets_the_search_reach_the_root() {
    let fs = with_files(&[&["dx.toml"]]);
    let empty = MemoryFilesystem::new();
    let start = path(&["a", "b"]);
    let stop = path(&["elsewhere"]);

    assert_eq!(fs.find_file_ascending(&start, &stop, "dx.toml"), Some(path(&["dx.toml"])));
    assert_eq!(empty.find_file_ascending(&start, &stop, "dx.toml"), None);
}

#[test]
fn search_from_the_root() {
    let fs = with_files(&[&["dx.toml"]]);
    let root = AbsolutePath::root();

    assert_eq!(fs.find_file_ascending(&root, &root, "dx.toml"), Some(path(&["dx.toml"])));
    assert_eq!(fs.find_file_ascending(&root, &root, "other"), None);
}

#[test]
fn directory_with_the_name_of_the_file_is_no_match() {
    // `/a/dx.toml` is a directory here: it holds a file, and is none itself.
    let fs = with_files(&[&["a", "dx.toml", "notes"], &["dx.toml"]]);

    let result = fs.find_file_ascending(&path(&["a", "dx.toml"]), &path(&[]), "dx.toml");

    assert_eq!(result, Some(path(&["dx.toml"])));
}

#[test]
fn ancestor_that_is_the_file_is_returned() {
    let fs = with_files(&[&["a", "dx.toml"]]);

    let result = fs.find_file_ascending(&path(&["a", "dx.toml", "b"]), &path(&[]), "dx.toml");

    assert_eq!(result, Some(path(&["a", "dx.toml"])));
}

#[test]
fn questions_follow_the_levels_and_end_at_stop() {
    let fs = Recording::new(&[]);

    let result = fs.find_file_ascending(&path(&["a", "n", "c"]), &path(&["a"]), "n");

    assert_eq!(result, None);
    assert_eq!(
        fs.asked(),
        vec![
            path(&["a", "n", "c", "n"]),
            path(&["a", "n"]),
            path(&["a", "n", "n"]),
            path(&["a", "n"]),
        ]
    );
}

#[test]
fn questions_end_at_the_first_match() {
    let fs = Recording::new(&[&["a", "b", "dx.toml"], &["a", "dx.toml"]]);

    let result = fs.find_file_ascending(&path(&["a", "b", "c"]), &path(&[]), "dx.toml");

    assert_eq!(result, Some(path(&["a", "b", "dx.toml"])));
    assert_eq!(fs.asked(), vec![path(&["a", "b", "c", "dx.toml"]), path(&["a", "b", "dx.toml"])]);
}

#[test]
fn search_leaves_its_arguments_as_they_were() {
    let fs = with_files(&[&["a", "dx.toml"]]);
    let start = path(&["a", "b", "c"]);
    let stop = path(&["a"]);

    let _ = fs.find_file_ascending(&start, &stop, "dx.toml");

    assert_eq!(start, path(&["a", "b", "c"]));
    assert_eq!(stop, path(&["a"]));
}

#[test]
fn memory_filesystem_knows_its_files() {
    let mut fs = MemoryFilesystem::new();
    assert!(!fs.is_file(&path(&["a", "f"])));

    fs.add_file(path(&["a", "f"]));

    assert!(fs.is_file(&path(&["a", "f"])));
    assert!(!fs.is_file(&path(&["a"])));
    assert!(!fs.is_file(&path(&["a", "f", "g"])));
    assert!(!fs.is_file(&path(&["a", "g"])));
}

#[test]
fn memory_filesystem_resolves_what_it_was_told() {
    let mut fs = MemoryFilesystem::new();
    assert_eq!(fs.canonicalize("."), Err(PathResolutionError::NotFound));

    fs.set_resolution(".", Ok(path(&["home", "me"])));
    fs.set_resolution("locked", Err(PathResolutionError::PermissionDenied));
    fs.set_resolution("broken", Err(PathResolutionError::Io));

    assert_eq!(fs.canonicalize("."), Ok(path(&["home", "me"])));
    assert_eq!(fs.canonicalize("locked"), Err(PathResolutionError::PermissionDenied));
    assert_eq!(fs.canonicalize("broken"), Err(PathResolutionError::Io));
    assert_eq!(fs.canonicalize("/"), Err(PathResolutionError::NotFound));
}

#[test]
fn memory_filesystem_keeps_the_latest_resolution() {
    let mut fs = MemoryFilesystem::new();
    fs.set_resolution(".", Ok(path(&["first"])));
    fs.set_resolution("/", Ok(AbsolutePath::root()));
    fs.set_resolution(".", Ok(path(&["second"])));

    assert_eq!(fs.canonicalize("."), Ok(path(&["second"])));
    assert_eq!(fs.canonicalize("/"), Ok(AbsolutePath::root()));

    fs.set_resolution(".", Err(PathResolutionError::NotFound));

    assert_eq!(fs.canonicalize("."), Err(PathResolutionError::NotFound));
}

/// A filesystem whose answers change while it is being asked: it says "no"
/// to the first questions and "yes" to every later one.
struct Late {
    refusals: usize,
    asked: RefCell<usize>,
}

impl Filesystem for Late {
    fn is_file(&self, _path: &AbsolutePath) -> bool {
        let mut asked = self.asked.borrow_mut();
        *asked += 1;
        *asked > self.refusals
    }

    fn canonicalize(&self, _path: &str) -> Result<AbsolutePath, PathResolutionError> {
        Err(PathResolutionError::Io)
    }
}

#[test]
fn changing_answers_still_give_a_level_or_an_entry_of_the_name() {
    let start = path(&["a", "b", "c"]);
    let root = AbsolutePath::root();

    let second = Late { refusals: 2, asked: RefCell::new(0) };
    assert_eq!(second.find_file_ascending(&start, &root, "n"), Some(path(&["a", "n"])));

    let at_once = Late { refusals: 0, asked: RefCell::new(0) };
    assert_eq!(at_once.find_file_ascending(&start, &root, "n"), Some(path(&["a", "b", "c", "n"])));

    let on_the_level = Late { refusals: 0, asked: RefCell::new(0) };
    assert_eq!(
        on_the_level.find_file_ascending(&path(&["a", "n"]), &root, "n"),
        Some(path(&["a", "n"]))
    );

    let never = Late { refusals: 100, asked: RefCell::new(0) };
    assert_eq!(never.find_file_ascending(&start, &root, "n"), None);
    assert_eq!(*never.asked.borrow(), 4);
}
