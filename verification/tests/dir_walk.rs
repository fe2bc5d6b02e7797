use clear_file_preserve_meta::clear_act::dir_walk::{
    DirWalk, EntryKind, WalkAction, WalkEvent, WalkQuery, WalkStage,
};
use clear_file_preserve_meta::clear_act::file_run::{FileAction, FileEvent, FileRun};
use clear_file_preserve_meta::clear_act::times::Probe;
use clear_file_preserve_meta::filter::{DirFilter, FileFilter};
use clear_file_preserve_meta::{ClearDir, ClearFile, ConstChgContD, ConstChgContF};
use filetime::FileTime;
use std::collections::BTreeMap;
use std::path::PathBuf;
use std::time::{Duration, SystemTime, UNIX_EPOCH};

type Failure = &'static str;

fn at(seconds: u64) -> SystemTime {
    UNIX_EPOCH + Duration::new(seconds, 0)
}

fn system_time(time: FileTime) -> SystemTime {
    UNIX_EPOCH + Duration::new(time.unix_seconds() as u64, time.nanoseconds())
}

fn path(text: &str) -> PathBuf {
    PathBuf::from(text)
}

struct MemFile {
    content: Vec<u8>,
    modified: SystemTime,
    accessed: SystemTime,
}

enum Node {
    File(MemFile),
    Dir(Vec<&'static str>),
    Locked,
}

/// A file system that lives in the test.  Writing sets a file's times to
/// `now`.
struct MemFs {
    nodes: BTreeMap<PathBuf, Node>,
    now: SystemTime,
    listed: Vec<PathBuf>,
    handed_over: Vec<PathBuf>,
    read_only: Option<PathBuf>,
}

impl MemFs {
    fn new() -> Self {
        MemFs {
            nodes: BTreeMap::new(),
            now: at(5_000),
            listed: Vec::new(),
            handed_over: Vec::new(),
            read_only: None,
        }
    }

    fn dir(mut self, at_path: &str, children: &[&'static str]) -> Self {
        self.nodes.insert(path(at_path), Node::Dir(children.to_vec()));
        self
    }

    fn locked(mut self, at_path: &str) -> Self {
        self.nodes.insert(path(at_path), Node::Locked);
        self
    }

    fn file(mut self, at_path: &str, content: &str, modified: u64, accessed: u64) -> Self {
        let file = MemFile {
            content: content.as_bytes().to_vec(),
            modified: at(modified),
            accessed: at(accessed),
        };
        self.nodes.insert(path(at_path), Node::File(file));
        self
    }

    fn is_dir(&self, at_path: &PathBuf) -> bool {
        matches!(self.nodes.get(at_path), Some(Node::Dir(_)) | Some(Node::Locked))
    }

    fn kind(&self, at_path: &PathBuf) -> EntryKind {
        match self.nodes.get(at_path) {
            Some(Node::Dir(_)) | Some(Node::Locked) => EntryKind::Directory,
            Some(Node::File(_)) => EntryKind::File,
            None => EntryKind::Other,
        }
    }

    fn list(&mut self, at_path: &PathBuf) -> Result<Vec<PathBuf>, Failure> {
        self.listed.push(at_path.clone());
        match self.nodes.get(at_path) {
            Some(Node::Dir(children)) => Ok(children.iter().map(|c| at_path.join(c)).collect()),
            Some(Node::Locked) => Err("permission denied"),
            _ => Err("not a directory"),
        }
    }

    fn content(&self, at_path: &str) -> String {
        match self.nodes.get(&path(at_path)) {
            Some(Node::File(file)) => String::from_utf8(file.content.clone()).unwrap(),
            _ => panic!("no file at {}", at_path),
        }
    }

    fn times(&self, at_path: &str) -> (SystemTime, SystemTime) {
        match self.nodes.get(&path(at_path)) {
            Some(Node::File(file)) => (file.modified, file.accessed),
            _ => panic!("no file at {}", at_path),
        }
    }

    /// Carries the run of one file out.
    fn clear(
        &mut self,
        clearer: &mut impl ClearFile<Failure>,
        at_path: &PathBuf,
    ) -> Result<(), Failure> {
        self.handed_over.push(at_path.clone());
        let now = self.now;
        let read_only = self.read_only.as_ref() == Some(at_path);
        let (mut run, mut action) = FileRun::start::<Failure>();
        loop {
            let event = match (action, self.nodes.get_mut(at_path)) {
                (FileAction::Finish(result), _) => return result,
                (FileAction::TimesOutOfRange, _) => return Err("times out of range"),
                (FileAction::ReadMetadata, Some(Node::File(file))) => FileEvent::Probed(Probe {
                    is_file: true,
                    modified: Ok(file.modified),
                    accessed: Ok(file.accessed),
                }),
                (FileAction::ReadMetadata, Some(_)) => FileEvent::Probed(Probe {
                    is_file: false,
                    modified: Ok(now),
                    accessed: Ok(now),
                }),
                (FileAction::ReadMetadata, None) => FileEvent::Failed("no such file"),
                (FileAction::Truncate, Some(Node::File(_))) if read_only => {
                    FileEvent::Failed("read-only file")
                }
                (FileAction::Truncate, Some(Node::File(file))) => {
                    file.content.clear();
                    file.modified = now;
                    file.accessed = now;
                    FileEvent::Done
                }
                (FileAction::Write(bytes), Some(Node::File(file))) => {
                    file.content.extend(bytes);
                    file.modified = now;
                    FileEvent::Done
                }
                (FileAction::Close, Some(Node::File(_))) => FileEvent::Done,
                (FileAction::RestoreTimes(times), Some(Node::File(file))) => {
                    file.modified = system_time(times.modified);
                    file.accessed = system_time(times.accessed);
                    FileEvent::Done
                }
                _ => FileEvent::Failed("not a file"),
            };
            action = clearer
                .clear_file(at_path, &mut run, event)
                .expect("the event belongs to the stage");
        }
    }

    /// Carries the walk of a directory out.
    fn walk(&mut self, walker: &mut ConstChgContD, root: &str) -> Result<(), Failure> {
        let (mut walk, mut action) = DirWalk::start::<Failure>(path(root));
        let mut open: std::vec::IntoIter<PathBuf> = Vec::new().into_iter();
        loop {
            let event = match action {
                WalkAction::Finish(result) => return result,
                WalkAction::Examine(dir) => WalkEvent::Examined(self.is_dir(&dir)),
                WalkAction::List(dir) => match self.list(&dir) {
                    Ok(entries) => {
                        open = entries.into_iter();
                        self.next_entry(&mut open)
                    }
                    Err(failure) => WalkEvent::Failed(failure),
                },
                WalkAction::NextEntry => self.next_entry(&mut open),
                WalkAction::Clear(file) => match self.clear(walker, &file) {
                    Ok(()) => WalkEvent::Cleared,
                    Err(failure) => WalkEvent::Failed(failure),
                },
            };
            action =
                walker.clear_dir_files(&mut walk, event).expect("the event belongs to the stage");
        }
    }

    fn next_entry(&self, open: &mut std::vec::IntoIter<PathBuf>) -> WalkEvent<Failure> {
        match open.next() {
            Some(entry) => {
                let kind = self.kind(&entry);
                WalkEvent::Entry(entry, kind)
            }
            None => WalkEvent::EndOfListing,
        }
    }
}

fn lists(walker: &mut impl ClearDir<Failure>, dir: &str, is_dir: bool) -> bool {
    walker.is_dir_allow(&path(dir), is_dir)
}

fn descends(walker: &mut impl ClearDir<Failure>, dir: &str) -> bool {
    walker.is_recursive(&path(dir))
}

fn paths(texts: &[&str]) -> Vec<PathBuf> {
    texts.iter().map(|t| path(t)).collect()
}

fn sample() -> MemFs {
    MemFs::new()
        .dir("top", &["a.txt", "b.log", "sub", "odd"])
        .file("top/a.txt", "alpha", 10, 11)
        .file("top/b.log", "beta", 20, 21)
        .dir("top/sub", &["c.txt", "deep"])
        .file("top/sub/c.txt", "gamma", 30, 31)
        .dir("top/sub/deep", &["d.txt"])
        .file("top/sub/deep/d.txt", "delta", 40, 41)
}

#[test]
fn walk_clears_matching_files_and_keeps_their_times() {
    let mut fs = MemFs::new()
        .dir("top", &["a.txt", "b.log", "sub"])
        .file("top/a.txt", "alpha", 10, 11)
        .file("top/b.log", "beta", 20, 21)
        .dir("top/sub", &["c.txt"])
        .file("top/sub/c.txt", "gamma", 30, 31);
    let files = FileFilter::new(Some(r".*\.txt$"), None).unwrap();
    let mut walker = ConstChgContD::new_no_dir_filter("X", &files);
    walker.set_recursive(true);

    assert_eq!(fs.walk(&mut walker, "top"), Ok(()));

    assert_eq!(fs.content("top/a.txt"), "X");
    assert_eq!(fs.times("top/a.txt"), (at(10), at(11)));
    assert_eq!(fs.content("top/sub/c.txt"), "X");
    assert_eq!(fs.times("top/sub/c.txt"), (at(30), at(31)));
    assert_eq!(fs.content("top/b.log"), "beta");
    assert_eq!(fs.times("top/b.log"), (at(20), at(21)));
}

#[test]
fn walk_without_descent_stays_in_the_root() {
    let mut fs = sample();
    let mut walker = ConstChgContD::new_no_filter("X");

    assert_eq!(fs.walk(&mut walker, "top"), Ok(()));

    assert_eq!(fs.listed, paths(&["top"]));
    assert_eq!(fs.handed_over, paths(&["top/a.txt", "top/b.log"]));
    assert_eq!(fs.content("top/a.txt"), "X");
    assert_eq!(fs.content("top/b.log"), "X");
    assert_eq!(fs.content("top/sub/c.txt"), "gamma");
    assert_eq!(fs.times("top/sub/c.txt"), (at(30), at(31)));
    assert_eq!(fs.content("top/sub/deep/d.txt"), "delta");
}

#[test]
fn walk_with_descent_reaches_every_level() {
    let mut fs = sample();
    let mut walker = ConstChgContD::new_no_filter("X");
    walker.set_recursive(true);

    assert_eq!(fs.walk(&mut walker, "top"), Ok(()));

    assert_eq!(fs.listed, paths(&["top", "top/sub", "top/sub/deep"]));
    assert_eq!(
        fs.handed_over,
        paths(&["top/a.txt", "top/b.log", "top/sub/c.txt", "top/sub/deep/d.txt"])
    );
    for (file, times) in [
        ("top/a.txt", (10, 11)),
        ("top/b.log", (20, 21)),
        ("top/sub/c.txt", (30, 31)),
        ("top/sub/deep/d.txt", (40, 41)),
    ] {
        assert_eq!(fs.content(file), "X");
        assert_eq!(fs.times(file), (at(times.0), at(times.1)));
    }
}

#[test]
fn directory_found_last_is_walked_first() {
    let mut fs = MemFs::new()
        .dir("top", &["one", "two", "three"])
        .dir("top/one", &["inner"])
        .dir("top/one/inner", &[])
        .dir("top/two", &[])
        .dir("top/three", &[]);
    let mut walker = ConstChgContD::new_clear_all();
    walker.set_recursive(true);

    assert_eq!(fs.walk(&mut walker, "top"), Ok(()));
    assert_eq!(fs.listed, paths(&["top", "top/three", "top/two", "top/one", "top/one/inner"]));
}

#[test]
fn denied_directory_is_passed_over_with_all_below_it() {
    let mut fs = MemFs::new()
        .dir("top", &["a.txt", "skip", "keep"])
        .file("top/a.txt", "alpha", 10, 11)
        .dir("top/skip", &["s.txt", "under"])
        .file("top/skip/s.txt", "sigma", 20, 21)
        .dir("top/skip/under", &["u.txt"])
        .file("top/skip/under/u.txt", "upsilon", 30, 31)
        .dir("top/keep", &["k.txt"])
        .file("top/keep/k.txt", "kappa", 40, 41);
    let dirs = DirFilter::new(None, Some("skip")).unwrap();
    let mut walker = ConstChgContD::new_no_file_filter("X", &dirs);
    walker.set_recursive(true);

    assert_eq!(fs.walk(&mut walker, "top"), Ok(()));

    assert_eq!(fs.listed, paths(&["top", "top/keep"]));
    assert_eq!(fs.content("top/a.txt"), "X");
    assert_eq!(fs.content("top/keep/k.txt"), "X");
    assert_eq!(fs.content("top/skip/s.txt"), "sigma");
    assert_eq!(fs.times("top/skip/s.txt"), (at(20), at(21)));
    assert_eq!(fs.content("top/skip/under/u.txt"), "upsilon");
    assert_eq!(fs.times("top/skip/under/u.txt"), (at(30), at(31)));
}

#[test]
fn denied_root_is_not_touched() {
    let mut fs = sample();
    let dirs = DirFilter::new(None, Some("^top$")).unwrap();
    let files = FileFilter::empty();
    let mut walker = ConstChgContD::new("X", &files, &dirs);
    walker.set_recursive(true);

    assert_eq!(fs.walk(&mut walker, "top"), Ok(()));

    assert!(fs.listed.is_empty());
    assert!(fs.handed_over.is_empty());
    assert_eq!(fs.content("top/a.txt"), "alpha");
}

#[test]
fn admitted_root_is_walked() {
    let mut fs = sample();
    let dirs = DirFilter::new(Some("^top"), None).unwrap();
    let files = FileFilter::empty();
    let mut walker = ConstChgContD::new("X", &files, &dirs);

    assert_eq!(fs.walk(&mut walker, "top"), Ok(()));

    assert_eq!(fs.listed, paths(&["top"]));
    assert_eq!(fs.content("top/a.txt"), "X");
}

#[test]
fn root_that_is_no_directory_is_passed_over() {
    let mut fs = sample();
    let mut walker = ConstChgContD::new_no_filter("X");

    assert_eq!(fs.walk(&mut walker, "top/a.txt"), Ok(()));
    assert_eq!(fs.walk(&mut walker, "nowhere"), Ok(()));

    assert!(fs.listed.is_empty());
    assert!(fs.handed_over.is_empty());
    assert_eq!(fs.content("top/a.txt"), "alpha");
}

#[test]
fn unreadable_directory_ends_the_walk() {
    let mut fs = MemFs::new()
        .dir("top", &["a.txt", "locked", "later"])
        .file("top/a.txt", "alpha", 10, 11)
        .locked("top/locked")
        .dir("top/later", &["l.txt"])
        .file("top/later/l.txt", "lambda", 20, 21);
    let mut walker = ConstChgContD::new_no_filter("X");
    walker.set_recursive(true);

    assert_eq!(fs.walk(&mut walker, "top"), Err("permission denied"));

    // what was cleared before the failure stays cleared, the rest is untouched
    assert_eq!(fs.listed, paths(&["top", "top/later", "top/locked"]));
    assert_eq!(fs.content("top/a.txt"), "X");
    assert_eq!(fs.content("top/later/l.txt"), "X");

    let mut fs = MemFs::new().locked("top");
    assert_eq!(fs.walk(&mut walker, "top"), Err("permission denied"));
}

#[test]
fn file_that_cannot_be_cleared_ends_the_walk() {
    let mut fs = sample();
    fs.read_only = Some(path("top/b.log"));
    let mut walker = ConstChgContD::new_no_filter("X");
    walker.set_recursive(true);

    assert_eq!(fs.walk(&mut walker, "top"), Err("read-only file"));

    assert_eq!(fs.listed, paths(&["top"]));
    assert_eq!(fs.handed_over, paths(&["top/a.txt", "top/b.log"]));
    assert_eq!(fs.content("top/a.txt"), "X");
    assert_eq!(fs.content("top/b.log"), "beta");
    assert_eq!(fs.content("top/sub/c.txt"), "gamma");
}

#[test]
fn walk_of_ten_thousand_nested_directories() {
    // every directory holds one directory, the last one holds one file
    let depth = 10_000;
    let mut walker = ConstChgContD::new_no_filter("X");
    walker.set_recursive(true);

    let (mut walk, mut action) = DirWalk::start::<Failure>(path("r"));
    let mut level = 0;
    let mut listed = 0;
    let mut handed_over = Vec::new();
    let mut open: Option<(PathBuf, EntryKind)> = None;
    let mut most_waiting = 0;
    let result = loop {
        let event = match action {
            WalkAction::Finish(result) => break result,
            WalkAction::Examine(_) => WalkEvent::Examined(true),
            WalkAction::List(dir) => {
                listed += 1;
                level += 1;
                let entry = if level < depth {
                    (dir.join("d"), EntryKind::Directory)
                } else {
                    (dir.join("f.txt"), EntryKind::File)
                };
                open = None;
                WalkEvent::Entry(entry.0, entry.1)
            }
            WalkAction::NextEntry => match open.take() {
                Some((entry, kind)) => WalkEvent::Entry(entry, kind),
                None => WalkEvent::EndOfListing,
            },
            WalkAction::Clear(file) => {
                handed_over.push(file);
                WalkEvent::Cleared
            }
        };
        action = walker.clear_dir_files(&mut walk, event).expect("the event belongs to the stage");
        most_waiting = most_waiting.max(walk.waiting());
    };
    assert_eq!(result, Ok(()));
    assert_eq!(listed, depth);
    assert_eq!(handed_over.len(), 1);
    assert_eq!(handed_over[0].components().count(), depth + 1);
    assert!(handed_over[0].ends_with("d/d/f.txt"));
    assert_eq!(most_waiting, 1);
    assert_eq!(walk.current(), WalkStage::Finished);
    assert_eq!(walk.waiting(), 0);
}

#[test]
fn walker_answers_by_its_filter_and_its_flag() {
    let dirs = DirFilter::new(None, Some("skip")).unwrap();
    let mut walker = ConstChgContD::new_no_file_filter("X", &dirs);
    assert!(lists(&mut walker, "top/keep", true));
    assert!(!lists(&mut walker, "top/keep", false));
    assert!(!lists(&mut walker, "top/skip", true));
    assert!(!lists(&mut walker, "top/skip", false));

    assert!(!descends(&mut walker, "top/keep"));
    walker.set_recursive(true);
    assert!(descends(&mut walker, "top/keep"));
    assert!(descends(&mut walker, "top/skip"));
    walker.set_recursive(false);
    assert!(!descends(&mut walker, "top/keep"));
    assert!(!lists(&mut walker, "top/skip", true));

    let mut all = ConstChgContD::new_clear_all();
    assert!(lists(&mut all, "anything", true));
    assert!(!lists(&mut all, "anything", false));
    assert!(!descends(&mut all, "anything"));
    assert!(ClearFile::<Failure>::is_file_allow(&mut all, &path("dir/file")));

    let single = ConstChgContF::new_no_filter("X");
    let _ = single;
}

#[test]
fn walk_starts_by_examining_the_root() {
    let (walk, action) = DirWalk::start::<Failure>(path("top/root"));
    assert_eq!(action, WalkAction::Examine(path("top/root")));
    assert_eq!(walk.current(), WalkStage::Examining);
    assert_eq!(walk.waiting(), 0);
    let root = path("top/root");
    assert_eq!(walk.query(&WalkEvent::<Failure>::Examined(true)), WalkQuery::DirAllowed(&root, true));
    assert_eq!(
        walk.query(&WalkEvent::<Failure>::Examined(false)),
        WalkQuery::DirAllowed(&root, false)
    );
    assert_eq!(walk.query(&WalkEvent::<Failure>::EndOfListing), WalkQuery::Nothing);
}

fn listing_walk() -> DirWalk {
    let (mut walk, _) = DirWalk::start::<Failure>(path("top"));
    let action = walk.advance(WalkEvent::<Failure>::Examined(true), Some(true));
    assert_eq!(action, Some(WalkAction::List(path("top"))));
    walk
}

#[test]
fn walk_steps_on_entries() {
    let mut walk = listing_walk();
    assert_eq!(walk.current(), WalkStage::Listing);

    let found = path("top/sub");
    let entry = WalkEvent::<Failure>::Entry(found.clone(), EntryKind::Directory);
    assert_eq!(walk.query(&entry), WalkQuery::Recursive(&found));
    assert_eq!(walk.advance(entry, Some(true)), Some(WalkAction::NextEntry));
    assert_eq!(walk.waiting(), 1);

    let entry = WalkEvent::<Failure>::Entry(path("top/other"), EntryKind::Directory);
    assert_eq!(walk.advance(entry, Some(false)), Some(WalkAction::NextEntry));
    assert_eq!(walk.waiting(), 1);

    let entry = WalkEvent::<Failure>::Entry(path("top/pipe"), EntryKind::Other);
    assert_eq!(walk.query(&entry), WalkQuery::Nothing);
    assert_eq!(walk.advance(entry, None), Some(WalkAction::NextEntry));
    assert_eq!(walk.current(), WalkStage::Listing);

    let entry = WalkEvent::<Failure>::Entry(path("top/a.txt"), EntryKind::File);
    assert_eq!(walk.query(&entry), WalkQuery::Nothing);
    assert_eq!(walk.advance(entry, None), Some(WalkAction::Clear(path("top/a.txt"))));
    assert_eq!(walk.current(), WalkStage::Clearing);
    assert_eq!(walk.advance(WalkEvent::<Failure>::Cleared, None), Some(WalkAction::NextEntry));
    assert_eq!(walk.current(), WalkStage::Listing);

    assert_eq!(
        walk.advance(WalkEvent::<Failure>::EndOfListing, None),
        Some(WalkAction::Examine(path("top/sub")))
    );
    assert_eq!(walk.current(), WalkStage::Examining);
    assert_eq!(walk.waiting(), 0);
    assert_eq!(
        walk.advance(WalkEvent::<Failure>::Examined(true), Some(false)),
        Some(WalkAction::Finish(Ok(())))
    );
    assert_eq!(walk.current(), WalkStage::Finished);
}

#[test]
fn failure_ends_the_walk_at_every_stage() {
    let (mut walk, _) = DirWalk::start::<Failure>(path("top"));
    assert_eq!(
        walk.advance(WalkEvent::Failed("gone"), None),
        Some(WalkAction::Finish(Err("gone")))
    );
    assert_eq!(walk.current(), WalkStage::Finished);
    assert_eq!(walk.advance(WalkEvent::Failed("again"), None), None);

    let mut walk = listing_walk();
    assert_eq!(
        walk.advance(WalkEvent::Failed("gone"), None),
        Some(WalkAction::Finish(Err("gone")))
    );

    let mut walk = listing_walk();
    walk.advance(WalkEvent::<Failure>::Entry(path("top/a.txt"), EntryKind::File), None);
    assert_eq!(walk.current(), WalkStage::Clearing);
    assert_eq!(
        walk.advance(WalkEvent::Failed("gone"), None),
        Some(WalkAction::Finish(Err("gone")))
    );
    assert_eq!(walk.current(), WalkStage::Finished);
}

#[test]
fn walk_event_out_of_turn_changes_nothing() {
    let (mut walk, _) = DirWalk::start::<Failure>(path("top"));
    assert_eq!(walk.advance(WalkEvent::<Failure>::EndOfListing, None), None);
    assert_eq!(walk.advance(WalkEvent::<Failure>::Cleared, None), None);
    assert_eq!(
        walk.advance(WalkEvent::<Failure>::Entry(path("top/a"), EntryKind::File), None),
        None
    );
    // an answer is needed here
    assert_eq!(walk.advance(WalkEvent::<Failure>::Examined(true), None), None);
    assert_eq!(walk.current(), WalkStage::Examining);
    assert_eq!(
        walk.advance(WalkEvent::<Failure>::Examined(true), Some(true)),
        Some(WalkAction::List(path("top")))
    );

    assert_eq!(walk.advance(WalkEvent::<Failure>::Examined(true), Some(true)), None);
    assert_eq!(walk.advance(WalkEvent::<Failure>::Cleared, None), None);
    assert_eq!(
        walk.advance(WalkEvent::<Failure>::Entry(path("top/d"), EntryKind::Directory), None),
        None
    );
    assert_eq!(walk.current(), WalkStage::Listing);
    assert_eq!(walk.waiting(), 0);

    walk.advance(WalkEvent::<Failure>::Entry(path("top/a.txt"), EntryKind::File), None);
    assert_eq!(walk.advance(WalkEvent::<Failure>::EndOfListing, None), None);
    assert_eq!(
        walk.advance(WalkEvent::<Failure>::Entry(path("top/b.txt"), EntryKind::File), None),
        None
    );
    assert_eq!(walk.current(), WalkStage::Clearing);
}
