use dirtree::tree_generator::{
    parse_regex, FileMetadata, Tree, TreeGenerator, TreeGeneratorConfig, TreeItem,
};
use dirtree::tree_scanner::{Phase, Request, Scanner};

fn meta(len: u64) -> FileMetadata {
    FileMetadata {
        mode: 0o100644,
        is_symlink: false,
        is_dir: false,
        is_char_device: false,
        is_block_device: false,
        is_fifo: false,
        is_socket: false,
        len,
        modified: Some(0),
    }
}

fn file(name: &str, len: u64) -> TreeItem {
    TreeItem { file: name.to_string(), metadata: Some(meta(len)), files: Vec::new(), is_dir: false }
}

fn dir(name: &str, files: Vec<TreeItem>) -> TreeItem {
    TreeItem { file: name.to_string(), metadata: Some(meta(0)), files, is_dir: true }
}

fn unread(name: &str) -> TreeItem {
    TreeItem { file: name.to_string(), metadata: None, files: Vec::new(), is_dir: false }
}

fn bare(mut item: TreeItem) -> TreeItem {
    item.metadata = None;
    item.files = item.files.into_iter().map(bare).collect();
    item
}

fn world() -> Vec<TreeItem> {
    vec![
        dir(
            "one",
            vec![
                file("a.txt", 1),
                dir(".git", vec![file("HEAD", 2)]),
                dir("sub", vec![file("b.log", 3), file("c.txt", 4)]),
            ],
        ),
        file("two", 5),
    ]
}

fn config_for(world: &Vec<TreeItem>) -> TreeGeneratorConfig {
    let mut c = TreeGeneratorConfig::default();
    c.root_files = world.iter().map(|r| r.file.clone()).collect();
    c
}

/// The entry of `world` that a path of the scanner leads to.
fn find<'a>(world: &'a Vec<TreeItem>, path: &str) -> &'a TreeItem {
    let mut parts = path.split('/').filter(|p| !p.is_empty());
    let root = parts.next().unwrap();
    let mut at = world.iter().find(|r| r.file == root).unwrap();
    for part in parts {
        at = at.files.iter().find(|e| e.file == part).unwrap();
    }
    at
}

/// Runs the scanner over `world` and notes every path that it asks about.
fn scan(config: &TreeGeneratorConfig, world: &Vec<TreeItem>, asked: &mut Vec<String>) -> Tree {
    let mut scanner = Scanner::new(config);
    let mut request = scanner.resume(config);
    loop {
        request = match request {
            Request::Done => break,
            Request::Continue => {
                assert_eq!(scanner.phase(), Phase::Idle);
                scanner.resume(config)
            }
            Request::Classify { path } => {
                assert_eq!(scanner.phase(), Phase::Classifying);
                asked.push(format!("classify {}", path));
                scanner.classified(config, find(world, &path).is_dir)
            }
            Request::List { path, metadata } => {
                assert_eq!(scanner.phase(), Phase::Listing);
                asked.push(format!("list {} {}", path, metadata));
                let entry = find(world, &path);
                let names = entry.files.iter().map(|e| e.file.clone()).collect();
                scanner.listed(config, if metadata { entry.metadata } else { None }, names)
            }
            Request::Stat { path } => {
                assert_eq!(scanner.phase(), Phase::Inspecting);
                asked.push(format!("stat {}", path));
                scanner.inspected(config, find(world, &path).metadata)
            }
        };
    }
    scanner.into_listing()
}

#[test]
fn scanner_asks_in_the_order_of_the_walk() {
    let w = world();
    let c = config_for(&w);
    let mut asked = Vec::new();
    let listing = scan(&c, &w, &mut asked);
    assert_eq!(
        asked,
        vec![
            "classify one/",
            "list one/ false",
            "classify one//a.txt",
            "classify one//sub",
            "list one//sub false",
            "classify one//sub/b.log",
            "classify one//sub/c.txt",
            "classify two/",
        ]
    );
    assert_eq!(
        listing.files,
        vec![
            bare(dir(
                "one",
                vec![
                    file("a.txt", 1),
                    unread(".git"),
                    dir("sub", vec![file("b.log", 3), file("c.txt", 4)]),
                ],
            )),
            bare(file("two", 5)),
        ]
    );
}

#[test]
fn scanner_asks_for_metadata_only_of_what_is_kept() {
    let w = world();
    let mut c = config_for(&w);
    c.include_metadata = true;
    c.regex_exclude_files = parse_regex("\\.log$");
    c.use_regex = true;
    let mut asked = Vec::new();
    let listing = scan(&c, &w, &mut asked);
    assert_eq!(
        asked,
        vec![
            "classify one/",
            "list one/ true",
            "classify one//a.txt",
            "stat one//a.txt",
            "classify one//sub",
            "list one//sub true",
            "classify one//sub/c.txt",
            "stat one//sub/c.txt",
            "classify two/",
            "stat two/",
        ]
    );
    assert_eq!(
        listing.files,
        vec![
            dir(
                "one",
                vec![
                    file("a.txt", 1),
                    unread(".git"),
                    dir("sub", vec![unread("b.log"), file("c.txt", 4)]),
                ],
            ),
            file("two", 5),
        ]
    );
}

#[test]
fn scanner_does_not_inspect_files_when_only_directories_are_wanted() {
    let w = world();
    let mut c = config_for(&w);
    c.include_metadata = true;
    c.directories_only = true;
    c.all_files = true;
    let mut asked = Vec::new();
    let listing = scan(&c, &w, &mut asked);
    assert!(asked.iter().all(|a| !a.starts_with("stat")));
    assert_eq!(
        listing.files,
        vec![
            dir(
                "one",
                vec![
                    unread("a.txt"),
                    dir(".git", vec![unread("HEAD")]),
                    dir("sub", vec![unread("b.log"), unread("c.txt")]),
                ],
            ),
            unread("two"),
        ]
    );
}

#[test]
fn scanning_then_generating_is_generating_from_what_is_on_disk() {
    let w = world();
    for (all, dirs, long, pattern) in [
        (false, false, false, ""),
        (true, false, true, ""),
        (false, true, true, ""),
        (true, false, false, "^sub$"),
        (false, false, true, "txt"),
        (true, true, false, "one"),
    ] {
        let make = || {
            let mut c = config_for(&w);
            c.all_files = all;
            c.directories_only = dirs;
            c.include_metadata = long;
            c.regex_exclude_files = parse_regex(pattern);
            c.use_regex = c.regex_exclude_files.is_some();
            c
        };
        let mut asked = Vec::new();
        let listing = scan(&make(), &w, &mut asked);
        let mut from_listing = TreeGenerator::new();
        let tree = from_listing.generate(make(), &listing);
        let mut from_world = TreeGenerator::new();
        let expected = from_world.generate(make(), &Tree { files: world() });
        assert_eq!(tree, expected);
        assert_eq!(from_listing.stats, from_world.stats);
    }
}

#[test]
fn scanner_without_roots_is_done_at_once() {
    let mut c = TreeGeneratorConfig::default();
    c.root_files = Vec::new();
    let mut scanner = Scanner::new(&c);
    assert_eq!(scanner.resume(&c), Request::Done);
    assert_eq!(scanner.resume(&c), Request::Done);
    assert!(scanner.into_listing().files.is_empty());
}

#[test]
fn scanner_leaves_out_an_excluded_root_unasked() {
    let w = world();
    let mut c = config_for(&w);
    c.regex_exclude_files = parse_regex("^one$");
    c.use_regex = true;
    let mut asked = Vec::new();
    let listing = scan(&c, &w, &mut asked);
    assert_eq!(asked, vec!["classify two/"]);
    assert_eq!(listing.files, vec![unread("one"), bare(file("two", 5))]);
}
