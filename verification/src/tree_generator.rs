//! Narrows a listing of what is on disk into the tree that is shown, and
//! counts what was kept and what was left out.

use vstd::prelude::*;
use vstd::string::*;

verus! {

/// Whether `regex::Regex::new` accepts `pattern`.
pub uninterp spec fn regex_compiles(pattern: Seq<char>) -> bool;

/// Whether the regular expression written as `pattern` finds a match
/// anywhere in `haystack`, as `regex::Regex::is_match` reports it.
pub uninterp spec fn regex_is_match(pattern: Seq<char>, haystack: Seq<char>) -> bool;

/// The pattern that `filter` was compiled from.
pub uninterp spec fn filter_pattern(filter: ExcludeFilter) -> Seq<char>;

/// A compiled pattern for names that are left out of the tree. It holds a
/// `regex::Regex`, and only [`parse_regex`] makes one.
#[verifier::external_body]
pub struct ExcludeFilter {
    compiled: regex::Regex,
}

/// Calls `regex::Regex::new` and keeps what it compiled. Whether the
/// pattern compiles depends on the pattern alone; nothing is claimed about
/// which patterns do. The filter that is made is one of `pattern`.
#[verifier::external_body]
fn compile_filter(pattern: &str) -> (r: Option<ExcludeFilter>)
    ensures
        r.is_some() == regex_compiles(pattern@),
        r matches Some(filter) ==> filter_pattern(filter) == pattern@,
{
    match regex::Regex::new(pattern) {
        Ok(compiled) => Some(ExcludeFilter { compiled }),
        Err(_) => None,
    }
}

/// Calls `regex::Regex::is_match` on the compiled form that `filter` holds:
/// the answer is that of the filter's pattern on `name`.
#[verifier::external_body]
fn regex_search(filter: &ExcludeFilter, name: &str) -> (found: bool)
    ensures
        found == regex_is_match(filter_pattern(*filter), name@),
{
    filter.compiled.is_match(name)
}

/// Calls `regex::Regex::as_str`, which gives the text that the regular
/// expression was compiled from.
#[verifier::external_body]
fn regex_source(filter: &ExcludeFilter) -> (source: &str)
    ensures
        source@ == filter_pattern(*filter),
{
    filter.compiled.as_str()
}

impl ExcludeFilter {
    /// The pattern as it was written.
    pub open spec fn pattern(&self) -> Seq<char> {
        filter_pattern(*self)
    }

    /// Whether the filter leaves `name` out.
    pub open spec fn matches(&self, name: Seq<char>) -> bool {
        regex_is_match(self.pattern(), name)
    }

    /// Tests `name` against the pattern.
    pub fn is_match(&self, name: &str) -> (found: bool)
        ensures
            found == self.matches(name@),
    {
        regex_search(self, name)
    }

    /// The pattern as it was written.
    pub fn as_str(&self) -> (s: &str)
        ensures
            s@ == self.pattern(),
    {
        regex_source(self)
    }
}

/// Compiles an exclude pattern. An empty pattern and a pattern that does
/// not compile both mean that there is no filter.
pub fn parse_regex(regex_string: &str) -> (filter: Option<ExcludeFilter>)
    ensures
        filter.is_some() == (regex_string@.len() > 0 && regex_compiles(regex_string@)),
        filter matches Some(f) ==> f.pattern() == regex_string@,
{
    if regex_string.is_empty() {
        return None;
    }
    compile_filter(regex_string)
}

/// What the file system reports about one entry.
#[derive(Clone, Copy, Debug, PartialEq, Eq)]
pub struct FileMetadata {
    /// The mode as the file system gives it: the permission bits are its
    /// lowest twelve, the kind of the entry stands above them.
    pub mode: u32,
    pub is_symlink: bool,
    pub is_dir: bool,
    pub is_char_device: bool,
    pub is_block_device: bool,
    pub is_fifo: bool,
    pub is_socket: bool,
    /// The size in bytes.
    pub len: u64,
    /// The time of the last change in whole seconds since 1970-01-01
    /// 00:00:00 UTC, where the platform could tell it.
    pub modified: Option<i64>,
}

/// One entry of a tree: a file or a directory with the entries below it.
#[derive(Debug, PartialEq, Eq)]
pub struct TreeItem {
    pub file: String,
    pub metadata: Option<FileMetadata>,
    pub files: Vec<TreeItem>,
    pub is_dir: bool,
}

/// The roots of a listing, in the order in which they were asked for.
#[derive(Debug, PartialEq, Eq)]
pub struct Tree {
    pub files: Vec<TreeItem>,
}

/// The mathematical form of a [`TreeItem`].
pub struct Node {
    pub name: Seq<char>,
    pub is_dir: bool,
    pub metadata: Option<FileMetadata>,
    pub children: Seq<Node>,
}

/// The node that an item stands for.
pub open spec fn node_of(item: TreeItem) -> Node
    decreases item,
{
    Node {
        name: item.file@,
        is_dir: item.is_dir,
        metadata: item.metadata,
        children: Seq::new(
            item.files@.len(),
            |i: int|
                if 0 <= i < item.files@.len() {
                    node_of(item.files@[i])
                } else {
                    arbitrary()
                },
        ),
    }
}

impl View for TreeItem {
    type V = Node;

    open spec fn view(&self) -> Node {
        node_of(*self)
    }
}

/// The nodes that a sequence of items stands for.
pub open spec fn nodes_of(items: Seq<TreeItem>) -> Seq<Node> {
    Seq::new(items.len(), |i: int| items[i]@)
}

impl View for Tree {
    type V = Seq<Node>;

    open spec fn view(&self) -> Seq<Node> {
        nodes_of(self.files@)
    }
}

/// Counts in mathematical integers: what [`TreeGeneratorStats`] stands for.
pub struct Tally {
    pub files: nat,
    pub directories: nat,
    pub ignored: nat,
}

impl Tally {
    pub open spec fn zero() -> Tally {
        Tally { files: 0, directories: 0, ignored: 0 }
    }

    pub open spec fn one_file() -> Tally {
        Tally { files: 1, directories: 0, ignored: 0 }
    }

    pub open spec fn one_directory() -> Tally {
        Tally { files: 0, directories: 1, ignored: 0 }
    }

    pub open spec fn one_ignored() -> Tally {
        Tally { files: 0, directories: 0, ignored: 1 }
    }

    /// The sum, counter by counter.
    pub open spec fn plus(self, other: Tally) -> Tally {
        Tally {
            files: self.files + other.files,
            directories: self.directories + other.directories,
            ignored: self.ignored + other.ignored,
        }
    }

    /// All three counters together.
    pub open spec fn total(self) -> nat {
        self.files + self.directories + self.ignored
    }

    /// Whether each counter can be held in sixteen bits.
    pub open spec fn fits(self) -> bool {
        self.files <= u16::MAX && self.directories <= u16::MAX && self.ignored <= u16::MAX
    }

    /// Whether no counter is larger than it is in `other`.
    pub open spec fn at_most(self, other: Tally) -> bool {
        self.files <= other.files && self.directories <= other.directories && self.ignored
            <= other.ignored
    }
}

/// How many entries were kept as files, kept as directories, and left out.
#[derive(Clone, Copy, Debug, PartialEq, Eq)]
pub struct TreeGeneratorStats {
    pub files: u16,
    pub directories: u16,
    pub ignored: u16,
}

impl View for TreeGeneratorStats {
    type V = Tally;

    open spec fn view(&self) -> Tally {
        Tally {
            files: self.files as nat,
            directories: self.directories as nat,
            ignored: self.ignored as nat,
        }
    }
}

impl TreeGeneratorStats {
    pub fn new() -> (stats: TreeGeneratorStats)
        ensures
            stats@ == Tally::zero(),
    {
        TreeGeneratorStats { files: 0, directories: 0, ignored: 0 }
    }
}

/// Whether `name` begins with a dot.
pub open spec fn is_hidden(name: Seq<char>) -> bool {
    name.len() > 0 && name[0] == '.'
}

/// Whether `node` and all that is below it are directories.
pub open spec fn only_directories(node: Node) -> bool
    decreases node,
{
    node.is_dir && forall|i: int|
        0 <= i < node.children.len() ==> only_directories(#[trigger] node.children[i])
}

/// The node that an item, if there is one, stands for.
pub open spec fn option_node(item: Option<TreeItem>) -> Option<Node> {
    match item {
        Some(t) => Some(t@),
        None => None,
    }
}

/// What is listed and which entries are left out.
pub struct TreeGeneratorConfig {
    pub root_files: Vec<String>,
    /// Include file metadata, makes process slow
    pub include_metadata: bool,
    /// Only include directories
    pub directories_only: bool,
    /// List all files, also hidden files starting with a "."
    pub all_files: bool,
    /// Pattern of the names to leave out
    pub regex_exclude_files: Option<ExcludeFilter>,
    /// Apply the pattern?
    pub use_regex: bool,
}

impl TreeGeneratorConfig {
    /// Whether the exclude pattern is applied and leaves `name` out.
    pub open spec fn excludes(&self, name: Seq<char>) -> bool {
        self.use_regex && match self.regex_exclude_files {
            Some(filter) => filter.matches(name),
            None => false,
        }
    }

    /// Whether an entry is left out for its name alone: a hidden name below
    /// a root while hidden entries are not asked for, or a name that the
    /// exclude pattern matches.
    pub open spec fn rejects_name(&self, name: Seq<char>, is_root: bool) -> bool {
        (is_hidden(name) && !self.all_files && !is_root) || self.excludes(name)
    }

    /// The metadata that a kept entry carries.
    pub open spec fn kept_metadata(&self, metadata: Option<FileMetadata>) -> Option<
        FileMetadata,
    > {
        if self.include_metadata {
            metadata
        } else {
            None
        }
    }

    /// The node that is kept for a listed entry, if any.
    pub open spec fn expand(&self, entry: Node, is_root: bool) -> Option<Node>
        decreases entry, 0nat,
    {
        if self.rejects_name(entry.name, is_root) {
            None
        } else if entry.is_dir {
            Some(
                Node {
                    name: entry.name,
                    is_dir: true,
                    metadata: self.kept_metadata(entry.metadata),
                    children: self.expand_all(entry.children, false),
                },
            )
        } else if self.directories_only {
            None
        } else {
            Some(
                Node {
                    name: entry.name,
                    is_dir: false,
                    metadata: self.kept_metadata(entry.metadata),
                    children: Seq::empty(),
                },
            )
        }
    }

    /// The nodes that are kept of `entries`, in their order.
    pub open spec fn expand_all(&self, entries: Seq<Node>, is_root: bool) -> Seq<Node>
        decreases entries, 1nat,
    {
        if entries.len() == 0 {
            Seq::empty()
        } else {
            let before = self.expand_all(entries.drop_last(), is_root);
            match self.expand(entries.last(), is_root) {
                Some(node) => before.push(node),
                None => before,
            }
        }
    }

    /// What listing one entry, with all that is visited below it, adds to
    /// the counters.
    pub open spec fn tally(&self, entry: Node, is_root: bool) -> Tally
        decreases entry, 0nat,
    {
        if self.rejects_name(entry.name, is_root) {
            Tally::one_ignored()
        } else if entry.is_dir {
            Tally::one_directory().plus(self.tally_all(entry.children, false))
        } else if self.directories_only {
            Tally::one_ignored()
        } else {
            Tally::one_file()
        }
    }

    /// What listing `entries` adds to the counters.
    pub open spec fn tally_all(&self, entries: Seq<Node>, is_root: bool) -> Tally
        decreases entries, 1nat,
    {
        if entries.len() == 0 {
            Tally::zero()
        } else {
            self.tally_all(entries.drop_last(), is_root).plus(
                self.tally(entries.last(), is_root),
            )
        }
    }

    /// The number of entries that are visited below `entry`: none below an
    /// entry that is left out or that is no directory.
    pub open spec fn visited_below(&self, entry: Node, is_root: bool) -> nat
        decreases entry, 0nat,
    {
        if self.rejects_name(entry.name, is_root) || !entry.is_dir {
            0
        } else {
            self.visited_all(entry.children, false)
        }
    }

    /// The number of entries that are visited in listing `entries`: each
    /// of them, and what is visited below each.
    pub open spec fn visited_all(&self, entries: Seq<Node>, is_root: bool) -> nat
        decreases entries, 1nat,
    {
        if entries.len() == 0 {
            0
        } else {
            self.visited_all(entries.drop_last(), is_root) + 1 + self.visited_below(
                entries.last(),
                is_root,
            )
        }
    }

    /// The number of entries that are visited below the roots, the roots
    /// themselves not counted.
    pub open spec fn visited_below_roots(&self, roots: Seq<Node>) -> nat
        decreases roots.len(),
    {
        if roots.len() == 0 {
            0
        } else {
            self.visited_below_roots(roots.drop_last()) + self.visited_below(roots.last(), true)
        }
    }

    /// The current directory as the only root, no metadata, hidden entries
    /// left out, no exclude pattern.
    pub open spec fn is_default(&self) -> bool {
        &&& self.root_files@.len() == 1
        &&& self.root_files@[0]@ == "./"@
        &&& !self.include_metadata
        &&& !self.directories_only
        &&& !self.all_files
        &&& self.regex_exclude_files is None
        &&& !self.use_regex
    }

    pub fn default() -> (config: TreeGeneratorConfig)
        ensures
            config.is_default(),
    {
        let mut root_files: Vec<String> = Vec::new();
        root_files.push(String::from_str("./"));
        TreeGeneratorConfig {
            root_files,
            include_metadata: false,
            directories_only: false,
            all_files: false,
            regex_exclude_files: None,
            use_regex: false,
        }
    }

    /// The configuration that the arguments of the command line ask for:
    /// the exclude pattern is applied where one is given and compiles.
    pub fn from_args(
        file: Vec<String>,
        long: bool,
        dir_only: bool,
        all: bool,
        exclude: &str,
    ) -> (config: TreeGeneratorConfig)
        ensures
            config.root_files == file,
            config.include_metadata == long,
            config.directories_only == dir_only,
            config.all_files == all,
            config.use_regex == (exclude@.len() > 0 && regex_compiles(exclude@)),
            config.use_regex == config.regex_exclude_files.is_some(),
            config.regex_exclude_files matches Some(filter) ==> filter.pattern() == exclude@,
    {
        let regex_exclude_files: Option<ExcludeFilter> = parse_regex(exclude);
        let use_regex: bool = regex_exclude_files.is_some();
        TreeGeneratorConfig {
            root_files: file,
            include_metadata: long,
            directories_only: dir_only,
            all_files: all,
            regex_exclude_files,
            use_regex,
        }
    }

    /// Decides from its name alone whether an entry is left out.
    pub fn rejects(&self, name: &str, is_root: bool) -> (rejected: bool)
        ensures
            rejected == self.rejects_name(name@, is_root),
    {
        if !name.is_empty() && name.get_char(0) == '.' && !self.all_files && !is_root {
            return true;
        }
        if !self.use_regex {
            return false;
        }
        match &self.regex_exclude_files {
            Some(filter) => filter.is_match(name),
            None => false,
        }
    }
}

/// The counters of a prefix never exceed those of the whole sequence.
pub proof fn lemma_tally_prefix(
    config: TreeGeneratorConfig,
    entries: Seq<Node>,
    k: int,
    is_root: bool,
)
    requires
        0 <= k <= entries.len(),
    ensures
        config.tally_all(entries.take(k), is_root).at_most(config.tally_all(entries, is_root)),
    decreases entries.len(),
{
    if k == entries.len() {
        assert(entries.take(k) =~= entries);
    } else {
        lemma_tally_prefix(config, entries.drop_last(), k, is_root);
        assert(entries.drop_last().take(k) =~= entries.take(k));
    }
}

/// The node of an item has the item's name, kind and metadata, and the
/// nodes of the item's files below it.
pub proof fn lemma_view_children(item: TreeItem)
    ensures
        item@.children == nodes_of(item.files@),
        item@.name == item.file@,
        item@.is_dir == item.is_dir,
        item@.metadata == item.metadata,
{
    assert(item@.children =~= nodes_of(item.files@));
}

/// Unfolds the last step of listing the first `k + 1` entries.
pub proof fn lemma_take_step(
    config: TreeGeneratorConfig,
    entries: Seq<Node>,
    k: int,
    is_root: bool,
)
    requires
        0 <= k < entries.len(),
    ensures
        config.tally_all(entries.take(k + 1), is_root) == config.tally_all(
            entries.take(k),
            is_root,
        ).plus(config.tally(entries[k], is_root)),
        config.expand_all(entries.take(k + 1), is_root) == match config.expand(
            entries[k],
            is_root,
        ) {
            Some(node) => config.expand_all(entries.take(k), is_root).push(node),
            None => config.expand_all(entries.take(k), is_root),
        },
{
    assert(entries.take(k + 1).drop_last() =~= entries.take(k));
    assert(entries.take(k + 1).last() == entries[k]);
}

/// Builds the tree that is shown from a listing, and keeps the counters of
/// the last run.
pub struct TreeGenerator {
    pub config: TreeGeneratorConfig,
    pub stats: TreeGeneratorStats,
}

impl TreeGenerator {
    pub fn new() -> (generator: TreeGenerator)
        ensures
            generator.config.is_default(),
            generator.stats@ == Tally::zero(),
    {
        TreeGenerator { config: TreeGeneratorConfig::default(), stats: TreeGeneratorStats::new() }
    }

    /// Narrows `listing`, which holds one entry for each root in the order
    /// of the roots, to the entries that `config` keeps, and counts every
    /// entry that is visited. The counters start from zero; each must stay
    /// within sixteen bits.
    pub fn generate(&mut self, config: TreeGeneratorConfig, listing: &Tree) -> (tree: Tree)
        requires
            config.tally_all(listing@, true).fits(),
        ensures
            final(self).config == config,
            final(self).stats@ == config.tally_all(listing@, true),
            tree@ == config.expand_all(listing@, true),
    {
        self.config = config;
        self.stats = TreeGeneratorStats::new();
        match self.create_tree_for_files(listing) {
            Some(tree) => tree,
            None => vstd::pervasive::unreached(),
        }
    }

    /// As [`TreeGenerator::generate`], for any listing: where a counter
    /// would leave sixteen bits there is no tree, and the counters are zero.
    pub fn try_generate(
        &mut self,
        config: TreeGeneratorConfig,
        listing: &Tree,
    ) -> (tree: Option<Tree>)
        ensures
            final(self).config == config,
            tree.is_some() == config.tally_all(listing@, true).fits(),
            tree matches Some(t) ==> t@ == config.expand_all(listing@, true) && final(self).stats@
                == config.tally_all(listing@, true),
            tree is None ==> final(self).stats@ == Tally::zero(),
    {
        self.config = config;
        self.stats = TreeGeneratorStats::new();
        let tree: Option<Tree> = self.create_tree_for_files(listing);
        if tree.is_none() {
            self.stats = TreeGeneratorStats::new();
        }
        tree
    }

    fn create_tree_for_files(&mut self, listing: &Tree) -> (tree: Option<Tree>)
        ensures
            final(self).config == old(self).config,
            tree.is_some() == old(self).stats@.plus(
                old(self).config.tally_all(listing@, true),
            ).fits(),
            tree matches Some(t) ==> t@ == old(self).config.expand_all(listing@, true)
                && final(self).stats@ == old(self).stats@.plus(
                old(self).config.tally_all(listing@, true),
            ),
    {
        let mut stats: TreeGeneratorStats = self.stats;
        let files: Option<Vec<TreeItem>> = Self::list_files(
            &self.config,
            &mut stats,
            &listing.files,
            true,
        );
        self.stats = stats;
        match files {
            Some(files) => Some(Tree { files }),
            None => None,
        }
    }

    /// Lists `items` one after the other. `None` says that a counter would
    /// have left sixteen bits.
    fn list_files(
        config: &TreeGeneratorConfig,
        stats: &mut TreeGeneratorStats,
        items: &Vec<TreeItem>,
        is_root: bool,
    ) -> (r: Option<Vec<TreeItem>>)
        ensures
            r.is_some() == old(stats)@.plus(config.tally_all(nodes_of(items@), is_root)).fits(),
            r matches Some(kept) ==> final(stats)@ == old(stats)@.plus(
                config.tally_all(nodes_of(items@), is_root),
            ) && nodes_of(kept@) == config.expand_all(nodes_of(items@), is_root),
        decreases items, 1nat,
    {
        let ghost entries = nodes_of(items@);
        let ghost start = stats@;
        let mut kept: Vec<TreeItem> = Vec::new();
        let mut i: usize = 0;
        while i < items.len()
            invariant
                i <= items.len(),
                entries == nodes_of(items@),
                start == old(stats)@,
                stats@ == start.plus(config.tally_all(entries.take(i as int), is_root)),
                nodes_of(kept@) =~= config.expand_all(entries.take(i as int), is_root),
            decreases items.len() - i,
        {
            proof {
                lemma_take_step(*config, entries, i as int, is_root);
                lemma_tally_prefix(*config, entries, i + 1, is_root);
            }
            let ghost kept_before = kept@;
            match Self::list_files_recursive(config, stats, &items[i], is_root) {
                None => {
                    return None;
                },
                Some(found) => {
                    if let Some(item) = found {
                        kept.push(item);
                        assert(nodes_of(kept@) =~= nodes_of(kept_before).push(item@));
                    }
                },
            }
            i += 1;
        }
        proof {
            assert(entries.take(items.len() as int) =~= entries);
        }
        Some(kept)
    }

    /// Lists one entry with what is below it. The outer `None` says that a
    /// counter would have left sixteen bits; the inner one that the entry
    /// is left out.
    fn list_files_recursive(
        config: &TreeGeneratorConfig,
        stats: &mut TreeGeneratorStats,
        entry: &TreeItem,
        is_root: bool,
    ) -> (r: Option<Option<TreeItem>>)
        ensures
            r.is_some() == old(stats)@.plus(config.tally(entry@, is_root)).fits(),
            r matches Some(kept) ==> final(stats)@ == old(stats)@.plus(
                config.tally(entry@, is_root),
            ) && option_node(kept) == config.expand(entry@, is_root),
        decreases entry, 0nat,
    {
        // hidden files only with all option, then the exclude pattern
        if config.rejects(entry.file.as_str(), is_root) {
            if stats.ignored == u16::MAX {
                return None;
            }
            stats.ignored = stats.ignored + 1;
            return Some(None);
        }
        if entry.is_dir {
            if stats.directories == u16::MAX {
                return None;
            }
            stats.directories = stats.directories + 1;
            proof {
                lemma_view_children(*entry);
            }
            match Self::list_files(config, stats, &entry.files, false) {
                None => None,
                Some(files) => {
                    let item = TreeItem {
                        file: entry.file.clone(),
                        metadata: Self::collect_metadata(config, entry),
                        files,
                        is_dir: true,
                    };
                    proof {
                        lemma_view_children(item);
                    }
                    Some(Some(item))
                },
            }
        } else {
            // dont return files if mode is dir only
            if config.directories_only {
                if stats.ignored == u16::MAX {
                    return None;
                }
                stats.ignored = stats.ignored + 1;
                return Some(None);
            }
            if stats.files == u16::MAX {
                return None;
            }
            stats.files = stats.files + 1;
            let item = TreeItem {
                file: entry.file.clone(),
                metadata: Self::collect_metadata(config, entry),
                files: Vec::new(),
                is_dir: false,
            };
            proof {
                lemma_view_children(item);
                assert(item@.children =~= Seq::<Node>::empty());
            }
            Some(Some(item))
        }
    }

    fn needs_metadata(config: &TreeGeneratorConfig) -> (needed: bool)
        ensures
            needed == config.include_metadata,
    {
        config.include_metadata
    }

    fn collect_metadata(
        config: &TreeGeneratorConfig,
        entry: &TreeItem,
    ) -> (metadata: Option<FileMetadata>)
        ensures
            metadata == config.kept_metadata(entry.metadata),
    {
        if Self::needs_metadata(config) {
            return entry.metadata;
        }
        None
    }
}

} // verus!
