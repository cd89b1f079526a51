//! Reads a listing from the file system step by step. The scanner decides
//! what is asked next; its caller asks the file system and hands the
//! answer back. Nothing is asked about an entry that is left out for its
//! name, and nothing below such an entry is read.

use crate::text::{clone_names, names_of};
use crate::tree_generator::{
    lemma_view_children, nodes_of, FileMetadata, Node, Tree, TreeGeneratorConfig, TreeItem,
};
use vstd::prelude::*;
use vstd::string::*;

verus! {

/// What the scanner wants from its caller next.
#[derive(Debug, PartialEq, Eq)]
pub enum Request {
    /// Nothing from the file system: call [`Scanner::resume`].
    Continue,
    /// Whether `path` is a directory: answer with [`Scanner::classified`].
    Classify { path: String },
    /// The names in the directory `path`, and its metadata if `metadata`
    /// is set: answer with [`Scanner::listed`].
    List { path: String, metadata: bool },
    /// The metadata of the file `path`: answer with
    /// [`Scanner::inspected`].
    Stat { path: String },
    /// Nothing: every root has been read.
    Done,
}

/// What the scanner waits for.
#[derive(Clone, Copy, Debug, PartialEq, Eq, Structural)]
pub enum Phase {
    /// For [`Scanner::resume`].
    Idle,
    /// For [`Scanner::classified`].
    Classifying,
    /// For [`Scanner::listed`].
    Listing,
    /// For [`Scanner::inspected`].
    Inspecting,
}

/// The entry that is being asked about.
#[derive(Debug, PartialEq, Eq)]
pub struct Candidate {
    pub name: String,
    pub path: String,
}

/// A directory of which some entries are read and some are still to come.
/// The lowest frame stands for no directory: its entries are the roots.
#[derive(Debug, PartialEq, Eq)]
pub struct Frame {
    pub name: String,
    pub path: String,
    pub metadata: Option<FileMetadata>,
    /// The names of the entries, in the order of the file system.
    pub names: Vec<String>,
    /// How many of the names have been taken up.
    pub next: usize,
    /// The entries that are read.
    pub done: Vec<TreeItem>,
}

/// The state of reading: the directory that is being read, the
/// directories above it that wait for it, and what is asked at present.
#[derive(Debug, PartialEq, Eq)]
pub struct Scanner {
    pub below: Vec<Frame>,
    pub top: Frame,
    pub phase: Phase,
    pub current: Candidate,
}

/// An entry of which only the name is known.
pub open spec fn unread(name: Seq<char>) -> Node {
    Node { name, is_dir: false, metadata: None, children: Seq::empty() }
}

/// The path under which an entry is asked about: a root by its own name,
/// another entry by the path of its directory and its name.
pub open spec fn candidate_path(is_root: bool, directory: Seq<char>, name: Seq<char>) -> Seq<
    char,
> {
    if is_root {
        name.push('/')
    } else {
        directory.push('/') + name
    }
}

/// Whether `after` is `before` with `node` added to the entries that are
/// read.
pub open spec fn frame_with(before: Frame, after: Frame, node: Node) -> bool {
    &&& after.name == before.name
    &&& after.path == before.path
    &&& after.metadata == before.metadata
    &&& after.names == before.names
    &&& after.next == before.next
    &&& nodes_of(after.done@) == nodes_of(before.done@).push(node)
}

/// The names of `nodes`.
pub open spec fn node_names(nodes: Seq<Node>) -> Seq<Seq<char>> {
    Seq::new(nodes.len(), |i: int| nodes[i].name)
}

/// What is read of an entry on disk: of an entry that is left out, for its
/// name or as a file where only directories are wanted, the name alone; of
/// another its kind, its metadata where that is wanted, and what is read
/// of the entries below it.
pub open spec fn read_entry(config: TreeGeneratorConfig, entry: Node, is_root: bool) -> Node
    decreases entry, 0nat,
{
    if config.rejects_name(entry.name, is_root) {
        unread(entry.name)
    } else if entry.is_dir {
        Node {
            name: entry.name,
            is_dir: true,
            metadata: config.kept_metadata(entry.metadata),
            children: read_entries(config, entry.children, false),
        }
    } else if config.directories_only {
        unread(entry.name)
    } else {
        Node {
            name: entry.name,
            is_dir: false,
            metadata: config.kept_metadata(entry.metadata),
            children: Seq::empty(),
        }
    }
}

/// What is read of `entries`, in their order.
pub open spec fn read_entries(config: TreeGeneratorConfig, entries: Seq<Node>, is_root: bool) -> Seq<
    Node,
>
    decreases entries, 1nat,
{
    if entries.len() == 0 {
        Seq::empty()
    } else {
        read_entries(config, entries.drop_last(), is_root).push(
            read_entry(config, entries.last(), is_root),
        )
    }
}

/// The directory on disk that the frame above the last of `below` reads:
/// the entry that the last frame has taken up last.
pub open spec fn node_at(below: Seq<Frame>, world: Seq<Node>) -> Node
    decreases below.len(), 0nat,
{
    if below.len() == 0 {
        arbitrary()
    } else {
        children_at(below.drop_last(), world)[below.last().next - 1]
    }
}

/// The entries on disk of the directory that the frame above `below`
/// reads; with nothing below, the roots.
pub open spec fn children_at(below: Seq<Frame>, world: Seq<Node>) -> Seq<Node>
    decreases below.len(), 1nat,
{
    if below.len() == 0 {
        world
    } else {
        node_at(below, world).children
    }
}

/// Whether `frame` has read of `entries` all before the one that it has
/// taken up last, and that one is not left out for its name.
pub open spec fn frame_open(
    config: TreeGeneratorConfig,
    frame: Frame,
    entries: Seq<Node>,
    is_root: bool,
) -> bool {
    &&& names_of(frame.names@) == node_names(entries)
    &&& 1 <= frame.next <= entries.len()
    &&& nodes_of(frame.done@) == read_entries(config, entries.take(frame.next - 1), is_root)
    &&& !config.rejects_name(entries[frame.next - 1].name, is_root)
}

/// Whether `frame` carries the name of `node` and the metadata that is
/// kept of it.
pub open spec fn frame_stands_for(config: TreeGeneratorConfig, frame: Frame, node: Node) -> bool {
    frame.name@ == node.name && frame.metadata == config.kept_metadata(node.metadata)
}

/// Whether each of the waiting frames has read its directory on disk up
/// to the directory that the frame above it reads.
pub open spec fn chain(config: TreeGeneratorConfig, below: Seq<Frame>, world: Seq<Node>) -> bool
    decreases below.len(),
{
    below.len() == 0 || {
        let rest = below.drop_last();
        let frame = below.last();
        let entries = children_at(rest, world);
        &&& chain(config, rest, world)
        &&& frame_open(config, frame, entries, rest.len() == 0)
        &&& entries[frame.next - 1].is_dir
        &&& rest.len() > 0 ==> frame_stands_for(config, frame, node_at(rest, world))
    }
}

impl Scanner {
    /// The entry on disk that the scanner asks about.
    pub open spec fn asked(&self, world: Seq<Node>) -> Node {
        children_at(self.below@, world)[self.top.next - 1]
    }

    /// Whether the scanner has so far read `world`, the roots on disk with
    /// all that is below them: every frame holds what is read of the
    /// entries that it has finished.
    pub open spec fn reads(&self, config: TreeGeneratorConfig, world: Seq<Node>) -> bool {
        let entries = children_at(self.below@, world);
        &&& chain(config, self.below@, world)
        &&& !self.at_roots() ==> frame_stands_for(config, self.top, node_at(self.below@, world))
        &&& if self.phase == Phase::Idle {
            &&& names_of(self.top.names@) == node_names(entries)
            &&& self.top.next <= entries.len()
            &&& nodes_of(self.top.done@) == read_entries(
                config,
                entries.take(self.top.next as int),
                self.at_roots(),
            )
        } else {
            &&& frame_open(config, self.top, entries, self.at_roots())
            &&& self.current.name@ == self.asked(world).name
            &&& self.phase == Phase::Listing ==> self.asked(world).is_dir
            &&& self.phase == Phase::Inspecting ==> !self.asked(world).is_dir
                && !config.directories_only && config.include_metadata
        }
    }

    /// Whether the entries of the directory that is being read are roots.
    pub open spec fn at_roots(&self) -> bool {
        self.below@.len() == 0
    }

    /// Whether every root has been read.
    pub open spec fn is_finished(&self) -> bool {
        self.at_roots() && self.phase == Phase::Idle && self.top.next == self.top.names@.len()
    }

    /// What [`Scanner::resume`] does: it takes up the next name of the
    /// directory that is being read, which is either left out for its name
    /// or asked about; or, at the end of the names, goes back to the
    /// directory above and adds the finished one to its entries; or, at
    /// the end of the roots, finishes.
    pub open spec fn resumes(
        &self,
        config: TreeGeneratorConfig,
        after: Scanner,
        request: Request,
    ) -> bool {
        if self.top.next < self.top.names@.len() {
            let name = self.top.names@[self.top.next as int]@;
            &&& after.below == self.below
            &&& after.top.name == self.top.name
            &&& after.top.path == self.top.path
            &&& after.top.metadata == self.top.metadata
            &&& after.top.names == self.top.names
            &&& after.top.next == self.top.next + 1
            &&& if config.rejects_name(name, self.at_roots()) {
                &&& nodes_of(after.top.done@) == nodes_of(self.top.done@).push(unread(name))
                &&& after.phase == Phase::Idle
                &&& request == Request::Continue
            } else {
                &&& after.top.done == self.top.done
                &&& after.phase == Phase::Classifying
                &&& after.current.name@ == name
                &&& after.current.path@ == candidate_path(self.at_roots(), self.top.path@, name)
                &&& request matches Request::Classify { path }
                &&& path@ == after.current.path@
            }
        } else if self.at_roots() {
            &&& after == *self
            &&& request == Request::Done
        } else {
            &&& after.below@ == self.below@.drop_last()
            &&& frame_with(
                self.below@.last(),
                after.top,
                Node {
                    name: self.top.name@,
                    is_dir: true,
                    metadata: self.top.metadata,
                    children: nodes_of(self.top.done@),
                },
            )
            &&& after.phase == Phase::Idle
            &&& request == Request::Continue
        }
    }

    /// What [`Scanner::classified`] does: a directory is listed next; a
    /// file is left out where only directories are wanted, inspected
    /// where metadata is wanted, and else added as it is.
    pub open spec fn classifies(
        &self,
        config: TreeGeneratorConfig,
        is_dir: bool,
        after: Scanner,
        request: Request,
    ) -> bool {
        &&& after.below == self.below
        &&& after.current == self.current
        &&& if is_dir {
            &&& after.top == self.top
            &&& after.phase == Phase::Listing
            &&& request matches Request::List { path, metadata }
            &&& path@ == self.current.path@
            &&& metadata == config.include_metadata
        } else if !config.directories_only && config.include_metadata {
            &&& after.top == self.top
            &&& after.phase == Phase::Inspecting
            &&& request matches Request::Stat { path }
            &&& path@ == self.current.path@
        } else {
            &&& frame_with(self.top, after.top, unread(self.current.name@))
            &&& after.phase == Phase::Idle
            &&& request == Request::Continue
        }
    }

    /// What [`Scanner::listed`] does: the directory that was listed is the
    /// one that is read from now on.
    pub open spec fn lists(
        &self,
        config: TreeGeneratorConfig,
        metadata: Option<FileMetadata>,
        names: Vec<String>,
        after: Scanner,
        request: Request,
    ) -> bool {
        &&& after.below@ == self.below@.push(self.top)
        &&& after.top.name@ == self.current.name@
        &&& after.top.path@ == self.current.path@
        &&& after.top.metadata == config.kept_metadata(metadata)
        &&& after.top.names == names
        &&& after.top.next == 0
        &&& after.top.done@.len() == 0
        &&& after.phase == Phase::Idle
        &&& request == Request::Continue
    }

    /// What [`Scanner::inspected`] does: the file is added with its
    /// metadata.
    pub open spec fn inspects(
        &self,
        config: TreeGeneratorConfig,
        metadata: Option<FileMetadata>,
        after: Scanner,
        request: Request,
    ) -> bool {
        &&& after.below == self.below
        &&& frame_with(
            self.top,
            after.top,
            Node {
                name: self.current.name@,
                is_dir: false,
                metadata: config.kept_metadata(metadata),
                children: Seq::empty(),
            },
        )
        &&& after.phase == Phase::Idle
        &&& request == Request::Continue
    }

    /// A scanner that has the roots of `config` before it.
    pub fn new(config: &TreeGeneratorConfig) -> (scanner: Scanner)
        ensures
            scanner.at_roots(),
            scanner.phase == Phase::Idle,
            names_of(scanner.top.names@) == names_of(config.root_files@),
            scanner.top.next == 0,
            scanner.top.done@.len() == 0,
            scanner.top.name@.len() == 0,
            scanner.top.path@.len() == 0,
            scanner.top.metadata is None,
            scanner.current.name@.len() == 0,
            scanner.current.path@.len() == 0,
    {
        Scanner {
            below: Vec::new(),
            top: Frame {
                name: String::new(),
                path: String::new(),
                metadata: None,
                names: clone_names(&config.root_files),
                next: 0,
                done: Vec::new(),
            },
            phase: Phase::Idle,
            current: Candidate { name: String::new(), path: String::new() },
        }
    }

    /// What the scanner waits for.
    pub fn phase(&self) -> (phase: Phase)
        ensures
            phase == self.phase,
    {
        self.phase
    }

    /// Goes on after [`Request::Continue`], and starts the reading.
    pub fn resume(&mut self, config: &TreeGeneratorConfig) -> (request: Request)
        requires
            old(self).phase == Phase::Idle,
        ensures
            old(self).resumes(*config, *final(self), request),
    {
        if self.top.next < self.top.names.len() {
            let is_root: bool = self.below.len() == 0;
            let name: String = self.top.names[self.top.next].clone();
            self.top.next = self.top.next + 1;
            if config.rejects(name.as_str(), is_root) {
                add_entry(&mut self.top.done, name, None, Vec::new(), false);
                return Request::Continue;
            }
            proof {
                reveal_strlit("/");
            }
            let path: String = if is_root {
                name.clone().concat("/")
            } else {
                self.top.path.clone().concat("/").concat(name.as_str())
            };
            assert(path@ =~= candidate_path(is_root, self.top.path@, name@));
            self.current = Candidate { name, path: path.clone() };
            self.phase = Phase::Classifying;
            Request::Classify { path }
        } else if self.below.len() == 0 {
            Request::Done
        } else {
            let mut finished: Frame = self.below.pop().unwrap();
            assert(self.below@ =~= old(self).below@.drop_last());
            std::mem::swap(&mut self.top, &mut finished);
            add_entry(&mut self.top.done, finished.name, finished.metadata, finished.done, true);
            Request::Continue
        }
    }

    /// Takes the answer to [`Request::Classify`].
    pub fn classified(&mut self, config: &TreeGeneratorConfig, is_dir: bool) -> (request: Request)
        requires
            old(self).phase == Phase::Classifying,
        ensures
            old(self).classifies(*config, is_dir, *final(self), request),
    {
        if is_dir {
            self.phase = Phase::Listing;
            Request::List { path: self.current.path.clone(), metadata: config.include_metadata }
        } else if !config.directories_only && config.include_metadata {
            self.phase = Phase::Inspecting;
            Request::Stat { path: self.current.path.clone() }
        } else {
            add_entry(&mut self.top.done, self.current.name.clone(), None, Vec::new(), false);
            self.phase = Phase::Idle;
            Request::Continue
        }
    }

    /// Takes the answer to [`Request::List`]: the names in the directory,
    /// and its metadata where that was asked for and could be had.
    pub fn listed(
        &mut self,
        config: &TreeGeneratorConfig,
        metadata: Option<FileMetadata>,
        names: Vec<String>,
    ) -> (request: Request)
        requires
            old(self).phase == Phase::Listing,
        ensures
            old(self).lists(*config, metadata, names, *final(self), request),
    {
        let mut entered = Frame {
            name: self.current.name.clone(),
            path: self.current.path.clone(),
            metadata: if config.include_metadata {
                metadata
            } else {
                None
            },
            names,
            next: 0,
            done: Vec::new(),
        };
        std::mem::swap(&mut self.top, &mut entered);
        self.below.push(entered);
        self.phase = Phase::Idle;
        Request::Continue
    }

    /// Takes the answer to [`Request::Stat`]: the metadata of the file,
    /// where it could be had.
    pub fn inspected(
        &mut self,
        config: &TreeGeneratorConfig,
        metadata: Option<FileMetadata>,
    ) -> (request: Request)
        requires
            old(self).phase == Phase::Inspecting,
        ensures
            old(self).inspects(*config, metadata, *final(self), request),
    {
        let kept: Option<FileMetadata> = if config.include_metadata {
            metadata
        } else {
            None
        };
        add_entry(&mut self.top.done, self.current.name.clone(), kept, Vec::new(), false);
        self.phase = Phase::Idle;
        Request::Continue
    }

    /// The roots that are read.
    pub fn into_listing(self) -> (listing: Tree)
        ensures
            listing@ == nodes_of(self.top.done@),
    {
        Tree { files: self.top.done }
    }
}

/// Adds an entry at the end of `entries`.
fn add_entry(
    entries: &mut Vec<TreeItem>,
    file: String,
    metadata: Option<FileMetadata>,
    files: Vec<TreeItem>,
    is_dir: bool,
)
    ensures
        nodes_of(final(entries)@) == nodes_of(old(entries)@).push(
            Node { name: file@, is_dir, metadata, children: nodes_of(files@) },
        ),
        files@.len() == 0 ==> nodes_of(files@) == Seq::<Node>::empty(),
{
    let item = TreeItem { file, metadata, files, is_dir };
    proof {
        lemma_view_children(item);
        if files@.len() == 0 {
            assert(nodes_of(files@) =~= Seq::<Node>::empty());
        }
    }
    entries.push(item);
    assert(nodes_of(entries@) =~= nodes_of(old(entries)@).push(item@));
}

/// Unfolds what is read of the first `k + 1` entries.
pub proof fn lemma_read_step(
    config: TreeGeneratorConfig,
    entries: Seq<Node>,
    k: int,
    is_root: bool,
)
    requires
        0 <= k < entries.len(),
    ensures
        read_entries(config, entries.take(k + 1), is_root) == read_entries(
            config,
            entries.take(k),
            is_root,
        ).push(read_entry(config, entries[k], is_root)),
{
    assert(entries.take(k + 1).drop_last() =~= entries.take(k));
    assert(entries.take(k + 1).last() == entries[k]);
}

/// A new scanner has read nothing of the roots that its configuration
/// names.
pub proof fn lemma_new_reads(config: TreeGeneratorConfig, scanner: Scanner, world: Seq<Node>)
    requires
        scanner.at_roots(),
        scanner.phase == Phase::Idle,
        names_of(scanner.top.names@) == node_names(world),
        scanner.top.next == 0,
        scanner.top.done@.len() == 0,
    ensures
        scanner.reads(config, world),
{
    assert(nodes_of(scanner.top.done@) =~= read_entries(config, world.take(0), true));
}

/// Going on keeps the scanner reading `world`.
pub proof fn lemma_resume_reads(
    config: TreeGeneratorConfig,
    before: Scanner,
    after: Scanner,
    request: Request,
    world: Seq<Node>,
)
    requires
        before.phase == Phase::Idle,
        before.reads(config, world),
        before.resumes(config, after, request),
    ensures
        after.reads(config, world),
{
    let entries = children_at(before.below@, world);
    assert(names_of(before.top.names@).len() == node_names(entries).len());
    if before.top.next < before.top.names@.len() {
        let k = before.top.next as int;
        assert(names_of(before.top.names@)[k] == node_names(entries)[k]);
        lemma_read_step(config, entries, k, before.at_roots());
    } else if before.at_roots() {
    } else {
        let rest = before.below@.drop_last();
        let parent = before.below@.last();
        let above = children_at(rest, world);
        let k = parent.next - 1;
        assert(entries.take(before.top.next as int) =~= entries);
        lemma_read_step(config, above, k, rest.len() == 0);
        assert(after.below@ == rest);
    }
}

/// The answer of the file system to whether the entry asked about is a
/// directory keeps the scanner reading `world`.
pub proof fn lemma_classified_reads(
    config: TreeGeneratorConfig,
    before: Scanner,
    is_dir: bool,
    after: Scanner,
    request: Request,
    world: Seq<Node>,
)
    requires
        before.phase == Phase::Classifying,
        before.reads(config, world),
        is_dir == before.asked(world).is_dir,
        before.classifies(config, is_dir, after, request),
    ensures
        after.reads(config, world),
{
    let entries = children_at(before.below@, world);
    lemma_read_step(config, entries, before.top.next - 1, before.at_roots());
}

/// The names in the directory asked about, with its metadata where that
/// was asked for, keep the scanner reading `world`.
pub proof fn lemma_listed_reads(
    config: TreeGeneratorConfig,
    before: Scanner,
    metadata: Option<FileMetadata>,
    names: Vec<String>,
    after: Scanner,
    request: Request,
    world: Seq<Node>,
)
    requires
        before.phase == Phase::Listing,
        before.reads(config, world),
        config.include_metadata ==> metadata == before.asked(world).metadata,
        names_of(names@) == node_names(before.asked(world).children),
        before.lists(config, metadata, names, after, request),
    ensures
        after.reads(config, world),
{
    assert(after.below@.drop_last() =~= before.below@);
    assert(after.below@.last() == before.top);
    let entries = children_at(after.below@, world);
    assert(entries == before.asked(world).children);
    assert(nodes_of(after.top.done@) =~= read_entries(config, entries.take(0), false));
}

/// The metadata of the file asked about keeps the scanner reading
/// `world`.
pub proof fn lemma_inspected_reads(
    config: TreeGeneratorConfig,
    before: Scanner,
    metadata: Option<FileMetadata>,
    after: Scanner,
    request: Request,
    world: Seq<Node>,
)
    requires
        before.phase == Phase::Inspecting,
        before.reads(config, world),
        metadata == before.asked(world).metadata,
        before.inspects(config, metadata, after, request),
    ensures
        after.reads(config, world),
{
    let entries = children_at(before.below@, world);
    lemma_read_step(config, entries, before.top.next - 1, before.at_roots());
}

/// A scanner that has finished holds what is read of all the roots.
pub proof fn lemma_finished_listing(
    config: TreeGeneratorConfig,
    scanner: Scanner,
    world: Seq<Node>,
)
    requires
        scanner.reads(config, world),
        scanner.is_finished(),
    ensures
        nodes_of(scanner.top.done@) == read_entries(config, world, true),
{
    assert(names_of(scanner.top.names@).len() == node_names(world).len());
    assert(world.take(scanner.top.next as int) =~= world);
}

/// What is kept and counted of an entry is the same whether the tree is
/// built from the entry on disk or from what is read of it.
pub proof fn lemma_read_entry_suffices(config: TreeGeneratorConfig, entry: Node, is_root: bool)
    ensures
        config.expand(read_entry(config, entry, is_root), is_root) == config.expand(
            entry,
            is_root,
        ),
        config.tally(read_entry(config, entry, is_root), is_root) == config.tally(entry, is_root),
    decreases entry, 0nat,
{
    if !config.rejects_name(entry.name, is_root) && entry.is_dir {
        lemma_read_entries_suffice(config, entry.children, false);
    }
}

/// The tree and the counters are the same whether they are built from
/// what is on disk or from what is read of it.
pub proof fn lemma_read_entries_suffice(
    config: TreeGeneratorConfig,
    entries: Seq<Node>,
    is_root: bool,
)
    ensures
        config.expand_all(read_entries(config, entries, is_root), is_root) == config.expand_all(
            entries,
            is_root,
        ),
        config.tally_all(read_entries(config, entries, is_root), is_root) == config.tally_all(
            entries,
            is_root,
        ),
    decreases entries, 1nat,
{
    if entries.len() > 0 {
        lemma_read_entries_suffice(config, entries.drop_last(), is_root);
        lemma_read_entry_suffices(config, entries.last(), is_root);
        let read = read_entries(config, entries.drop_last(), is_root);
        assert(read.push(read_entry(config, entries.last(), is_root)).drop_last() =~= read);
    }
}

/// Reading step by step and then building gives the tree and the counters
/// of what is on disk: a scanner that has finished reading `world` holds a
/// listing from which the same tree is built, with the same counters, as
/// from `world` itself.
pub proof fn lemma_scan_then_generate(
    config: TreeGeneratorConfig,
    scanner: Scanner,
    world: Seq<Node>,
)
    requires
        scanner.reads(config, world),
        scanner.is_finished(),
    ensures
        config.expand_all(nodes_of(scanner.top.done@), true) == config.expand_all(world, true),
        config.tally_all(nodes_of(scanner.top.done@), true) == config.tally_all(world, true),
{
    lemma_finished_listing(config, scanner, world);
    lemma_read_entries_suffice(config, world, true);
}

} // verus!
