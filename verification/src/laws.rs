//! What holds of every listing and every layout.

use crate::tree_generator::{
    is_hidden, only_directories, FileMetadata, Node, Tally, TreeGeneratorConfig,
};
use crate::tree_renderer::{
    dash, last_modified_text, permissions_text, size_text, TreeRendererConfig,
};
use vstd::prelude::*;

verus! {

/// Listing one entry counts that entry once, in exactly one counter, and
/// every entry visited below it. An entry that is left out adds one to the
/// ignored entries and nothing else.
pub proof fn lemma_entry_counted_once(config: TreeGeneratorConfig, entry: Node, is_root: bool)
    ensures
        config.tally(entry, is_root).total() == 1 + config.visited_below(entry, is_root),
        config.expand(entry, is_root) is None ==> config.tally(entry, is_root)
            == Tally::one_ignored(),
    decreases entry, 0nat,
{
    if !config.rejects_name(entry.name, is_root) && entry.is_dir {
        lemma_entries_counted_once(config, entry.children, false);
    }
}

/// Counting more never lowers a counter.
pub proof fn lemma_counters_never_fall(before: Tally, added: Tally)
    ensures
        before.at_most(before.plus(added)),
{
}

/// The three counters together are the number of entries visited.
pub proof fn lemma_entries_counted_once(
    config: TreeGeneratorConfig,
    entries: Seq<Node>,
    is_root: bool,
)
    ensures
        config.tally_all(entries, is_root).total() == config.visited_all(entries, is_root),
    decreases entries, 1nat,
{
    if entries.len() > 0 {
        lemma_entries_counted_once(config, entries.drop_last(), is_root);
        lemma_entry_counted_once(config, entries.last(), is_root);
    }
}

/// Visiting the roots visits each root and what is visited below it.
pub proof fn lemma_visited_roots(config: TreeGeneratorConfig, roots: Seq<Node>)
    ensures
        config.visited_all(roots, true) == roots.len() + config.visited_below_roots(roots),
    decreases roots.len(),
{
    if roots.len() > 0 {
        lemma_visited_roots(config, roots.drop_last());
    }
}

/// After a run, files, directories and ignored entries together are the
/// number of roots and the number of entries visited below them: a root
/// is counted once, as a file, a directory or an ignored entry, like any
/// other entry that is visited.
pub proof fn lemma_counters_sum_to_visited(config: TreeGeneratorConfig, roots: Seq<Node>)
    ensures
        config.tally_all(roots, true).total() == roots.len() + config.visited_below_roots(
            roots,
        ),
{
    lemma_entries_counted_once(config, roots, true);
    lemma_visited_roots(config, roots);
}

/// The hidden-file rule: below a root a name that begins with a dot is
/// left out unless hidden entries are asked for, and then only the exclude
/// pattern can leave it out; a root is never left out for its dot.
pub proof fn lemma_hidden_filter(config: TreeGeneratorConfig, name: Seq<char>)
    ensures
        is_hidden(name) && !config.all_files ==> config.rejects_name(name, false),
        config.all_files ==> config.rejects_name(name, false) == config.excludes(name),
        config.rejects_name(name, true) == config.excludes(name),
{
}

/// With directories only, what is kept of an entry holds no file, and no
/// file is counted.
pub proof fn lemma_directories_only_entry(
    config: TreeGeneratorConfig,
    entry: Node,
    is_root: bool,
)
    requires
        config.directories_only,
    ensures
        config.expand(entry, is_root) matches Some(node) ==> only_directories(node),
        config.tally(entry, is_root).files == 0,
    decreases entry, 0nat,
{
    if !config.rejects_name(entry.name, is_root) && entry.is_dir {
        lemma_directories_only(config, entry.children, false);
        let node = config.expand(entry, is_root).unwrap();
        assert(node.children == config.expand_all(entry.children, false));
        assert forall|i: int| 0 <= i < node.children.len() implies only_directories(
            #[trigger] node.children[i],
        ) by {
            assert(only_directories(config.expand_all(entry.children, false)[i]));
        }
        assert(only_directories(node));
    }
}

/// With directories only, no node of the tree that is built is a file,
/// and the counter of files stays at zero.
pub proof fn lemma_directories_only(config: TreeGeneratorConfig, entries: Seq<Node>, is_root: bool)
    requires
        config.directories_only,
    ensures
        forall|i: int|
            0 <= i < config.expand_all(entries, is_root).len() ==> only_directories(
                #[trigger] config.expand_all(entries, is_root)[i],
            ),
        config.tally_all(entries, is_root).files == 0,
    decreases entries, 1nat,
{
    if entries.len() > 0 {
        lemma_directories_only(config, entries.drop_last(), is_root);
        lemma_directories_only_entry(config, entries.last(), is_root);
        let kept = config.expand_all(entries.drop_last(), is_root);
        let all = config.expand_all(entries, is_root);
        assert forall|i: int| 0 <= i < all.len() implies only_directories(#[trigger] all[i]) by {
            if i < kept.len() {
                assert(all[i] == kept[i]);
                assert(only_directories(kept[i]));
            }
        }
    }
}

/// Whether `node` and all that is below it have passed the filters of
/// `config`: no name is left out, no file is there where only directories
/// are wanted, no file has entries below it, and metadata is there only
/// where it is wanted.
pub open spec fn passed_filters(config: TreeGeneratorConfig, node: Node, is_root: bool) -> bool
    decreases node,
{
    &&& !config.rejects_name(node.name, is_root)
    &&& config.directories_only ==> node.is_dir
    &&& !node.is_dir ==> node.children.len() == 0
    &&& !config.include_metadata ==> node.metadata is None
    &&& forall|i: int|
        0 <= i < node.children.len() ==> passed_filters(config, #[trigger] node.children[i], false)
}

/// What is kept of an entry has passed the filters.
pub proof fn lemma_kept_entry_passed_filters(
    config: TreeGeneratorConfig,
    entry: Node,
    is_root: bool,
)
    ensures
        config.expand(entry, is_root) matches Some(node) ==> passed_filters(config, node, is_root),
    decreases entry, 0nat,
{
    if config.expand(entry, is_root) is Some {
        let node = config.expand(entry, is_root).unwrap();
        if entry.is_dir {
            lemma_kept_passed_filters(config, entry.children, false);
            assert(node.children == config.expand_all(entry.children, false));
            assert forall|i: int| 0 <= i < node.children.len() implies passed_filters(
                config,
                #[trigger] node.children[i],
                false,
            ) by {
                assert(passed_filters(config, config.expand_all(entry.children, false)[i], false));
            }
        }
        assert(passed_filters(config, node, is_root));
    }
}

/// Every node of a tree that is built has passed the filters.
pub proof fn lemma_kept_passed_filters(
    config: TreeGeneratorConfig,
    entries: Seq<Node>,
    is_root: bool,
)
    ensures
        forall|i: int|
            0 <= i < config.expand_all(entries, is_root).len() ==> passed_filters(
                config,
                #[trigger] config.expand_all(entries, is_root)[i],
                is_root,
            ),
    decreases entries, 1nat,
{
    if entries.len() > 0 {
        lemma_kept_passed_filters(config, entries.drop_last(), is_root);
        lemma_kept_entry_passed_filters(config, entries.last(), is_root);
        let kept = config.expand_all(entries.drop_last(), is_root);
        let all = config.expand_all(entries, is_root);
        assert forall|i: int| 0 <= i < all.len() implies passed_filters(
            config,
            #[trigger] all[i],
            is_root,
        ) by {
            if i < kept.len() {
                assert(all[i] == kept[i]);
                assert(passed_filters(config, kept[i], is_root));
            }
        }
    }
}

/// Whether no filter is active: hidden entries are listed, files are
/// listed, and no exclude pattern is applied.
pub open spec fn keeps_everything(config: TreeGeneratorConfig) -> bool {
    config.all_files && !config.directories_only && !config.use_regex
}

/// With no filter active, an entry is kept, and its lines are one for
/// itself and one for each entry visited below it.
pub proof fn lemma_lines_of_entry(
    config: TreeGeneratorConfig,
    layout: TreeRendererConfig,
    entry: Node,
    is_root: bool,
    depth: nat,
    before: Seq<Seq<char>>,
)
    requires
        keeps_everything(config),
    ensures
        config.expand(entry, is_root) is Some,
        layout.render_item(config.expand(entry, is_root).unwrap(), depth, before).len() == 1
            + config.visited_below(entry, is_root),
        layout.render_items(
            config.expand(entry, is_root).unwrap().children,
            depth,
            before,
        ).len() == config.visited_below(entry, is_root),
    decreases entry, 0nat,
{
    let node = config.expand(entry, is_root).unwrap();
    if entry.is_dir {
        lemma_lines_of_entries(config, layout, entry.children, depth, before);
        lemma_lines_of_entries(
            config,
            layout,
            entry.children,
            depth + 1,
            layout.below(node, before),
        );
    } else {
        assert(layout.render_items(node.children, depth, before).len() == 0);
        assert(layout.render_items(node.children, depth + 1, layout.below(node, before)).len()
            == 0);
    }
}

/// With no filter active, the entries below a directory give one line for
/// each entry visited.
pub proof fn lemma_lines_of_entries(
    config: TreeGeneratorConfig,
    layout: TreeRendererConfig,
    entries: Seq<Node>,
    depth: nat,
    before: Seq<Seq<char>>,
)
    requires
        keeps_everything(config),
    ensures
        layout.render_items(config.expand_all(entries, false), depth, before).len()
            == config.visited_all(entries, false),
    decreases entries, 1nat,
{
    if entries.len() > 0 {
        lemma_lines_of_entries(config, layout, entries.drop_last(), depth, before);
        lemma_lines_of_entry(config, layout, entries.last(), false, depth, before);
        let kept = config.expand_all(entries.drop_last(), false);
        let node = config.expand(entries.last(), false).unwrap();
        assert(kept.push(node).drop_last() =~= kept);
    }
}

/// Building a tree with no filter active and laying it out gives exactly
/// one line for each entry visited below the roots.
pub proof fn lemma_one_line_per_entry(
    config: TreeGeneratorConfig,
    layout: TreeRendererConfig,
    roots: Seq<Node>,
)
    requires
        keeps_everything(config),
    ensures
        layout.render_tree(config.expand_all(roots, true)).len() == config.visited_below_roots(
            roots,
        ),
    decreases roots.len(),
{
    if roots.len() > 0 {
        lemma_one_line_per_entry(config, layout, roots.drop_last());
        lemma_lines_of_entry(config, layout, roots.last(), true, 0, Seq::empty());
        let kept = config.expand_all(roots.drop_last(), true);
        let node = config.expand(roots.last(), true).unwrap();
        assert(kept.push(node).drop_last() =~= kept);
    }
}

/// Top to bottom an entry's own line comes before the lines of all that
/// is below it; bottom to top it comes after them. Either way the entry
/// adds one line to those of what is below it.
pub proof fn lemma_own_line_position(
    layout: TreeRendererConfig,
    node: Node,
    depth: nat,
    before: Seq<Seq<char>>,
)
    ensures
        layout.render_item(node, depth, before).len() == 1 + layout.render_items(
            node.children,
            depth + 1,
            layout.below(node, before),
        ).len(),
        !layout.reverse_bottom_top ==> layout.render_item(node, depth, before).first()
            == layout.line(node, depth, before) && layout.render_item(node, depth, before).skip(1)
            == layout.render_items(node.children, depth + 1, layout.below(node, before)),
        layout.reverse_bottom_top ==> layout.render_item(node, depth, before).last()
            == layout.line(node, depth, before) && layout.render_item(
            node,
            depth,
            before,
        ).drop_last() == layout.render_items(
            node.children,
            depth + 1,
            layout.below(node, before),
        ),
{
    let inner = layout.render_items(node.children, depth + 1, layout.below(node, before));
    if layout.reverse_bottom_top {
        assert(layout.render_item(node, depth, before).drop_last() =~= inner);
    } else {
        assert(layout.render_item(node, depth, before).skip(1) =~= inner);
    }
}

/// With no column asked for, a line is what leads it and the name.
pub proof fn lemma_no_columns(
    layout: TreeRendererConfig,
    node: Node,
    depth: nat,
    before: Seq<Seq<char>>,
)
    requires
        !layout.display_permissions,
        !layout.display_file_size,
        !layout.display_last_modified,
    ensures
        layout.line(node, depth, before) == layout.lead(depth, before).push(
            layout.name_span(node),
        ),
{
}

/// An entry without metadata shows a dash in each column, whatever the
/// unit of size.
pub proof fn lemma_missing_metadata(block_size: Seq<char>)
    ensures
        permissions_text(None::<FileMetadata>) == dash(),
        size_text(None::<FileMetadata>, block_size) == dash(),
        last_modified_text(None::<FileMetadata>) == dash(),
{
}

} // verus!
