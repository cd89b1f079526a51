use dirtree::text::{to_decimal, to_octal};
use dirtree::tree_generator::{
    FileMetadata, Tree, TreeGenerator, TreeGeneratorConfig, TreeGeneratorStats, TreeItem,
};
use dirtree::tree_renderer::{
    timestamp_or_dash, Color, Hue, Line, Tint, TreeRendererCLI, TreeRendererConfig,
};

fn file(name: &str) -> TreeItem {
    TreeItem { file: name.to_string(), metadata: None, files: Vec::new(), is_dir: false }
}

fn dir(name: &str, files: Vec<TreeItem>) -> TreeItem {
    TreeItem { file: name.to_string(), metadata: None, files, is_dir: true }
}

fn regular(len: u64) -> FileMetadata {
    FileMetadata {
        mode: 0o100644,
        is_symlink: false,
        is_dir: false,
        is_char_device: false,
        is_block_device: false,
        is_fifo: false,
        is_socket: false,
        len,
        modified: Some(1431648000),
    }
}

fn with_meta(name: &str, metadata: FileMetadata) -> TreeItem {
    TreeItem { file: name.to_string(), metadata: Some(metadata), files: Vec::new(), is_dir: false }
}

fn plain(line: &Line) -> String {
    let mut s = String::new();
    for span in &line.spans {
        s.push_str(&span.text);
    }
    s
}

fn texts(lines: &Vec<Line>) -> Vec<String> {
    lines.iter().map(plain).collect()
}

fn renderer_with_unit(unit: &str) -> TreeRendererCLI {
    let mut r = TreeRendererCLI::new();
    r.config.block_size = unit.to_string();
    r
}

fn nested() -> Tree {
    // root / D / S / F
    Tree { files: vec![dir("root", vec![dir("D", vec![dir("S", vec![file("F")])])])] }
}

#[test]
fn decimal_and_octal_numerals() {
    assert_eq!(to_decimal(0), "0");
    assert_eq!(to_decimal(7), "7");
    assert_eq!(to_decimal(10), "10");
    assert_eq!(to_decimal(2097152), "2097152");
    assert_eq!(to_decimal(u64::MAX), "18446744073709551615");
    assert_eq!(to_octal(0), "0");
    assert_eq!(to_octal(8), "10");
    assert_eq!(to_octal(0o100644), "100644");
    assert_eq!(to_octal(u32::MAX), "37777777777");
}

#[test]
fn default_layout() {
    let c = TreeRendererConfig::default();
    assert_eq!(c.tree_spacer, "  ");
    assert!(!c.display_permissions);
    assert!(!c.display_file_size);
    assert!(!c.display_last_modified);
    assert!(!c.reverse_bottom_top);
    assert!(!c.print_all_file);
    assert_eq!(c.block_size, "B");
    assert_eq!(c.color_file, Color::Normal(Hue::White));
    assert_eq!(c.color_directory, Color::Normal(Hue::Blue));
    assert_eq!(c.color_last_modified, Color::Normal(Hue::White));
    assert_eq!(c.color_permissions, Color::Normal(Hue::White));
    assert_eq!(c.color_file_size, Color::Normal(Hue::White));
    assert_eq!(c.color_ignored, Color::Normal(Hue::Red));
}

#[test]
fn new_renderer_holds_one_nameless_root() {
    let r = TreeRendererCLI::new();
    assert_eq!(r.tree.files, vec![file("")]);
    assert_eq!(r.config.tree_spacer, "  ");
}

#[test]
fn color_for_each_part() {
    let mut c = TreeRendererConfig::default();
    c.color_permissions = Color::TrueColor { r: 69, g: 69, b: 69 };
    c.color_file_size = Color::Bright(Hue::Red);
    assert_eq!(c.color_for(Tint::Plain), None);
    assert_eq!(c.color_for(Tint::Directory), Some(Color::Normal(Hue::Blue)));
    assert_eq!(c.color_for(Tint::File), Some(Color::Normal(Hue::White)));
    assert_eq!(c.color_for(Tint::Permissions), Some(Color::TrueColor { r: 69, g: 69, b: 69 }));
    assert_eq!(c.color_for(Tint::FileSize), Some(Color::Bright(Hue::Red)));
    assert_eq!(c.color_for(Tint::LastModified), Some(Color::Normal(Hue::White)));
    assert_eq!(c.color_for(Tint::Ignored), Some(Color::Normal(Hue::Red)));
}

#[test]
fn size_in_each_unit() {
    let item = with_meta("f", regular(2097152));
    assert_eq!(renderer_with_unit("M").format_file_size(&item), "2M");
    assert_eq!(renderer_with_unit("m").format_file_size(&item), "2M");
    assert_eq!(renderer_with_unit("K").format_file_size(&item), "2048K");
    assert_eq!(renderer_with_unit("k").format_file_size(&item), "2048K");
    assert_eq!(renderer_with_unit("G").format_file_size(&item), "0G");
    assert_eq!(renderer_with_unit("g").format_file_size(&item), "0G");
    assert_eq!(renderer_with_unit("B").format_file_size(&item), "2097152B");
    assert_eq!(renderer_with_unit("").format_file_size(&item), "2097152B");
    assert_eq!(renderer_with_unit("MB").format_file_size(&item), "2097152B");
    assert_eq!(TreeRendererCLI::new().format_file_size(&item), "2097152B");
}

#[test]
fn size_division_truncates() {
    let item = with_meta("f", regular(3 * 1073741824 - 1));
    assert_eq!(renderer_with_unit("G").format_file_size(&item), "2G");
    assert_eq!(renderer_with_unit("M").format_file_size(&item), "3071M");
    let item = with_meta("f", regular(1023));
    assert_eq!(renderer_with_unit("K").format_file_size(&item), "0K");
}

#[test]
fn permissions_show_kind_and_octal_mode() {
    let r = TreeRendererCLI::new();
    assert_eq!(r.format_file_permissions(&with_meta("f", regular(1))), "-644");
    let mut m = regular(1);
    m.mode = 0o40755;
    m.is_dir = true;
    assert_eq!(r.format_file_permissions(&with_meta("d", m)), "d755");
    m.is_symlink = true;
    assert_eq!(r.format_file_permissions(&with_meta("l", m)), "l755");
    let mut m = regular(1);
    m.mode = 0o104755;
    assert_eq!(r.format_file_permissions(&with_meta("f", m)), "-4755");
    m.mode = 0o100000;
    assert_eq!(r.format_file_permissions(&with_meta("f", m)), "-0");
    m.mode = u32::MAX;
    assert_eq!(r.format_file_permissions(&with_meta("f", m)), "-7777");
    let mut m = regular(1);
    m.mode = 0;
    m.is_socket = true;
    assert_eq!(r.format_file_permissions(&with_meta("s", m)), "s0");
    m.is_fifo = true;
    assert_eq!(r.format_file_permissions(&with_meta("p", m)), "p0");
    m.is_block_device = true;
    assert_eq!(r.format_file_permissions(&with_meta("b", m)), "b0");
    m.is_char_device = true;
    assert_eq!(r.format_file_permissions(&with_meta("c", m)), "c0");
}

#[test]
fn last_modified_is_written_in_utc() {
    let r = TreeRendererCLI::new();
    assert_eq!(r.format_last_modified(&with_meta("f", regular(1))), "2015-05-15 00:00:00");
    let mut m = regular(1);
    m.modified = Some(0);
    assert_eq!(r.format_last_modified(&with_meta("f", m)), "1970-01-01 00:00:00");
    m.modified = Some(-1);
    assert_eq!(r.format_last_modified(&with_meta("f", m)), "1969-12-31 23:59:59");
    m.modified = Some(1700000000);
    assert_eq!(r.format_last_modified(&with_meta("f", m)), "2023-11-14 22:13:20");
}

#[test]
fn last_modified_degrades_to_a_dash() {
    let r = TreeRendererCLI::new();
    let mut m = regular(1);
    m.modified = None;
    assert_eq!(r.format_last_modified(&with_meta("f", m)), "-");
    m.modified = Some(i64::MAX);
    assert_eq!(r.format_last_modified(&with_meta("f", m)), "-");
    assert_eq!(timestamp_or_dash(None), "-");
    assert_eq!(timestamp_or_dash(Some("now".to_string())), "now");
}

#[test]
fn missing_metadata_renders_dashes() {
    for unit in ["", "B", "K", "M", "G", "g"] {
        let r = renderer_with_unit(unit);
        assert_eq!(r.format_file_permissions(&file("f")), "-");
        assert_eq!(r.format_file_size(&file("f")), "-");
        assert_eq!(r.format_last_modified(&file("f")), "-");
    }
    let mut c = TreeRendererConfig::default();
    c.display_permissions = true;
    c.display_file_size = true;
    c.display_last_modified = true;
    c.block_size = "M".to_string();
    let lines = TreeRendererCLI::new().render(Tree { files: vec![dir("root", vec![file("f")])] }, c);
    assert_eq!(texts(&lines), vec!["f  -  -  -".to_string()]);
}

#[test]
fn top_to_bottom_order() {
    let lines = TreeRendererCLI::new().render(nested(), TreeRendererConfig::default());
    assert_eq!(texts(&lines), vec!["D".to_string(), "  S".to_string(), "    F".to_string()]);
}

#[test]
fn bottom_to_top_order() {
    let mut c = TreeRendererConfig::default();
    c.reverse_bottom_top = true;
    let lines = TreeRendererCLI::new().render(nested(), c);
    assert_eq!(texts(&lines), vec!["    F".to_string(), "  S".to_string(), "D".to_string()]);
}

#[test]
fn reverse_keeps_the_order_of_siblings() {
    let tree = Tree {
        files: vec![dir("root", vec![dir("a", vec![file("x"), file("y")]), file("b")])],
    };
    let mut c = TreeRendererConfig::default();
    c.reverse_bottom_top = true;
    let lines = TreeRendererCLI::new().render(tree, c);
    assert_eq!(texts(&lines), vec!["  x", "  y", "a", "b"]);
}

#[test]
fn roots_are_not_shown() {
    let tree = Tree { files: vec![dir("one", vec![file("a")]), file("two"), dir("three", vec![])] };
    let lines = TreeRendererCLI::new().render(tree, TreeRendererConfig::default());
    assert_eq!(texts(&lines), vec!["a"]);
    let lines = TreeRendererCLI::new().render(Tree { files: vec![] }, TreeRendererConfig::default());
    assert!(lines.is_empty());
}

#[test]
fn render_takes_over_tree_and_layout() {
    let mut r = TreeRendererCLI::new();
    let mut c = TreeRendererConfig::default();
    c.tree_spacer = "--".to_string();
    let lines = r.render(nested(), c);
    assert_eq!(texts(&lines), vec!["D", "--S", "----F"]);
    assert_eq!(r.tree, nested());
    assert_eq!(r.config.tree_spacer, "--");
}

#[test]
fn spans_carry_their_parts() {
    let mut c = TreeRendererConfig::default();
    c.display_permissions = true;
    c.display_file_size = true;
    c.display_last_modified = true;
    c.block_size = "K".to_string();
    let tree = Tree { files: vec![dir("root", vec![dir("d", vec![with_meta("f", regular(4096))])])] };
    let lines = TreeRendererCLI::new().render(tree, c);
    assert_eq!(texts(&lines), vec!["d  -  -  -", "  f  -644  4K  2015-05-15 00:00:00"]);
    let tints: Vec<Tint> = lines[1].spans.iter().map(|s| s.tint).collect();
    assert_eq!(
        tints,
        vec![
            Tint::Plain,
            Tint::File,
            Tint::Plain,
            Tint::Permissions,
            Tint::Plain,
            Tint::FileSize,
            Tint::Plain,
            Tint::LastModified
        ]
    );
    assert_eq!(lines[0].spans[1].tint, Tint::Directory);
    assert_eq!(lines[0].spans[1].text, "d");
}

#[test]
fn single_columns() {
    let tree = || Tree { files: vec![dir("root", vec![with_meta("f", regular(10))])] };
    let mut c = TreeRendererConfig::default();
    c.display_file_size = true;
    assert_eq!(texts(&TreeRendererCLI::new().render(tree(), c)), vec!["f  10B"]);
    let mut c = TreeRendererConfig::default();
    c.display_last_modified = true;
    assert_eq!(texts(&TreeRendererCLI::new().render(tree(), c)), vec!["f  2015-05-15 00:00:00"]);
    let mut c = TreeRendererConfig::default();
    c.display_permissions = true;
    assert_eq!(texts(&TreeRendererCLI::new().render(tree(), c)), vec!["f  -644"]);
}

#[test]
fn names_of_directories_above_lead_the_line() {
    let mut c = TreeRendererConfig::default();
    c.print_all_file = true;
    c.tree_spacer = "/".to_string();
    let tree = Tree {
        files: vec![dir("root", vec![dir("D", vec![dir("S", vec![file("F")]), file("G")])])],
    };
    let lines = TreeRendererCLI::new().render(tree, c);
    assert_eq!(texts(&lines), vec!["D", "D/S", "D/S/F", "D/G"]);
    assert_eq!(lines[2].spans[0].tint, Tint::Directory);
    assert_eq!(lines[2].spans[1].tint, Tint::Plain);
    assert_eq!(lines[2].spans[4].tint, Tint::File);
}

#[test]
fn names_above_in_reverse_are_those_of_the_directories_above() {
    let mut c = TreeRendererConfig::default();
    c.print_all_file = true;
    c.reverse_bottom_top = true;
    c.tree_spacer = "/".to_string();
    let lines = TreeRendererCLI::new().render(nested(), c);
    assert_eq!(texts(&lines), vec!["D/S/F", "D/S", "D"]);
}

#[test]
fn one_line_per_entry_without_filters() {
    let listing = Tree {
        files: vec![
            dir("one", vec![file(".hidden"), dir("sub", vec![file("a"), file("b")]), file("c")]),
            dir("two", vec![dir(".git", vec![file("HEAD")])]),
            file("three"),
        ],
    };
    let mut c = TreeGeneratorConfig::default();
    c.all_files = true;
    let mut g = TreeGenerator::new();
    let tree = g.generate(c, &listing);
    let lines = TreeRendererCLI::new().render(tree, TreeRendererConfig::default());
    assert_eq!(lines.len(), 7);
    let total = (g.stats.files + g.stats.directories + g.stats.ignored) as usize;
    assert_eq!(lines.len(), total - listing.files.len());
    for line in &lines {
        assert_eq!(line.spans.len(), 2);
    }
    assert_eq!(
        texts(&lines),
        vec![".hidden", "sub", "  a", "  b", "c", ".git", "  HEAD"]
    );
}

#[test]
fn from_args_shows_all_columns_with_long() {
    let c = TreeRendererConfig::from_args("K".to_string(), true, true, "--".to_string());
    assert_eq!(c.block_size, "K");
    assert_eq!(c.tree_spacer, "--");
    assert!(c.display_permissions && c.display_file_size && c.display_last_modified);
    assert!(c.reverse_bottom_top);
    assert!(!c.print_all_file);
    let gray = Color::TrueColor { r: 69, g: 69, b: 69 };
    assert_eq!(c.color_file, Color::Normal(Hue::White));
    assert_eq!(c.color_directory, Color::Normal(Hue::Blue));
    assert_eq!((c.color_permissions, c.color_file_size, c.color_last_modified), (gray, gray, gray));
    assert_eq!(c.color_ignored, Color::Normal(Hue::Red));

    let c = TreeRendererConfig::from_args(String::new(), false, false, "  ".to_string());
    assert!(!c.display_permissions && !c.display_file_size && !c.display_last_modified);
    assert!(!c.reverse_bottom_top);
    assert_eq!(c.block_size, "");
}

#[test]
fn summary_names_the_three_counts() {
    let stats = TreeGeneratorStats { files: 12, directories: 3, ignored: 65535 };
    let line = TreeRendererCLI::new().render_summary(&stats);
    assert_eq!(plain(&line), "directories: 3  files: 12  ignored: 65535");
    let tints: Vec<Tint> = line.spans.iter().map(|s| s.tint).collect();
    assert_eq!(
        tints,
        vec![Tint::Plain, Tint::Directory, Tint::Plain, Tint::File, Tint::Plain, Tint::Ignored]
    );
    let line = TreeRendererCLI::new().render_summary(&TreeGeneratorStats::new());
    assert_eq!(plain(&line), "directories: 0  files: 0  ignored: 0");
}
