use dirtree::tree_generator::{Tree, TreeItem};
use dirtree::tree_renderer::{Color, Hue, TreeRendererCLI, TreeRendererConfig};

#[test]
fn paint_with_colors_wraps_the_colored_parts() {
    colored::control::set_override(true);
    let tree = Tree {
        files: vec![TreeItem {
            file: "root".to_string(),
            metadata: None,
            is_dir: true,
            files: vec![
                TreeItem { file: "d".to_string(), metadata: None, is_dir: true, files: vec![] },
                TreeItem { file: "f".to_string(), metadata: None, is_dir: false, files: vec![] },
            ],
        }],
    };
    let mut c = TreeRendererConfig::default();
    c.tree_spacer = "..".to_string();
    c.display_file_size = true;
    c.display_permissions = true;
    c.color_file = Color::Bright(Hue::Green);
    c.color_file_size = Color::Bright(Hue::Cyan);
    c.color_directory = Color::TrueColor { r: 69, g: 69, b: 69 };
    c.color_permissions = Color::Normal(Hue::Red);
    let mut r = TreeRendererCLI::new();
    let lines = r.render(tree, c);
    let painted = r.paint(&lines);
    // how a color given by its parts is written depends on the terminal
    assert!(painted[0].starts_with("\u{1b}["));
    assert!(painted[0].ends_with("md\u{1b}[0m..\u{1b}[31m-\u{1b}[0m..\u{1b}[96m-\u{1b}[0m\n"));
    assert_eq!(painted[1], "\u{1b}[92mf\u{1b}[0m..\u{1b}[31m-\u{1b}[0m..\u{1b}[96m-\u{1b}[0m\n");
}

#[test]
fn paint_takes_the_color_up_again_after_an_ending_sequence_in_a_name() {
    colored::control::set_override(true);
    let tree = Tree {
        files: vec![TreeItem {
            file: "root".to_string(),
            metadata: None,
            is_dir: true,
            files: vec![TreeItem {
                file: "a\u{1b}[0mb".to_string(),
                metadata: None,
                is_dir: false,
                files: vec![],
            }],
        }],
    };
    let mut c = TreeRendererConfig::default();
    c.color_file = Color::Normal(Hue::Yellow);
    let mut r = TreeRendererCLI::new();
    let lines = r.render(tree, c);
    assert_eq!(r.paint_line(&lines[0]), "\u{1b}[33ma\u{1b}[0m\u{1b}[33mb\u{1b}[0m\n");
}
