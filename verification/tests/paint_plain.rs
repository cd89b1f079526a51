use dirtree::tree_generator::{Tree, TreeItem};
use dirtree::tree_renderer::{TreeRendererCLI, TreeRendererConfig};

#[test]
fn paint_without_colors_writes_the_text_as_it_is() {
    colored::control::set_override(false);
    let tree = Tree {
        files: vec![TreeItem {
            file: "root".to_string(),
            metadata: None,
            is_dir: true,
            files: vec![TreeItem {
                file: "d".to_string(),
                metadata: None,
                is_dir: true,
                files: vec![TreeItem {
                    file: "f".to_string(),
                    metadata: None,
                    is_dir: false,
                    files: vec![],
                }],
            }],
        }],
    };
    let mut c = TreeRendererConfig::default();
    c.display_file_size = true;
    let mut r = TreeRendererCLI::new();
    let lines = r.render(tree, c);
    assert_eq!(r.paint(&lines), vec!["d  -\n".to_string(), "  f  -\n".to_string()]);
    assert_eq!(r.paint_line(&lines[0]), "d  -\n");
}
