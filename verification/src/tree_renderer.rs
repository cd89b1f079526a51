//! Lays a tree out as lines: one line for each entry below a root, led by
//! its indentation or by the names of the directories above it, and
//! followed by the columns that were asked for.

use crate::text::{clone_names, decimal, names_of, octal, push_name, to_decimal, to_octal};
use crate::tree_generator::{
    lemma_view_children, nodes_of, FileMetadata, Node, Tally, Tree, TreeGeneratorStats, TreeItem,
};
use vstd::prelude::*;
use vstd::string::*;

verus! {

/// One of the eight terminal colors.
#[derive(Clone, Copy, Debug, PartialEq, Eq, Structural)]
pub enum Hue {
    Black,
    Red,
    Green,
    Yellow,
    Blue,
    Magenta,
    Cyan,
    White,
}

/// A color in which a part of a line is shown.
#[derive(Clone, Copy, Debug, PartialEq, Eq, Structural)]
pub enum Color {
    Normal(Hue),
    Bright(Hue),
    TrueColor { r: u8, g: u8, b: u8 },
}

/// What a part of a line is, which decides its color.
#[derive(Clone, Copy, Debug, PartialEq, Eq, Structural)]
pub enum Tint {
    /// Indentation and the space between columns: never colored.
    Plain,
    Directory,
    File,
    Permissions,
    FileSize,
    LastModified,
    /// The count of the entries that were left out.
    Ignored,
}

/// A part of a line.
#[derive(Debug, PartialEq, Eq)]
pub struct Span {
    pub text: String,
    pub tint: Tint,
}

/// The mathematical form of a [`Span`].
pub struct SpanModel {
    pub text: Seq<char>,
    pub tint: Tint,
}

impl View for Span {
    type V = SpanModel;

    open spec fn view(&self) -> SpanModel {
        SpanModel { text: self.text@, tint: self.tint }
    }
}

/// The spans that `spans` stand for.
pub open spec fn spans_of(spans: Seq<Span>) -> Seq<SpanModel> {
    Seq::new(spans.len(), |i: int| spans[i]@)
}

/// One line of the output, without its line end.
#[derive(Debug, PartialEq, Eq)]
pub struct Line {
    pub spans: Vec<Span>,
}

impl View for Line {
    type V = Seq<SpanModel>;

    open spec fn view(&self) -> Seq<SpanModel> {
        spans_of(self.spans@)
    }
}

/// The lines that `lines` stand for.
pub open spec fn lines_of(lines: Seq<Line>) -> Seq<Seq<SpanModel>> {
    Seq::new(lines.len(), |i: int| lines[i]@)
}

/// What stands in a column when there is nothing to show.
pub open spec fn dash() -> Seq<char> {
    seq!['-']
}

/// `text` written `count` times in a row.
pub open spec fn repeat(text: Seq<char>, count: nat) -> Seq<char>
    decreases count,
{
    if count == 0 {
        Seq::empty()
    } else {
        repeat(text, (count - 1) as nat) + text
    }
}

/// Whether `block_size` is the letter `upper` or the letter `lower`.
pub open spec fn unit_is(block_size: Seq<char>, upper: char, lower: char) -> bool {
    block_size.len() == 1 && (block_size[0] == upper || block_size[0] == lower)
}

/// The number of bytes in one unit of `block_size`.
pub open spec fn size_divisor(block_size: Seq<char>) -> nat {
    if unit_is(block_size, 'G', 'g') {
        1073741824
    } else if unit_is(block_size, 'M', 'm') {
        1048576
    } else if unit_is(block_size, 'K', 'k') {
        1024
    } else {
        1
    }
}

/// The letter that follows a size in the unit `block_size`.
pub open spec fn size_suffix(block_size: Seq<char>) -> char {
    if unit_is(block_size, 'G', 'g') {
        'G'
    } else if unit_is(block_size, 'M', 'm') {
        'M'
    } else if unit_is(block_size, 'K', 'k') {
        'K'
    } else {
        'B'
    }
}

/// The size column: the whole units of `block_size` in the length, and the
/// unit's letter.
pub open spec fn size_text(metadata: Option<FileMetadata>, block_size: Seq<char>) -> Seq<char> {
    match metadata {
        Some(m) => decimal(m.len as nat / size_divisor(block_size)).push(
            size_suffix(block_size),
        ),
        None => dash(),
    }
}

/// The letter for the kind of an entry; the first kind that applies
/// decides.
pub open spec fn type_tag(m: FileMetadata) -> char {
    if m.is_symlink {
        'l'
    } else if m.is_dir {
        'd'
    } else if m.is_char_device {
        'c'
    } else if m.is_block_device {
        'b'
    } else if m.is_fifo {
        'p'
    } else if m.is_socket {
        's'
    } else {
        '-'
    }
}

/// The permission bits of a mode: its lowest twelve bits.
pub open spec fn permission_bits(mode: u32) -> nat {
    (mode % 4096) as nat
}

/// The permissions column: the kind's letter and the permission bits in
/// octal.
pub open spec fn permissions_text(metadata: Option<FileMetadata>) -> Seq<char> {
    match metadata {
        Some(m) => seq![type_tag(m)] + octal(permission_bits(m.mode)),
        None => dash(),
    }
}

/// The text `YYYY-MM-DD HH:MM:SS` of the moment `secs` seconds after
/// 1970-01-01 00:00:00 UTC, as `chrono` writes it, where `chrono` can hold
/// that moment.
pub uninterp spec fn utc_timestamp_text(secs: int) -> Option<Seq<char>>;

/// The text of a moment, or a dash where there is none.
pub open spec fn text_or_dash(formatted: Option<Seq<char>>) -> Seq<char> {
    match formatted {
        Some(text) => text,
        None => dash(),
    }
}

/// The column of the last change.
pub open spec fn last_modified_text(metadata: Option<FileMetadata>) -> Seq<char> {
    match metadata {
        Some(m) => match m.modified {
            Some(secs) => text_or_dash(utc_timestamp_text(secs as int)),
            None => dash(),
        },
        None => dash(),
    }
}

/// The line that sums a run up: the three counts, each after its label.
pub open spec fn summary_line(stats: Tally) -> Seq<SpanModel> {
    seq![
        SpanModel { text: "directories: "@, tint: Tint::Plain },
        SpanModel { text: decimal(stats.directories), tint: Tint::Directory },
        SpanModel { text: "  files: "@, tint: Tint::Plain },
        SpanModel { text: decimal(stats.files), tint: Tint::File },
        SpanModel { text: "  ignored: "@, tint: Tint::Plain },
        SpanModel { text: decimal(stats.ignored), tint: Tint::Ignored },
    ]
}

/// Calls `chrono::DateTime::from_timestamp` with no nanoseconds and writes
/// the moment with `chrono::DateTime::format`. The text depends on `secs`
/// alone; there is none where `from_timestamp` reports that `secs` is out
/// of its range.
#[verifier::external_body]
fn utc_text(secs: i64) -> (formatted: Option<String>)
    ensures
        match formatted {
            Some(text) => utc_timestamp_text(secs as int) == Some(text@),
            None => utc_timestamp_text(secs as int).is_none(),
        },
{
    match chrono::DateTime::from_timestamp(secs, 0) {
        Some(moment) => Some(moment.format("%Y-%m-%d %H:%M:%S").to_string()),
        None => None,
    }
}

/// The text of a moment, or a dash where there is none.
pub fn timestamp_or_dash(formatted: Option<String>) -> (text: String)
    ensures
        text@ == text_or_dash(
            match formatted {
                Some(t) => Some(t@),
                None => None,
            },
        ),
{
    match formatted {
        Some(text) => text,
        None => dash_string(),
    }
}

fn dash_string() -> (text: String)
    ensures
        text@ == dash(),
{
    proof {
        reveal_strlit("-");
    }
    let text: String = String::from_str("-");
    assert(text@ =~= dash());
    text
}

/// The only letter of `block_size`, if it is one letter long.
fn unit_letter(block_size: &str) -> (letter: Option<char>)
    ensures
        letter == if block_size@.len() == 1 {
            Some(block_size@[0])
        } else {
            None
        },
{
    if block_size.unicode_len() == 1 {
        Some(block_size.get_char(0))
    } else {
        None
    }
}

/// The character with which an escape sequence of a terminal begins.
pub open spec fn escape() -> char {
    '\u{1b}'
}

/// The escape sequence that ends a colored text.
pub open spec fn color_reset() -> Seq<char> {
    seq![escape(), '[', '0', 'm']
}

/// The digit that stands for `hue` in the code of a color.
pub open spec fn hue_digit(hue: Hue) -> char {
    match hue {
        Hue::Black => '0',
        Hue::Red => '1',
        Hue::Green => '2',
        Hue::Yellow => '3',
        Hue::Blue => '4',
        Hue::Magenta => '5',
        Hue::Cyan => '6',
        Hue::White => '7',
    }
}

/// The code of one of the sixteen named colors: `3` or, for a bright one,
/// `9`, and the digit of the hue.
pub open spec fn named_code(bright: bool, hue: Hue) -> Seq<char> {
    seq![if bright { '9' } else { '3' }, hue_digit(hue)]
}

/// The code of a color given by its parts: `38;2;` and the three parts in
/// decimal with `;` between them.
pub open spec fn parts_code(r: u8, g: u8, b: u8) -> Seq<char> {
    seq!['3', '8', ';', '2', ';'] + decimal(r as nat) + seq![';'] + decimal(g as nat) + seq![';']
        + decimal(b as nat)
}

/// Whether `code` is a code under which `color` is written. A named color
/// has one code. A color given by its parts is written by its parts where
/// the terminal can show them, and else as one of the named colors.
pub open spec fn is_code_of(color: Color, code: Seq<char>) -> bool {
    match color {
        Color::Normal(hue) => code == named_code(false, hue),
        Color::Bright(hue) => code == named_code(true, hue),
        Color::TrueColor { r, g, b } => code == parts_code(r, g, b) || exists|
            bright: bool,
            hue: Hue,
        | code == #[trigger] named_code(bright, hue),
    }
}

/// The escape sequence that sets the color with the code `code`.
pub open spec fn color_set(code: Seq<char>) -> Seq<char> {
    seq![escape(), '['] + code + seq!['m']
}

/// Whether `lead` can stand before a text in `color`: the sequence that
/// sets the color under one of its codes, or nothing, where colors were
/// switched off while the text was written.
pub open spec fn is_lead_of(color: Color, lead: Seq<char>) -> bool {
    lead.len() == 0 || exists|code: Seq<char>|
        is_code_of(color, code) && lead == #[trigger] color_set(code)
}

/// Whether `painted` is `text` as `colored` may write it in `color`: the
/// text as it is, where colors are off; or a lead that sets the color, a
/// body and the sequence that ends the color, where the body is the text
/// itself unless the text holds an escape character.
pub open spec fn shown_in_color(color: Color, text: Seq<char>, painted: Seq<char>) -> bool {
    painted == text || exists|lead: Seq<char>, body: Seq<char>|
        painted == #[trigger] (lead + body) + color_reset() && is_lead_of(color, lead) && (
        !text.contains(escape()) ==> body == text)
}

/// Calls `colored::Colorize::color` with one of the eight normal colors
/// and writes the result out. Whether colors are on depends on the
/// terminal and the environment. With colors off the text comes back as it
/// is. With colors on it comes back after the sequence that sets the
/// color, with the code that `colored::Color::to_fg_str` gives, and before
/// the sequence that ends it, and `colored` changes the text in between
/// only where the text itself holds the ending sequence.
#[verifier::external_body]
fn paint_normal(text: &str, hue: Hue) -> (painted: String)
    ensures
        shown_in_color(Color::Normal(hue), text@, painted@),
{
    let color = match hue {
        Hue::Black => colored::Color::Black,
        Hue::Red => colored::Color::Red,
        Hue::Green => colored::Color::Green,
        Hue::Yellow => colored::Color::Yellow,
        Hue::Blue => colored::Color::Blue,
        Hue::Magenta => colored::Color::Magenta,
        Hue::Cyan => colored::Color::Cyan,
        Hue::White => colored::Color::White,
    };
    colored::Colorize::color(text, color).to_string()
}

/// Calls `colored::Colorize::color` with one of the eight bright colors
/// and writes the result out. The same is claimed of the result as for the
/// normal colors.
#[verifier::external_body]
fn paint_bright(text: &str, hue: Hue) -> (painted: String)
    ensures
        shown_in_color(Color::Bright(hue), text@, painted@),
{
    let color = match hue {
        Hue::Black => colored::Color::BrightBlack,
        Hue::Red => colored::Color::BrightRed,
        Hue::Green => colored::Color::BrightGreen,
        Hue::Yellow => colored::Color::BrightYellow,
        Hue::Blue => colored::Color::BrightBlue,
        Hue::Magenta => colored::Color::BrightMagenta,
        Hue::Cyan => colored::Color::BrightCyan,
        Hue::White => colored::Color::BrightWhite,
    };
    colored::Colorize::color(text, color).to_string()
}

/// Calls `colored::Colorize::color` with a color given by its red, green
/// and blue parts and writes the result out. The same is claimed of the
/// result as for the normal colors. The code in the lead is that of the
/// parts where the environment says that the terminal shows such colors,
/// and else that of the named color that `colored` finds nearest.
#[verifier::external_body]
fn paint_true_color(text: &str, r: u8, g: u8, b: u8) -> (painted: String)
    ensures
        shown_in_color(Color::TrueColor { r, g, b }, text@, painted@),
{
    colored::Colorize::color(text, colored::Color::TrueColor { r, g, b }).to_string()
}

/// `text` as the terminal shows it in `color`: as it is, or between the
/// sequence that sets the color and the one that ends it.
fn paint_text(text: &str, color: Color) -> (painted: String)
    ensures
        shown_in_color(color, text@, painted@),
{
    match color {
        Color::Normal(hue) => paint_normal(text, hue),
        Color::Bright(hue) => paint_bright(text, hue),
        Color::TrueColor { r, g, b } => paint_true_color(text, r, g, b),
    }
}

/// `pieces` one after the other.
pub open spec fn concat_all(pieces: Seq<Seq<char>>) -> Seq<char>
    decreases pieces.len(),
{
    if pieces.len() == 0 {
        Seq::empty()
    } else {
        concat_all(pieces.drop_last()) + pieces.last()
    }
}

/// Whether `piece` is `span` written out: a plain span as it is, another
/// as it is shown in the color that `config` gives to its part.
pub open spec fn piece_shows(config: TreeRendererConfig, span: SpanModel, piece: Seq<char>) -> bool {
    match config.color_of(span.tint) {
        Some(color) => shown_in_color(color, span.text, piece),
        None => piece == span.text,
    }
}

/// Whether `text` is `line` written out with a line end, `pieces` being
/// what was written for each span.
pub open spec fn painted_as(
    config: TreeRendererConfig,
    line: Seq<SpanModel>,
    pieces: Seq<Seq<char>>,
    text: Seq<char>,
) -> bool {
    &&& pieces.len() == line.len()
    &&& forall|i: int| 0 <= i < line.len() ==> piece_shows(config, line[i], #[trigger] pieces[i])
    &&& text == concat_all(pieces).push('\n')
}

/// Whether `text` is `line` written out with a line end in the colors of
/// `config`.
pub open spec fn painted(config: TreeRendererConfig, line: Seq<SpanModel>, text: Seq<char>) -> bool {
    exists|pieces: Seq<Seq<char>>| painted_as(config, line, pieces, text)
}

/// The gray of the columns.
pub open spec fn gray() -> Color {
    Color::TrueColor { r: 69, g: 69, b: 69 }
}

/// How the tree is laid out.
pub struct TreeRendererConfig {
    pub tree_spacer: String,
    pub display_permissions: bool,
    pub display_file_size: bool,
    pub display_last_modified: bool,
    pub reverse_bottom_top: bool,
    pub print_all_file: bool,
    /// Unit of file size, only matters with include_metadata
    /// B, K, M, G
    pub block_size: String,
    pub color_file: Color,
    pub color_directory: Color,
    pub color_last_modified: Color,
    pub color_permissions: Color,
    pub color_file_size: Color,
    pub color_ignored: Color,
}

impl TreeRendererConfig {
    /// Two spaces of indentation, no columns, top to bottom, sizes in
    /// bytes, directories in blue, the count of ignored entries in red and
    /// all else in white.
    pub open spec fn is_default(&self) -> bool {
        &&& self.tree_spacer@ == "  "@
        &&& !self.display_permissions
        &&& !self.display_file_size
        &&& !self.display_last_modified
        &&& !self.reverse_bottom_top
        &&& !self.print_all_file
        &&& self.block_size@ == "B"@
        &&& self.color_file == Color::Normal(Hue::White)
        &&& self.color_directory == Color::Normal(Hue::Blue)
        &&& self.color_last_modified == Color::Normal(Hue::White)
        &&& self.color_permissions == Color::Normal(Hue::White)
        &&& self.color_file_size == Color::Normal(Hue::White)
        &&& self.color_ignored == Color::Normal(Hue::Red)
    }

    pub fn default() -> (config: TreeRendererConfig)
        ensures
            config.is_default(),
    {
        TreeRendererConfig {
            tree_spacer: String::from_str("  "),
            display_permissions: false,
            display_file_size: false,
            display_last_modified: false,
            reverse_bottom_top: false,
            print_all_file: false,
            block_size: String::from_str("B"),
            color_file: Color::Normal(Hue::White),
            color_directory: Color::Normal(Hue::Blue),
            color_last_modified: Color::Normal(Hue::White),
            color_permissions: Color::Normal(Hue::White),
            color_file_size: Color::Normal(Hue::White),
            color_ignored: Color::Normal(Hue::Red),
        }
    }

    /// The layout that the arguments of the command line ask for: with
    /// `long` all three columns, in gray; directories in blue, files in
    /// white, the count of ignored entries in red.
    pub fn from_args(
        block_size: String,
        long: bool,
        reverse: bool,
        tree_spacer: String,
    ) -> (config: TreeRendererConfig)
        ensures
            config.tree_spacer == tree_spacer,
            config.block_size == block_size,
            config.display_permissions == long,
            config.display_file_size == long,
            config.display_last_modified == long,
            config.reverse_bottom_top == reverse,
            !config.print_all_file,
            config.color_file == Color::Normal(Hue::White),
            config.color_directory == Color::Normal(Hue::Blue),
            config.color_last_modified == gray(),
            config.color_permissions == gray(),
            config.color_file_size == gray(),
            config.color_ignored == Color::Normal(Hue::Red),
    {
        let gray = Color::TrueColor { r: 69, g: 69, b: 69 };
        TreeRendererConfig {
            tree_spacer,
            display_permissions: long,
            display_file_size: long,
            display_last_modified: long,
            reverse_bottom_top: reverse,
            print_all_file: false,
            block_size,
            color_file: Color::Normal(Hue::White),
            color_directory: Color::Normal(Hue::Blue),
            color_last_modified: gray,
            color_permissions: gray,
            color_file_size: gray,
            color_ignored: Color::Normal(Hue::Red),
        }
    }

    /// A span of the space between two parts of a line.
    pub open spec fn spacer_span(&self) -> SpanModel {
        SpanModel { text: self.tree_spacer@, tint: Tint::Plain }
    }

    /// The names of the directories above an entry, each followed by the
    /// spacer.
    pub open spec fn prefix_spans(&self, before: Seq<Seq<char>>) -> Seq<SpanModel>
        decreases before.len(),
    {
        if before.len() == 0 {
            Seq::empty()
        } else {
            self.prefix_spans(before.drop_last()).push(
                SpanModel { text: before.last(), tint: Tint::Directory },
            ).push(self.spacer_span())
        }
    }

    /// What stands in a line before the name: the spacer once for each
    /// level of nesting, or the names of the directories above.
    pub open spec fn lead(&self, depth: nat, before: Seq<Seq<char>>) -> Seq<SpanModel> {
        if self.print_all_file {
            self.prefix_spans(before)
        } else {
            seq![SpanModel { text: repeat(self.tree_spacer@, depth), tint: Tint::Plain }]
        }
    }

    /// The name of an entry, in the color of its kind.
    pub open spec fn name_span(&self, node: Node) -> SpanModel {
        SpanModel {
            text: node.name,
            tint: if node.is_dir {
                Tint::Directory
            } else {
                Tint::File
            },
        }
    }

    /// `line` followed by the columns that are asked for, each after a
    /// spacer: permissions, size, last change.
    pub open spec fn with_columns(&self, line: Seq<SpanModel>, node: Node) -> Seq<SpanModel> {
        let with_permissions = if self.display_permissions {
            line.push(self.spacer_span()).push(
                SpanModel { text: permissions_text(node.metadata), tint: Tint::Permissions },
            )
        } else {
            line
        };
        let with_size = if self.display_file_size {
            with_permissions.push(self.spacer_span()).push(
                SpanModel {
                    text: size_text(node.metadata, self.block_size@),
                    tint: Tint::FileSize,
                },
            )
        } else {
            with_permissions
        };
        if self.display_last_modified {
            with_size.push(self.spacer_span()).push(
                SpanModel { text: last_modified_text(node.metadata), tint: Tint::LastModified },
            )
        } else {
            with_size
        }
    }

    /// The line of one entry at nesting level `depth` below the
    /// directories named in `before`.
    pub open spec fn line(&self, node: Node, depth: nat, before: Seq<Seq<char>>) -> Seq<
        SpanModel,
    > {
        self.with_columns(self.lead(depth, before).push(self.name_span(node)), node)
    }

    /// The names of the directories above what is below `node`.
    pub open spec fn below(&self, node: Node, before: Seq<Seq<char>>) -> Seq<Seq<char>> {
        if node.is_dir {
            before.push(node.name)
        } else {
            before
        }
    }

    /// The lines of an entry and of all that is below it. Top to bottom the
    /// entry's own line comes first; bottom to top it comes last. Either
    /// way the names before a line are those of the directories above the
    /// entry, its own name not among them.
    pub open spec fn render_item(&self, node: Node, depth: nat, before: Seq<Seq<char>>) -> Seq<
        Seq<SpanModel>,
    >
        decreases node, 0nat,
    {
        let inner = self.render_items(node.children, depth + 1, self.below(node, before));
        if self.reverse_bottom_top {
            inner.push(self.line(node, depth, before))
        } else {
            seq![self.line(node, depth, before)] + inner
        }
    }

    /// The lines of `nodes`, one entry after the other.
    pub open spec fn render_items(
        &self,
        nodes: Seq<Node>,
        depth: nat,
        before: Seq<Seq<char>>,
    ) -> Seq<Seq<SpanModel>>
        decreases nodes, 1nat,
    {
        if nodes.len() == 0 {
            Seq::empty()
        } else {
            self.render_items(nodes.drop_last(), depth, before) + self.render_item(
                nodes.last(),
                depth,
                before,
            )
        }
    }

    /// The lines of a tree: for each root what is below it, never the root
    /// itself.
    pub open spec fn render_tree(&self, roots: Seq<Node>) -> Seq<Seq<SpanModel>>
        decreases roots.len(),
    {
        if roots.len() == 0 {
            Seq::empty()
        } else {
            self.render_tree(roots.drop_last()) + self.render_items(
                roots.last().children,
                0,
                Seq::empty(),
            )
        }
    }

    /// The color in which a part of a line is shown, if it has one.
    pub open spec fn color_of(&self, tint: Tint) -> Option<Color> {
        match tint {
            Tint::Plain => None,
            Tint::Directory => Some(self.color_directory),
            Tint::File => Some(self.color_file),
            Tint::Permissions => Some(self.color_permissions),
            Tint::FileSize => Some(self.color_file_size),
            Tint::LastModified => Some(self.color_last_modified),
            Tint::Ignored => Some(self.color_ignored),
        }
    }

    /// The color in which a part of a line is shown, if it has one.
    pub fn color_for(&self, tint: Tint) -> (color: Option<Color>)
        ensures
            color == self.color_of(tint),
    {
        match tint {
            Tint::Plain => None,
            Tint::Directory => Some(self.color_directory),
            Tint::File => Some(self.color_file),
            Tint::Permissions => Some(self.color_permissions),
            Tint::FileSize => Some(self.color_file_size),
            Tint::LastModified => Some(self.color_last_modified),
            Tint::Ignored => Some(self.color_ignored),
        }
    }
}

/// Lays out trees as lines.
pub struct TreeRendererCLI {
    pub config: TreeRendererConfig,
    pub tree: Tree,
}

impl TreeRendererCLI {
    /// The size column of an entry.
    pub fn format_file_size(&self, tree_item: &TreeItem) -> (text: String)
        ensures
            text@ == size_text(tree_item.metadata, self.config.block_size@),
    {
        match &tree_item.metadata {
            Some(metadata) => {
                proof {
                    reveal_strlit("G");
                    reveal_strlit("M");
                    reveal_strlit("K");
                    reveal_strlit("B");
                }
                let letter: Option<char> = unit_letter(self.config.block_size.as_str());
                let size: u64 = match letter {
                    Some('G') | Some('g') => metadata.len / 1073741824,
                    Some('M') | Some('m') => metadata.len / 1048576,
                    Some('K') | Some('k') => metadata.len / 1024,
                    _ => metadata.len,
                };
                let size_unit: &str = match letter {
                    Some('G') | Some('g') => "G",
                    Some('M') | Some('m') => "M",
                    Some('K') | Some('k') => "K",
                    _ => "B",
                };
                let text: String = to_decimal(size).concat(size_unit);
                assert(text@ =~= size_text(tree_item.metadata, self.config.block_size@));
                text
            },
            None => dash_string(),
        }
    }

    /// The permissions column of an entry.
    pub fn format_file_permissions(&self, tree_item: &TreeItem) -> (text: String)
        ensures
            text@ == permissions_text(tree_item.metadata),
    {
        match &tree_item.metadata {
            Some(metadata) => {
                proof {
                    reveal_strlit("l");
                    reveal_strlit("d");
                    reveal_strlit("c");
                    reveal_strlit("b");
                    reveal_strlit("p");
                    reveal_strlit("s");
                    reveal_strlit("-");
                }
                let file_type: &str = if metadata.is_symlink {
                    "l"
                } else if metadata.is_dir {
                    "d"
                } else if metadata.is_char_device {
                    "c"
                } else if metadata.is_block_device {
                    "b"
                } else if metadata.is_fifo {
                    "p"
                } else if metadata.is_socket {
                    "s"
                } else {
                    "-"
                };
                assert(file_type@ =~= seq![type_tag(*metadata)]);
                let mode: String = to_octal(metadata.mode % 4096);
                String::from_str(file_type).concat(mode.as_str())
            },
            None => dash_string(),
        }
    }

    /// The column of the last change of an entry.
    pub fn format_last_modified(&self, tree_item: &TreeItem) -> (text: String)
        ensures
            text@ == last_modified_text(tree_item.metadata),
    {
        match &tree_item.metadata {
            Some(metadata) => match metadata.modified {
                Some(secs) => timestamp_or_dash(utc_text(secs)),
                None => dash_string(),
            },
            None => dash_string(),
        }
    }

    /// A renderer that holds the default layout and a tree of one nameless
    /// root.
    pub fn new() -> (renderer: TreeRendererCLI)
        ensures
            renderer.config.is_default(),
            renderer.tree@ == seq![
                Node { name: Seq::empty(), is_dir: false, metadata: None, children: Seq::empty() },
            ],
    {
        let item = TreeItem {
            files: Vec::new(),
            file: String::new(),
            metadata: None,
            is_dir: false,
        };
        proof {
            lemma_view_children(item);
            assert(item@.children =~= Seq::<Node>::empty());
        }
        let mut files: Vec<TreeItem> = Vec::new();
        files.push(item);
        let tree = Tree { files };
        assert(tree@ =~= seq![item@]);
        TreeRendererCLI { config: TreeRendererConfig::default(), tree }
    }

    /// Takes over `tree` and `config` and lays the tree out: the lines of
    /// what is below each root, root after root.
    pub fn render(&mut self, tree: Tree, config: TreeRendererConfig) -> (lines: Vec<Line>)
        ensures
            final(self).tree == tree,
            final(self).config == config,
            lines_of(lines@) == config.render_tree(tree@),
    {
        self.tree = tree;
        self.config = config;
        let mut lines: Vec<Line> = Vec::new();
        let indent: String = String::new();
        let files_before: Vec<String> = Vec::new();
        let ghost roots = self.tree@;
        assert(names_of(files_before@) =~= Seq::<Seq<char>>::empty());
        assert(lines_of(lines@) =~= Seq::<Seq<SpanModel>>::empty());
        let mut i: usize = 0;
        while i < self.tree.files.len()
            invariant
                i <= self.tree.files.len(),
                roots == self.tree@,
                indent@ == repeat(self.config.tree_spacer@, 0),
                names_of(files_before@) == Seq::<Seq<char>>::empty(),
                lines_of(lines@) == self.config.render_tree(roots.take(i as int)),
            decreases self.tree.files.len() - i,
        {
            proof {
                assert(roots.take(i + 1).drop_last() =~= roots.take(i as int));
                assert(roots.take(i + 1).last() == self.tree.files[i as int]@);
            }
            self.render_recursive(
                &self.tree.files[i],
                &indent,
                Ghost(0),
                &files_before,
                &mut lines,
            );
            i += 1;
        }
        proof {
            assert(roots.take(self.tree.files.len() as int) =~= roots);
        }
        lines
    }

    /// The line that sums a run up: `directories: `, `  files: ` and
    /// `  ignored: `, each followed by its count.
    pub fn render_summary(&self, stats: &TreeGeneratorStats) -> (line: Line)
        ensures
            line@ == summary_line(stats@),
    {
        let mut spans: Vec<Span> = Vec::new();
        assert(spans_of(spans@) =~= Seq::<SpanModel>::empty());
        push_span(&mut spans, String::from_str("directories: "), Tint::Plain);
        push_span(&mut spans, to_decimal(stats.directories as u64), Tint::Directory);
        push_span(&mut spans, String::from_str("  files: "), Tint::Plain);
        push_span(&mut spans, to_decimal(stats.files as u64), Tint::File);
        push_span(&mut spans, String::from_str("  ignored: "), Tint::Plain);
        push_span(&mut spans, to_decimal(stats.ignored as u64), Tint::Ignored);
        assert(spans_of(spans@) =~= summary_line(stats@));
        Line { spans }
    }

    /// Writes a line out for the terminal, line end included: each plain
    /// span as it is, each other span in the color of its part.
    pub fn paint_line(&self, line: &Line) -> (text: String)
        ensures
            painted(self.config, line@, text@),
    {
        let mut text: String = String::new();
        let ghost mut pieces: Seq<Seq<char>> = Seq::empty();
        let mut i: usize = 0;
        while i < line.spans.len()
            invariant
                i <= line.spans.len(),
                pieces.len() == i,
                forall|j: int| 0 <= j < i ==> piece_shows(self.config, line@[j], #[trigger] pieces[j]),
                text@ == concat_all(pieces),
            decreases line.spans.len() - i,
        {
            let span: &Span = &line.spans[i];
            let piece: String = match self.config.color_for(span.tint) {
                Some(color) => paint_text(span.text.as_str(), color),
                None => span.text.clone(),
            };
            text.append(piece.as_str());
            proof {
                assert(pieces.push(piece@).drop_last() =~= pieces);
                pieces = pieces.push(piece@);
            }
            i += 1;
        }
        proof {
            reveal_strlit("\n");
        }
        text.append("\n");
        assert(text@ =~= concat_all(pieces).push('\n'));
        assert(painted_as(self.config, line@, pieces, text@));
        text
    }

    /// Writes every line out for the terminal, in order.
    pub fn paint(&self, lines: &Vec<Line>) -> (texts: Vec<String>)
        ensures
            texts@.len() == lines@.len(),
            forall|i: int|
                0 <= i < lines@.len() ==> painted(self.config, lines@[i]@, #[trigger] texts@[i]@),
    {
        let mut texts: Vec<String> = Vec::new();
        let mut i: usize = 0;
        while i < lines.len()
            invariant
                i <= lines.len(),
                texts@.len() == i,
                forall|j: int|
                    0 <= j < i ==> painted(self.config, lines@[j]@, #[trigger] texts@[j]@),
            decreases lines.len() - i,
        {
            let text: String = self.paint_line(&lines[i]);
            let ghost texts_before = texts@;
            texts.push(text);
            proof {
                assert forall|j: int| 0 <= j < i + 1 implies painted(
                    self.config,
                    lines@[j]@,
                    #[trigger] texts@[j]@,
                ) by {
                    if j < i {
                        assert(texts@[j] == texts_before[j]);
                    }
                }
            }
            i += 1;
        }
        texts
    }

    /// Adds to `out` the lines of what is below `tree_item`, which is at
    /// nesting level `depth`; `indent` is the spacer that many times.
    fn render_recursive(
        &self,
        tree_item: &TreeItem,
        indent: &String,
        Ghost(depth): Ghost<nat>,
        files_before: &Vec<String>,
        out: &mut Vec<Line>,
    )
        requires
            indent@ == repeat(self.config.tree_spacer@, depth),
        ensures
            lines_of(final(out)@) == lines_of(old(out)@) + self.config.render_items(
                tree_item@.children,
                depth,
                names_of(files_before@),
            ),
        decreases tree_item,
    {
        let ghost children = tree_item@.children;
        let ghost before = names_of(files_before@);
        let ghost start = lines_of(out@);
        let deeper: String = indent.clone().concat(self.config.tree_spacer.as_str());
        proof {
            lemma_view_children(*tree_item);
            assert(lines_of(out@) =~= start + self.config.render_items(children.take(0), depth, before));
        }
        let mut i: usize = 0;
        while i < tree_item.files.len()
            invariant
                i <= tree_item.files.len(),
                children == nodes_of(tree_item.files@),
                before == names_of(files_before@),
                start == lines_of(old(out)@),
                indent@ == repeat(self.config.tree_spacer@, depth),
                deeper@ == repeat(self.config.tree_spacer@, depth + 1),
                lines_of(out@) == start + self.config.render_items(
                    children.take(i as int),
                    depth,
                    before,
                ),
            decreases tree_item.files.len() - i,
        {
            let sub_tree_item: &TreeItem = &tree_item.files[i];
            let ghost node = sub_tree_item@;
            let ghost lines_before = lines_of(out@);
            proof {
                assert(children.take(i + 1).drop_last() =~= children.take(i as int));
                assert(children.take(i + 1).last() == node);
                lemma_view_children(*sub_tree_item);
            }
            let mut files_before_clone: Vec<String> = clone_names(files_before);
            if self.config.reverse_bottom_top {
                if sub_tree_item.is_dir {
                    push_name(&mut files_before_clone, sub_tree_item.file.clone());
                }
                self.render_recursive(
                    sub_tree_item,
                    &deeper,
                    Ghost(depth + 1),
                    &files_before_clone,
                    out,
                );
                let line: Line = self.render_tree_item(
                    sub_tree_item,
                    indent,
                    Ghost(depth),
                    files_before,
                );
                push_line(out, line);
            } else {
                let line: Line = self.render_tree_item(
                    sub_tree_item,
                    indent,
                    Ghost(depth),
                    &files_before_clone,
                );
                push_line(out, line);
                if sub_tree_item.is_dir {
                    push_name(&mut files_before_clone, sub_tree_item.file.clone());
                }
                self.render_recursive(
                    sub_tree_item,
                    &deeper,
                    Ghost(depth + 1),
                    &files_before_clone,
                    out,
                );
            }
            proof {
                assert(lines_of(out@) =~= lines_before + self.config.render_item(node, depth, before));
                assert(lines_of(out@) =~= start + self.config.render_items(
                    children.take(i + 1),
                    depth,
                    before,
                ));
            }
            i += 1;
        }
        proof {
            assert(children.take(tree_item.files.len() as int) =~= children);
        }
    }

    /// The line of one entry.
    fn render_tree_item(
        &self,
        sub_tree_item: &TreeItem,
        indent: &String,
        Ghost(depth): Ghost<nat>,
        files_before: &Vec<String>,
    ) -> (line: Line)
        requires
            indent@ == repeat(self.config.tree_spacer@, depth),
        ensures
            line@ == self.config.line(sub_tree_item@, depth, names_of(files_before@)),
    {
        let ghost before = names_of(files_before@);
        let ghost node = sub_tree_item@;
        let mut spans: Vec<Span> = Vec::new();
        if self.config.print_all_file {
            assert(spans_of(spans@) =~= self.config.prefix_spans(before.take(0)));
            let mut i: usize = 0;
            while i < files_before.len()
                invariant
                    i <= files_before.len(),
                    before == names_of(files_before@),
                    spans_of(spans@) == self.config.prefix_spans(before.take(i as int)),
                decreases files_before.len() - i,
            {
                proof {
                    assert(before.take(i + 1).drop_last() =~= before.take(i as int));
                    assert(before.take(i + 1).last() == files_before[i as int]@);
                }
                push_span(&mut spans, files_before[i].clone(), Tint::Directory);
                push_span(&mut spans, self.config.tree_spacer.clone(), Tint::Plain);
                i += 1;
            }
            proof {
                assert(before.take(files_before.len() as int) =~= before);
            }
        } else {
            push_span(&mut spans, indent.clone(), Tint::Plain);
            assert(spans_of(spans@) =~= self.config.lead(depth, before));
        }
        proof {
            lemma_view_children(*sub_tree_item);
        }
        if sub_tree_item.is_dir {
            push_span(&mut spans, sub_tree_item.file.clone(), Tint::Directory);
        } else {
            push_span(&mut spans, sub_tree_item.file.clone(), Tint::File);
        }
        if self.config.display_permissions {
            push_span(&mut spans, self.config.tree_spacer.clone(), Tint::Plain);
            push_span(&mut spans, self.format_file_permissions(sub_tree_item), Tint::Permissions);
        }
        if self.config.display_file_size {
            push_span(&mut spans, self.config.tree_spacer.clone(), Tint::Plain);
            push_span(&mut spans, self.format_file_size(sub_tree_item), Tint::FileSize);
        }
        if self.config.display_last_modified {
            push_span(&mut spans, self.config.tree_spacer.clone(), Tint::Plain);
            push_span(&mut spans, self.format_last_modified(sub_tree_item), Tint::LastModified);
        }
        Line { spans }
    }
}

fn push_span(spans: &mut Vec<Span>, text: String, tint: Tint)
    ensures
        spans_of(final(spans)@) == spans_of(old(spans)@).push(SpanModel { text: text@, tint }),
{
    spans.push(Span { text, tint });
    assert(spans_of(spans@) =~= spans_of(old(spans)@).push(SpanModel { text: text@, tint }));
}

fn push_line(lines: &mut Vec<Line>, line: Line)
    ensures
        lines_of(final(lines)@) == lines_of(old(lines)@).push(line@),
{
    lines.push(line);
    assert(lines_of(lines@) =~= lines_of(old(lines)@).push(line@));
}

} // verus!
