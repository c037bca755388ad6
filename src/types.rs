use vstd::prelude::*;

verus! {

/// Terminal dimensions.
#[derive(Clone, Copy, Debug, PartialEq, Eq, Structural)]
pub struct Size {
    pub rows: u16,
    pub cols: u16,
}

impl Size {
    /// Note the argument order: columns first, then rows.
    pub fn new(cols: u16, rows: u16) -> (r: Size)
        ensures
            r.rows == rows,
            r.cols == cols,
    {
        Size { rows, cols }
    }
}

/// Cursor position, 0-indexed.
#[derive(Clone, Copy, Debug, Default, PartialEq, Eq, Structural)]
pub struct Position {
    pub row: u16,
    pub col: u16,
}

impl Position {
    pub fn new(row: u16, col: u16) -> (r: Position)
        ensures
            r.row == row,
            r.col == col,
    {
        Position { row, col }
    }
}

#[derive(Clone, Copy, Debug, PartialEq, Eq, Structural)]
pub enum Color {
    Default,
    Black,
    Red,
    Green,
    Yellow,
    Blue,
    Magenta,
    Cyan,
    White,
    BrightBlack,
    BrightRed,
    BrightGreen,
    BrightYellow,
    BrightBlue,
    BrightMagenta,
    BrightCyan,
    BrightWhite,
    Indexed(u8),
    Rgb(u8, u8, u8),
}

/// The color that a 4-bit ANSI index names; other indices stay indexed.
pub open spec fn ansi_color(index: u8) -> Color {
    if index == 0 {
        Color::Black
    } else if index == 1 {
        Color::Red
    } else if index == 2 {
        Color::Green
    } else if index == 3 {
        Color::Yellow
    } else if index == 4 {
        Color::Blue
    } else if index == 5 {
        Color::Magenta
    } else if index == 6 {
        Color::Cyan
    } else if index == 7 {
        Color::White
    } else if index == 8 {
        Color::BrightBlack
    } else if index == 9 {
        Color::BrightRed
    } else if index == 10 {
        Color::BrightGreen
    } else if index == 11 {
        Color::BrightYellow
    } else if index == 12 {
        Color::BrightBlue
    } else if index == 13 {
        Color::BrightMagenta
    } else if index == 14 {
        Color::BrightCyan
    } else if index == 15 {
        Color::BrightWhite
    } else {
        Color::Indexed(index)
    }
}

impl Color {
    /// Converts a 4-bit ANSI color index to a named color.
    pub fn from_ansi(index: u8) -> (r: Color)
        ensures
            r == ansi_color(index),
    {
        match index {
            0 => Color::Black,
            1 => Color::Red,
            2 => Color::Green,
            3 => Color::Yellow,
            4 => Color::Blue,
            5 => Color::Magenta,
            6 => Color::Cyan,
            7 => Color::White,
            8 => Color::BrightBlack,
            9 => Color::BrightRed,
            10 => Color::BrightGreen,
            11 => Color::BrightYellow,
            12 => Color::BrightBlue,
            13 => Color::BrightMagenta,
            14 => Color::BrightCyan,
            15 => Color::BrightWhite,
            _ => Color::Indexed(index),
        }
    }
}

/// Set of text attribute flags, one bit each.
#[derive(Clone, Copy, Debug, PartialEq, Eq, Structural)]
pub struct AttributeFlags {
    pub bits: u16,
}

impl AttributeFlags {
    pub const BOLD: u16 = 1;
    pub const ITALIC: u16 = 2;
    pub const UNDERLINE: u16 = 4;
    pub const STRIKETHROUGH: u16 = 8;
    pub const BLINK_SLOW: u16 = 16;
    pub const BLINK_FAST: u16 = 32;
    pub const REVERSE: u16 = 64;
    pub const HIDDEN: u16 = 128;
    pub const DIM: u16 = 256;
    pub const DOUBLE_UNDERLINE: u16 = 512;
    pub const CURLY_UNDERLINE: u16 = 1024;
    pub const DOTTED_UNDERLINE: u16 = 2048;
    pub const DASHED_UNDERLINE: u16 = 4096;

    pub fn empty() -> (r: AttributeFlags)
        ensures
            r.bits == 0,
    {
        AttributeFlags { bits: 0 }
    }

    pub open spec fn has(self, flag: u16) -> bool {
        self.bits & flag == flag
    }

    pub fn contains(&self, flag: u16) -> (r: bool)
        ensures
            r == self.has(flag),
    {
        self.bits & flag == flag
    }

    pub fn insert(&mut self, flag: u16)
        ensures
            final(self).bits == old(self).bits | flag,
    {
        self.bits = self.bits | flag;
    }

    pub fn remove(&mut self, flag: u16)
        ensures
            final(self).bits == old(self).bits & !flag,
    {
        self.bits = self.bits & !flag;
    }
}

#[derive(Clone, Copy, Debug, PartialEq, Eq, Structural)]
pub struct CellAttributes {
    pub fg_color: Color,
    pub bg_color: Color,
    pub flags: AttributeFlags,
    pub underline_color: Option<Color>,
}

/// Default foreground and background, no flags, no underline color.
pub open spec fn default_attrs() -> CellAttributes {
    CellAttributes {
        fg_color: Color::Default,
        bg_color: Color::Default,
        flags: AttributeFlags { bits: 0 },
        underline_color: None,
    }
}

impl Default for CellAttributes {
    fn default() -> (r: CellAttributes)
        ensures
            r == default_attrs(),
    {
        CellAttributes {
            fg_color: Color::Default,
            bg_color: Color::Default,
            flags: AttributeFlags { bits: 0 },
            underline_color: None,
        }
    }
}

/// Character cell of the terminal grid. A hyperlink is referred to by its
/// index in the terminal state's table of hyperlinks.
#[derive(Clone, Copy, Debug, PartialEq, Eq, Structural)]
pub struct Cell {
    pub ch: char,
    pub attrs: CellAttributes,
    pub hyperlink: Option<usize>,
}

/// A space with default attributes and no hyperlink.
pub open spec fn blank_cell() -> Cell {
    Cell { ch: ' ', attrs: default_attrs(), hyperlink: None }
}

impl Cell {
    pub fn new(ch: char) -> (r: Cell)
        ensures
            r == (Cell { ch, attrs: default_attrs(), hyperlink: None }),
    {
        Cell { ch, attrs: CellAttributes::default(), hyperlink: None }
    }

    pub fn with_attrs(ch: char, attrs: CellAttributes) -> (r: Cell)
        ensures
            r == (Cell { ch, attrs, hyperlink: None }),
    {
        Cell { ch, attrs, hyperlink: None }
    }

    pub fn blank() -> (r: Cell)
        ensures
            r == blank_cell(),
    {
        Cell::new(' ')
    }
}

impl Default for Cell {
    fn default() -> (r: Cell)
        ensures
            r == blank_cell(),
    {
        Cell::blank()
    }
}

#[derive(Clone, Copy, Debug, PartialEq, Eq, Structural)]
pub enum CursorStyle {
    Block,
    Underline,
    Bar,
    BlinkingBlock,
    BlinkingUnderline,
    BlinkingBar,
}

impl Default for CursorStyle {
    fn default() -> (r: CursorStyle)
        ensures
            r == CursorStyle::Block,
    {
        CursorStyle::Block
    }
}

/// Set of terminal mode flags, one bit each.
#[derive(Clone, Copy, Debug, PartialEq, Eq, Structural)]
pub struct TerminalMode {
    pub bits: u32,
}

/// Line wrap, visible cursor and echo.
pub open spec fn default_mode_bits() -> u32 {
    13
}

impl TerminalMode {
    pub const ECHO: u32 = 1;
    pub const RAW: u32 = 2;
    pub const LINE_WRAP: u32 = 4;
    pub const CURSOR_VISIBLE: u32 = 8;
    pub const CURSOR_BLINKING: u32 = 16;
    pub const ALTERNATE_SCREEN: u32 = 32;
    pub const BRACKETED_PASTE: u32 = 64;
    pub const FOCUS_REPORTING: u32 = 128;
    pub const MOUSE_REPORTING: u32 = 256;
    pub const MOUSE_MOTION: u32 = 512;
    pub const MOUSE_SGR: u32 = 1024;
    pub const APPLICATION_CURSOR: u32 = 2048;
    pub const APPLICATION_KEYPAD: u32 = 4096;
    pub const ORIGIN_MODE: u32 = 8192;
    pub const INSERT_MODE: u32 = 16384;
    pub const REVERSE_VIDEO: u32 = 32768;

    pub fn empty() -> (r: TerminalMode)
        ensures
            r.bits == 0,
    {
        TerminalMode { bits: 0 }
    }

    pub open spec fn has(self, flag: u32) -> bool {
        self.bits & flag == flag
    }

    pub fn contains(&self, flag: u32) -> (r: bool)
        ensures
            r == self.has(flag),
    {
        self.bits & flag == flag
    }

    pub fn insert(&mut self, flag: u32)
        ensures
            final(self).bits == old(self).bits | flag,
    {
        self.bits = self.bits | flag;
    }

    pub fn remove(&mut self, flag: u32)
        ensures
            final(self).bits == old(self).bits & !flag,
    {
        self.bits = self.bits & !flag;
    }
}

impl Default for TerminalMode {
    fn default() -> (r: TerminalMode)
        ensures
            r.bits == default_mode_bits(),
    {
        TerminalMode { bits: 13 }
    }
}

/// Cheap-to-copy view of the terminal state.
#[derive(Clone, Copy, Debug, PartialEq, Eq, Structural)]
pub struct TerminalSnapshot {
    pub size: Size,
    pub cursor: Position,
    pub cursor_style: CursorStyle,
    pub mode: TerminalMode,
    pub active_attributes: CellAttributes,
    pub alternate_screen_active: bool,
}

} // verus!
