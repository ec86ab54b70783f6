//! Laying out text on the screen.
//!
//! The terminal keeps the cursor and decides, character by character, where
//! a glyph goes, when a line wraps and when the screen is wiped. What it
//! decides it hands out as [`DrawCommand`]s for the display driver.

use embedded_graphics::mono_font::ascii::FONT_6X12;
use vstd::prelude::*;

verus! {

/// Width of the screen in pixels.
pub const SCREEN_WIDTH: i32 = 320;

/// Height of the screen in pixels.
pub const SCREEN_HEIGHT: i32 = 240;

/// Distance in pixels from one glyph of the font to the next.
pub const GLYPH_ADVANCE: i32 = 6;

/// Height in pixels of a line of the font.
pub const LINE_HEIGHT: i32 = 12;

/// A position on the screen, in pixels from its top left corner.
#[derive(Debug, Clone, Copy, PartialEq, Eq, Structural)]
pub struct Cursor {
    pub x: i32,
    pub y: i32,
}

/// The measures of a monospace font, in pixels.
#[derive(Debug, Clone, Copy, PartialEq, Eq, Structural)]
pub struct FontMetrics {
    pub width: u32,
    pub height: u32,
    pub spacing: u32,
}

/// One operation for the display driver.
#[derive(Debug, Clone, Copy, PartialEq, Eq, Structural)]
pub enum DrawCommand {
    /// Fill the screen with a black rectangle.
    Backdrop,
    /// Clear the display to black.
    Clear,
    /// Draw a glyph with its top left corner at a position.
    Glyph { c: char, at: Cursor },
}

/// Reads the measures of `embedded_graphics::mono_font::ascii::FONT_6X12`:
/// its glyphs are 6 pixels wide and 12 high, with no space between them.
#[verifier::external_body]
fn font_metrics() -> (m: FontMetrics)
    ensures
        m == (FontMetrics { width: 6, height: 12, spacing: 0 }),
{
    FontMetrics {
        width: FONT_6X12.character_size.width,
        height: FONT_6X12.character_size.height,
        spacing: FONT_6X12.character_spacing,
    }
}

/// Whether a cursor is where the terminal can leave it: on the screen, or
/// just behind the last glyph of a full line.
pub open spec fn cursor_in_reach(cursor: Cursor) -> bool {
    &&& 0 <= cursor.x < SCREEN_WIDTH + GLYPH_ADVANCE
    &&& 0 <= cursor.y < SCREEN_HEIGHT
}

/// The cursor once the line is wrapped where it has to be: at a newline and
/// behind a full line.
pub open spec fn wrapped(cursor: Cursor, c: char) -> Cursor {
    if cursor.x >= SCREEN_WIDTH || c == '\n' {
        Cursor { x: 0, y: (cursor.y + LINE_HEIGHT) as i32 }
    } else {
        cursor
    }
}

/// Whether writing `c` wipes the screen first: the wrapped cursor has left
/// the screen at the bottom.
pub open spec fn wipes(cursor: Cursor, c: char) -> bool {
    wrapped(cursor, c).y >= SCREEN_HEIGHT
}

/// Where the glyph of `c` goes.
pub open spec fn glyph_place(cursor: Cursor, c: char) -> Cursor {
    if wipes(cursor, c) {
        Cursor { x: 0, y: 0 }
    } else {
        wrapped(cursor, c)
    }
}

/// The cursor after `c` is written. A newline has no glyph and no width.
pub open spec fn cursor_after(cursor: Cursor, c: char) -> Cursor {
    let place = glyph_place(cursor, c);
    if c == '\n' {
        place
    } else {
        Cursor { x: (place.x + GLYPH_ADVANCE) as i32, y: place.y }
    }
}

/// The commands that write `c`.
pub open spec fn commands_for(cursor: Cursor, c: char) -> Seq<DrawCommand> {
    let wipe = if wipes(cursor, c) {
        seq![DrawCommand::Backdrop]
    } else {
        Seq::empty()
    };
    if c == '\n' {
        wipe
    } else {
        wipe.push(DrawCommand::Glyph { c, at: glyph_place(cursor, c) })
    }
}

/// The cursor after a text is written.
pub open spec fn cursor_after_text(cursor: Cursor, text: Seq<char>) -> Cursor
    decreases text.len(),
{
    if text.len() == 0 {
        cursor
    } else {
        cursor_after(cursor_after_text(cursor, text.drop_last()), text.last())
    }
}

/// The commands that write a text.
pub open spec fn commands_for_text(cursor: Cursor, text: Seq<char>) -> Seq<DrawCommand>
    decreases text.len(),
{
    if text.len() == 0 {
        Seq::empty()
    } else {
        commands_for_text(cursor, text.drop_last()) + commands_for(
            cursor_after_text(cursor, text.drop_last()),
            text.last(),
        )
    }
}

/// A text terminal on the screen: the position of the next glyph.
pub struct Terminal {
    cursor: Cursor,
}

impl Terminal {
    /// The invariant of the terminal: its cursor is in reach.
    pub closed spec fn wf(&self) -> bool {
        cursor_in_reach(self.cursor)
    }

    /// The position of the next glyph.
    pub closed spec fn position(&self) -> Cursor {
        self.cursor
    }

    /// A terminal with its cursor at the top left corner, and the command
    /// that blanks the screen for it.
    pub fn new() -> (r: (Self, DrawCommand))
        ensures
            r.0.wf(),
            r.0.position() == (Cursor { x: 0, y: 0 }),
            r.1 == DrawCommand::Backdrop,
    {
        (Terminal { cursor: Cursor { x: 0, y: 0 } }, DrawCommand::Backdrop)
    }

    /// The position of the next glyph.
    pub fn cursor(&self) -> (c: Cursor)
        requires
            self.wf(),
        ensures
            c == self.position(),
            cursor_in_reach(c),
    {
        self.cursor
    }

    /// Moves the cursor back to the top left corner and returns the command
    /// that clears the display.
    pub fn clear(&mut self) -> (command: DrawCommand)
        ensures
            final(self).wf(),
            final(self).position() == (Cursor { x: 0, y: 0 }),
            command == DrawCommand::Clear,
    {
        self.cursor = Cursor { x: 0, y: 0 };
        DrawCommand::Clear
    }

    /// Writes a text, character by character, and returns the commands that
    /// draw it.
    pub fn write_str(&mut self, text: &str) -> (commands: Vec<DrawCommand>)
        requires
            old(self).wf(),
        ensures
            final(self).wf(),
            final(self).position() == cursor_after_text(old(self).position(), text@),
            commands@ == commands_for_text(old(self).position(), text@),
    {
        let mut commands: Vec<DrawCommand> = Vec::new();
        for c in chars: text.chars()
            invariant
                chars.seq() == text@,
                self.wf(),
                self.position() == cursor_after_text(
                    old(self).position(),
                    text@.take(chars.index() as int),
                ),
                commands@ == commands_for_text(
                    old(self).position(),
                    text@.take(chars.index() as int),
                ),
        {
            assert(text@.take(chars.index() + 1).drop_last() =~= text@.take(chars.index() as int));
            let mut drawn = self.write_character(c);
            commands.append(&mut drawn);
        }
        assert(text@.take(text@.len() as int) =~= text@);
        commands
    }

    /// Writes one character: wraps the line at a newline and behind a full
    /// line, wipes the screen when the text has reached its bottom, and
    /// places the glyph. Returns the commands that draw it.
    pub fn write_character(&mut self, c: char) -> (commands: Vec<DrawCommand>)
        requires
            old(self).wf(),
        ensures
            final(self).wf(),
            final(self).position() == cursor_after(old(self).position(), c),
            commands@ == commands_for(old(self).position(), c),
    {
        let font = font_metrics();
        let mut commands: Vec<DrawCommand> = Vec::new();
        let mut cursor = self.cursor;
        if cursor.x >= SCREEN_WIDTH || c == '\n' {
            cursor = Cursor { x: 0, y: cursor.y + font.height as i32 };
        }
        if cursor.y >= SCREEN_HEIGHT {
            commands.push(DrawCommand::Backdrop);
            cursor = Cursor { x: 0, y: 0 };
        }
        if c != '\n' {
            commands.push(DrawCommand::Glyph { c, at: cursor });
            cursor.x = cursor.x + (font.width + font.spacing) as i32;
        }
        self.cursor = cursor;
        commands
    }
}

} // verus!
