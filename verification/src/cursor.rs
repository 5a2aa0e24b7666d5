//! Cursors from the glyphs of the standard cursor font.
//!
//! Creating such a cursor takes two requests: one opens the font `cursor`,
//! one creates the cursor from a glyph of that font and from the glyph behind
//! it, which is its mask (the glyph numbers are even, the masks odd). [`FontCursor`] says which request is due and what
//! the outcome is; the caller sends the requests.

use crate::reply::ProtocolError;
use crate::xproto::{Cursor, Font};
use vstd::prelude::*;

verus! {

pub const NUM_GLYPHS: u16 = 154;

pub const X_CURSOR: u16 = 0;

pub const ARROW: u16 = 2;

pub const BASED_ARROW_DOWN: u16 = 4;

pub const BASED_ARROW_UP: u16 = 6;

pub const BOAT: u16 = 8;

pub const BOGOSITY: u16 = 10;

pub const BOTTOM_LEFT_CORNER: u16 = 12;

pub const BOTTOM_RIGHT_CORNER: u16 = 14;

pub const BOTTOM_SIDE: u16 = 16;

pub const BOTTOM_TEE: u16 = 18;

pub const BOX_SPIRAL: u16 = 20;

pub const CENTER_PTR: u16 = 22;

pub const CIRCLE: u16 = 24;

pub const CLOCK: u16 = 26;

pub const COFFEE_MUG: u16 = 28;

pub const CROSS: u16 = 30;

pub const CROSS_REVERSE: u16 = 32;

pub const CROSSHAIR: u16 = 34;

pub const DIAMOND_CROSS: u16 = 36;

pub const DOT: u16 = 38;

pub const DOTBOX: u16 = 40;

pub const DOUBLE_ARROW: u16 = 42;

pub const DRAFT_LARGE: u16 = 44;

pub const DRAFT_SMALL: u16 = 46;

pub const DRAPED_BOX: u16 = 48;

pub const EXCHANGE: u16 = 50;

pub const FLEUR: u16 = 52;

pub const GOBBLER: u16 = 54;

pub const GUMBY: u16 = 56;

pub const HAND1: u16 = 58;

pub const HAND2: u16 = 60;

pub const HEART: u16 = 62;

pub const ICON: u16 = 64;

pub const IRON_CROSS: u16 = 66;

pub const LEFT_PTR: u16 = 68;

pub const LEFT_SIDE: u16 = 70;

pub const LEFT_TEE: u16 = 72;

pub const LEFTBUTTON: u16 = 74;

pub const LL_ANGLE: u16 = 76;

pub const LR_ANGLE: u16 = 78;

pub const MAN: u16 = 80;

pub const MIDDLEBUTTON: u16 = 82;

pub const MOUSE: u16 = 84;

pub const PENCIL: u16 = 86;

pub const PIRATE: u16 = 88;

pub const PLUS: u16 = 90;

pub const QUESTION_ARROW: u16 = 92;

pub const RIGHT_PTR: u16 = 94;

pub const RIGHT_SIDE: u16 = 96;

pub const RIGHT_TEE: u16 = 98;

pub const RIGHTBUTTON: u16 = 100;

pub const RTL_LOGO: u16 = 102;

pub const SAILBOAT: u16 = 104;

pub const SB_DOWN_ARROW: u16 = 106;

pub const SB_H_DOUBLE_ARROW: u16 = 108;

pub const SB_LEFT_ARROW: u16 = 110;

pub const SB_RIGHT_ARROW: u16 = 112;

pub const SB_UP_ARROW: u16 = 114;

pub const SB_V_DOUBLE_ARROW: u16 = 116;

pub const SHUTTLE: u16 = 118;

pub const SIZING: u16 = 120;

pub const SPIDER: u16 = 122;

pub const SPRAYCAN: u16 = 124;

pub const STAR: u16 = 126;

pub const TARGET: u16 = 128;

pub const TCROSS: u16 = 130;

pub const TOP_LEFT_ARROW: u16 = 132;

pub const TOP_LEFT_CORNER: u16 = 134;

pub const TOP_RIGHT_CORNER: u16 = 136;

pub const TOP_SIDE: u16 = 138;

pub const TOP_TEE: u16 = 140;

pub const TREK: u16 = 142;

pub const UL_ANGLE: u16 = 144;

pub const UMBRELLA: u16 = 146;

pub const UR_ANGLE: u16 = 148;

pub const WATCH: u16 = 150;

pub const XTERM: u16 = 152;

/// The request that opens the cursor font under the identifier `fid`.
#[derive(Clone, Copy, Debug, PartialEq, Eq)]
pub struct OpenFont {
    pub fid: Font,
    pub name: &'static str,
}

/// The request that creates a cursor from two glyphs and two colours.
#[derive(Clone, Copy, Debug, PartialEq, Eq, Structural)]
pub struct CreateGlyphCursor {
    pub cid: Cursor,
    pub source_font: Font,
    pub mask_font: Font,
    pub source_char: u16,
    pub mask_char: u16,
    pub fore_red: u16,
    pub fore_green: u16,
    pub fore_blue: u16,
    pub back_red: u16,
    pub back_green: u16,
    pub back_blue: u16,
}

/// A request that is due.
#[derive(Clone, Copy, Debug, PartialEq, Eq)]
pub enum Request {
    OpenFont(OpenFont),
    CreateGlyphCursor(CreateGlyphCursor),
}

/// How far the creation of a cursor has come.
#[derive(Clone, Copy, Debug, PartialEq, Eq)]
pub enum Stage {
    /// The font is to be opened.
    OpenFont,
    /// The font is open; the cursor is to be created.
    CreateGlyphCursor,
    /// Nothing is left to send: the cursor, or the error that ended the
    /// creation.
    Done(Result<Cursor, ProtocolError>),
}

/// The creation of one cursor from a glyph of the cursor font.
#[derive(Clone, Copy, Debug, PartialEq, Eq)]
pub struct FontCursor {
    pub checked: bool,
    pub font: Font,
    pub cursor: Cursor,
    /// The glyph that gives the cursor its shape.
    pub glyph: u16,
    /// The glyph that gives the cursor its mask.
    pub mask: u16,
    pub stage: Stage,
}

/// The request that opens the cursor font as `font`.
pub open spec fn open_font(font: Font) -> OpenFont {
    OpenFont { fid: font, name: "cursor" }
}

/// The request that creates `cursor` from the glyphs `glyph` and `mask` of
/// `font`, black on white.
pub open spec fn create_glyph_cursor(
    font: Font,
    cursor: Cursor,
    glyph: u16,
    mask: u16,
) -> CreateGlyphCursor {
    CreateGlyphCursor {
        cid: cursor,
        source_font: font,
        mask_font: font,
        source_char: glyph,
        mask_char: mask,
        fore_red: 0,
        fore_green: 0,
        fore_blue: 0,
        back_red: 0xffff,
        back_green: 0xffff,
        back_blue: 0xffff,
    }
}

impl FontCursor {
    /// The request that is due in this stage, if any.
    pub open spec fn spec_pending(&self) -> Option<Request> {
        match self.stage {
            Stage::OpenFont => Some(Request::OpenFont(open_font(self.font))),
            Stage::CreateGlyphCursor => Some(
                Request::CreateGlyphCursor(
                    create_glyph_cursor(self.font, self.cursor, self.glyph, self.mask),
                ),
            ),
            Stage::Done(_) => None,
        }
    }

    /// The stage that follows this one when the request that was due has been
    /// sent and `outcome` is what checking it gave.
    pub open spec fn stage_after(self, outcome: Result<(), ProtocolError>) -> Stage {
        match self.stage {
            Stage::Done(result) => Stage::Done(result),
            Stage::OpenFont => match outcome {
                Err(error) if self.checked => Stage::Done(Err(error)),
                _ => Stage::CreateGlyphCursor,
            },
            Stage::CreateGlyphCursor => match outcome {
                Err(error) if self.checked => Stage::Done(Err(error)),
                _ => Stage::Done(Ok(self.cursor)),
            },
        }
    }

    /// This creation after one more step.
    pub open spec fn after(self, outcome: Result<(), ProtocolError>) -> FontCursor {
        FontCursor { stage: self.stage_after(outcome), ..self }
    }

    /// The request to send now, or `None` when the creation has ended.
    #[verifier::when_used_as_spec(spec_pending)]
    pub fn pending(&self) -> (request: Option<Request>)
        ensures
            request == self.spec_pending(),
    {
        match self.stage {
            Stage::OpenFont => Some(Request::OpenFont(OpenFont { fid: self.font, name: "cursor" })),
            Stage::CreateGlyphCursor => Some(
                Request::CreateGlyphCursor(
                    CreateGlyphCursor {
                        cid: self.cursor,
                        source_font: self.font,
                        mask_font: self.font,
                        source_char: self.glyph,
                        mask_char: self.mask,
                        fore_red: 0,
                        fore_green: 0,
                        fore_blue: 0,
                        back_red: 0xffff,
                        back_green: 0xffff,
                        back_blue: 0xffff,
                    },
                ),
            ),
            Stage::Done(_) => None,
        }
    }

    /// Moves on after the pending request was sent. `outcome` is what
    /// checking the request gave; it is looked at only where errors are
    /// collected, and an error then ends the creation.
    pub fn advance(&mut self, outcome: Result<(), ProtocolError>)
        ensures
            *final(self) == old(self).after(outcome),
    {
        let next = match self.stage {
            Stage::Done(result) => Stage::Done(result),
            Stage::OpenFont => match outcome {
                Err(error) => if self.checked {
                    Stage::Done(Err(error))
                } else {
                    Stage::CreateGlyphCursor
                },
                Ok(_) => Stage::CreateGlyphCursor,
            },
            Stage::CreateGlyphCursor => match outcome {
                Err(error) => if self.checked {
                    Stage::Done(Err(error))
                } else {
                    Stage::Done(Ok(self.cursor))
                },
                Ok(_) => Stage::Done(Ok(self.cursor)),
            },
        };
        self.stage = next;
    }

    /// The cursor or the error, once the creation has ended.
    pub fn result(&self) -> (result: Option<Result<Cursor, ProtocolError>>)
        ensures
            result == match self.stage {
                Stage::Done(r) => Some(r),
                _ => None::<Result<Cursor, ProtocolError>>,
            },
    {
        match self.stage {
            Stage::Done(r) => Some(r),
            _ => None,
        }
    }
}

/// Starts the creation of `cursor` from `glyph`, with the font opened as
/// `font`. Errors of the server are not collected, so the cursor is handed
/// out as soon as both requests are sent.
pub fn create_font_cursor(font: Font, cursor: Cursor, glyph: u16) -> (creation: FontCursor)
    requires
        glyph < u16::MAX,
    ensures
        creation == (FontCursor {
            checked: false,
            font,
            cursor,
            glyph,
            mask: (glyph + 1) as u16,
            stage: Stage::OpenFont,
        }),
{
    FontCursor { checked: false, font, cursor, glyph, mask: glyph + 1, stage: Stage::OpenFont }
}

/// Starts the creation of `cursor` from `glyph`, with the font opened as
/// `font`. Each request is checked, and the first error ends the creation.
pub fn create_font_cursor_checked(font: Font, cursor: Cursor, glyph: u16) -> (creation: FontCursor)
    requires
        glyph < u16::MAX,
    ensures
        creation == (FontCursor {
            checked: true,
            font,
            cursor,
            glyph,
            mask: (glyph + 1) as u16,
            stage: Stage::OpenFont,
        }),
{
    FontCursor { checked: true, font, cursor, glyph, mask: glyph + 1, stage: Stage::OpenFont }
}

/// A creation sends the font request first and the cursor request second,
/// and ends after at most two steps. Unchecked, it always ends with the
/// cursor. Checked, it ends with the first error, and then the request
/// behind the failed one is never due; without an error it ends with the
/// cursor.
pub proof fn creation_runs_in_order(
    creation: FontCursor,
    first: Result<(), ProtocolError>,
    second: Result<(), ProtocolError>,
)
    requires
        creation.stage == Stage::OpenFont,
    ensures
        creation.pending() == Some(Request::OpenFont(open_font(creation.font))),
        creation.after(first).after(second).pending() is None,
        creation.checked && first is Err ==> {
            &&& creation.after(first).pending() is None
            &&& creation.after(first).stage == Stage::Done(Err(first->Err_0))
            &&& creation.after(first).after(second).stage == Stage::Done(Err(first->Err_0))
        },
        !(creation.checked && first is Err) ==> creation.after(first).pending() == Some(
            Request::CreateGlyphCursor(
                create_glyph_cursor(creation.font, creation.cursor, creation.glyph, creation.mask),
            ),
        ),
        !(creation.checked && first is Err) && creation.checked && second is Err
            ==> creation.after(first).after(second).stage == Stage::Done(Err(second->Err_0)),
        !(creation.checked && first is Err) && !(creation.checked && second is Err)
            ==> creation.after(first).after(second).stage == Stage::Done(Ok(creation.cursor)),
{
}

} // verus!
