use xcb_util::cursor::{
    create_font_cursor, create_font_cursor_checked, CreateGlyphCursor, OpenFont, Request, Stage,
    ARROW, NUM_GLYPHS, WATCH, XTERM, X_CURSOR,
};
use xcb_util::reply::ProtocolError;

const BAD_FONT: ProtocolError = ProtocolError { response_type: 0, error_code: 7, sequence: 12 };

#[test]
fn glyph_numbers_are_the_standard_ones() {
    assert_eq!(X_CURSOR, 0);
    assert_eq!(ARROW, 2);
    assert_eq!(WATCH, 150);
    assert_eq!(XTERM, 152);
    assert_eq!(NUM_GLYPHS, 154);
}

#[test]
fn arrow_cursor_takes_two_requests() {
    let mut creation = create_font_cursor(0x20_0001, 0x20_0002, ARROW);
    assert_eq!(
        creation.pending(),
        Some(Request::OpenFont(OpenFont { fid: 0x20_0001, name: "cursor" }))
    );
    assert_eq!(creation.result(), None);
    creation.advance(Ok(()));
    assert_eq!(
        creation.pending(),
        Some(Request::CreateGlyphCursor(CreateGlyphCursor {
            cid: 0x20_0002,
            source_font: 0x20_0001,
            mask_font: 0x20_0001,
            source_char: 2,
            mask_char: 3,
            fore_red: 0,
            fore_green: 0,
            fore_blue: 0,
            back_red: 0xffff,
            back_green: 0xffff,
            back_blue: 0xffff,
        }))
    );
    assert_eq!(creation.result(), None);
    creation.advance(Ok(()));
    assert_eq!(creation.pending(), None);
    assert_eq!(creation.result(), Some(Ok(0x20_0002)));
    creation.advance(Ok(()));
    assert_eq!(creation.result(), Some(Ok(0x20_0002)));
}

#[test]
fn unchecked_creation_does_not_look_at_errors() {
    let mut creation = create_font_cursor(1, 2, XTERM);
    creation.advance(Err(BAD_FONT));
    assert_eq!(creation.stage, Stage::CreateGlyphCursor);
    creation.advance(Err(BAD_FONT));
    assert_eq!(creation.result(), Some(Ok(2)));
}

#[test]
fn checked_creation_stops_at_the_font_error() {
    let mut creation = create_font_cursor_checked(1, 2, ARROW);
    assert!(creation.checked);
    creation.advance(Err(BAD_FONT));
    assert_eq!(creation.pending(), None);
    assert_eq!(creation.result(), Some(Err(BAD_FONT)));
    creation.advance(Ok(()));
    assert_eq!(creation.result(), Some(Err(BAD_FONT)));
}

#[test]
fn checked_creation_stops_at_the_cursor_error() {
    let mut creation = create_font_cursor_checked(1, 2, ARROW);
    creation.advance(Ok(()));
    creation.advance(Err(BAD_FONT));
    assert_eq!(creation.result(), Some(Err(BAD_FONT)));
}

#[test]
fn checked_creation_without_error_gives_the_cursor() {
    let mut creation = create_font_cursor_checked(1, 2, WATCH);
    creation.advance(Ok(()));
    creation.advance(Ok(()));
    assert_eq!(creation.result(), Some(Ok(2)));
    assert_eq!(creation.mask, 151);
}
