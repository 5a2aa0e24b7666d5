use xcb_util::icccm::{
    GetPropertyReply, GetTextPropertyReply, GetWmClassReply, GetWmColormapWindowsReply,
    GetWmProtocolsReply, GetWmStateCookie, GetWmStateReply, SizeHints, WmHints,
    SIZE_HINT_P_MIN_SIZE, SIZE_HINT_P_POSITION, SIZE_HINT_P_SIZE, SIZE_HINT_US_POSITION,
    SIZE_HINT_US_SIZE, WM_HINT_INPUT, WM_HINT_STATE, WM_HINT_X_URGENCY, WM_STATE_ICONIC,
    WM_STATE_NORMAL, WM_STATE_WITHDRAWN,
};
use xcb_util::reply::{Cookie, Decoder, ProtocolError, ReplyError};

#[test]
fn empty_size_hints_carry_nothing() {
    let hints = SizeHints::empty().build();
    assert_eq!(hints.flags, 0);
    assert_eq!(hints.position(), None);
    assert_eq!(hints.size(), None);
    assert_eq!(hints.min_size(), None);
    assert_eq!(hints.max_size(), None);
    assert_eq!(hints.resize(), None);
    assert_eq!(hints.aspect(), None);
    assert_eq!(hints.base(), None);
    assert_eq!(hints.gravity(), None);
}

#[test]
fn size_hints_read_back_what_was_set() {
    let hints = SizeHints::empty()
        .position(-3, 4)
        .size(640, 480)
        .min_size(10, 20)
        .max_size(1000, 2000)
        .resize(8, 16)
        .aspect((4, 3), (16, 9))
        .base(2, 1)
        .gravity(5)
        .build();
    assert_eq!(hints.position(), Some((-3, 4)));
    assert_eq!(hints.size(), Some((640, 480)));
    assert_eq!(hints.min_size(), Some((10, 20)));
    assert_eq!(hints.max_size(), Some((1000, 2000)));
    assert_eq!(hints.resize(), Some((8, 16)));
    assert_eq!(hints.aspect(), Some(((4, 3), (16, 9))));
    assert_eq!(hints.base(), Some((2, 1)));
    assert_eq!(hints.gravity(), Some(5));
    assert_eq!(hints.flags, 0x3fc);
}

#[test]
fn one_size_hint_leaves_the_others_unset() {
    let hints = SizeHints::empty().min_size(10, 20).build();
    assert_eq!(hints.flags, SIZE_HINT_P_MIN_SIZE);
    assert_eq!(hints.min_size(), Some((10, 20)));
    assert_eq!(hints.position(), None);
    assert_eq!(hints.max_size(), None);
    assert_eq!(hints.min_width, 10);
    assert_eq!(hints.min_height, 20);
}

#[test]
fn program_position_replaces_user_position() {
    let mut hints = SizeHints::empty().build();
    hints.flags = SIZE_HINT_US_POSITION | SIZE_HINT_US_SIZE;
    assert_eq!(hints.position(), None);
    assert_eq!(hints.size(), None);
    hints.flags = SIZE_HINT_P_POSITION | SIZE_HINT_P_SIZE;
    hints.x = 1;
    hints.y = 2;
    hints.width = 3;
    hints.height = 4;
    assert_eq!(hints.position(), Some((1, 2)));
    assert_eq!(hints.size(), Some((3, 4)));
}

#[test]
fn later_size_hint_wins() {
    let hints = SizeHints::empty().size(1, 2).size(3, 4).build();
    assert_eq!(hints.size(), Some((3, 4)));
    assert_eq!(hints.flags, SIZE_HINT_P_SIZE);
}

#[test]
fn empty_wm_hints_carry_nothing() {
    let hints = WmHints::empty().build();
    assert_eq!(hints.flags, 0);
    assert_eq!(hints.input(), None);
    assert!(!hints.is_iconic());
    assert!(!hints.is_normal());
    assert!(!hints.is_withdrawn());
    assert!(hints.is_none());
    assert_eq!(hints.icon_pixmap(), None);
    assert_eq!(hints.icon_mask(), None);
    assert_eq!(hints.icon_window(), None);
    assert_eq!(hints.window_group(), None);
    assert_eq!(hints.is_urgent(), None);
}

#[test]
fn wm_hints_read_back_what_was_set() {
    let hints = WmHints::empty()
        .input(true)
        .is_iconic()
        .icon_pixmap(11)
        .icon_mask(12)
        .icon_window(13)
        .window_group(14)
        .is_urgent()
        .build();
    assert_eq!(hints.input(), Some(true));
    assert!(hints.is_iconic());
    assert!(!hints.is_normal());
    assert!(!hints.is_withdrawn());
    assert!(!hints.is_none());
    assert_eq!(hints.icon_pixmap(), Some(11));
    assert_eq!(hints.icon_mask(), Some(12));
    assert_eq!(hints.icon_window(), Some(13));
    assert_eq!(hints.window_group(), Some(14));
    assert_eq!(hints.is_urgent(), Some(true));
    assert_eq!(hints.flags, 0x16f);
}

#[test]
fn input_hint_can_say_no() {
    let hints = WmHints::empty().input(false).build();
    assert_eq!(hints.input(), Some(false));
    assert_eq!(hints.flags, WM_HINT_INPUT);
    assert_eq!(hints.input, 0);
}

#[test]
fn initial_state_is_one_of_four() {
    let normal = WmHints::empty().is_normal().build();
    assert_eq!(normal.initial_state, WM_STATE_NORMAL);
    assert_eq!(normal.flags, WM_HINT_STATE);
    assert_eq!(
        (normal.is_iconic(), normal.is_normal(), normal.is_withdrawn(), normal.is_none()),
        (false, true, false, false)
    );
    let withdrawn = WmHints::empty().is_withdrawn().build();
    assert_eq!(withdrawn.initial_state, WM_STATE_WITHDRAWN);
    assert_eq!(
        (withdrawn.is_iconic(), withdrawn.is_normal(), withdrawn.is_withdrawn(), withdrawn.is_none()),
        (false, false, true, false)
    );
    let iconic = WmHints::empty().is_iconic().build();
    assert_eq!(iconic.initial_state, WM_STATE_ICONIC);
    let none = WmHints::empty().is_iconic().is_none().build();
    assert_eq!(none.flags, 0);
    assert_eq!(
        (none.is_iconic(), none.is_normal(), none.is_withdrawn(), none.is_none()),
        (false, false, false, true)
    );
    let mut odd = WmHints::empty().is_normal().build();
    odd.initial_state = 2;
    assert!(odd.is_none());
}

#[test]
fn urgency_alone_sets_one_bit() {
    let hints = WmHints::empty().is_urgent().build();
    assert_eq!(hints.flags, WM_HINT_X_URGENCY);
    assert_eq!(hints.is_urgent(), Some(true));
    assert_eq!(hints.input(), None);
}

#[test]
fn text_property_reply_reads_its_fields() {
    let reply = GetTextPropertyReply { encoding: 31, name: String::from("xterm"), format: 8 };
    assert_eq!(reply.encoding(), 31);
    assert_eq!(reply.name(), "xterm");
    assert_eq!(reply.format(), 8);
}

#[test]
fn class_reply_reads_both_names() {
    let reply = GetWmClassReply {
        instance_name: String::from("xterm"),
        class_name: String::from("XTerm"),
    };
    assert_eq!(reply.instance(), "xterm");
    assert_eq!(reply.class(), "XTerm");
}

#[test]
fn list_replies_report_their_items() {
    let windows = GetWmColormapWindowsReply { windows: vec![7, 8] };
    assert_eq!(windows.windows(), &[7, 8]);
    let protocols = GetWmProtocolsReply { atoms: vec![300] };
    assert_eq!(protocols.atoms(), &[300]);
}

#[test]
fn empty_list_replies_hold_no_item() {
    assert!(GetWmColormapWindowsReply { windows: vec![] }.windows().is_empty());
    assert!(GetWmProtocolsReply { atoms: vec![] }.atoms().is_empty());
}

#[test]
fn state_reply_reads_state_and_icon() {
    let cookie = GetWmStateCookie(Cookie::checked(5, Decoder::ErrorOnly));
    let reply = cookie
        .get_reply(Ok(GetPropertyReply { type_: 400, value: vec![3, 0x60_0001] }))
        .unwrap();
    assert_eq!(reply.state(), WM_STATE_ICONIC);
    assert_eq!(reply.icon(), 0x60_0001);
    assert_eq!(reply, GetWmStateReply(GetPropertyReply { type_: 400, value: vec![3, 0x60_0001] }));
}

#[test]
fn state_of_window_without_the_property_is_missing() {
    let cookie = GetWmStateCookie(Cookie::checked(5, Decoder::ErrorOnly));
    assert_eq!(
        cookie.get_reply(Ok(GetPropertyReply { type_: 0, value: vec![] })),
        Err(ReplyError::Missing)
    );
}

#[test]
fn state_request_passes_the_server_error_on() {
    let error = ProtocolError { response_type: 0, error_code: 3, sequence: 12 };
    let cookie = GetWmStateCookie(Cookie::checked(5, Decoder::ErrorOnly));
    assert_eq!(cookie.get_reply(Err(error)), Err(ReplyError::Protocol(error)));
}
