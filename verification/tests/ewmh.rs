use xcb_util::ewmh::{
    Atoms, Connection, Coordinates, Extents, Geometry, GetClientListReply, GetClientListStackingReply,
    GetDesktopLayoutReply, GetDesktopNamesReply, GetDesktopViewportReply, GetSupportedReply,
    GetWmAllowedActionsReply, GetWmIconReply, GetWmNameReply, GetWmStateReply,
    GetWmWindowTypeReply, GetWorkAreaReply, StrutPartial, WmFullScreenMonitors, WmIcon,
    BOTTOM_LEFT, ORIENTATION_VERT,
};
use xcb_util::reply::ProtocolError;

fn atoms() -> Atoms {
    Atoms {
        wm_cm: vec![500, 501],
        supported: 300,
        client_list: 301,
        client_list_stacking: 302,
        number_of_desktops: 303,
        desktop_geometry: 304,
        desktop_viewport: 305,
        current_desktop: 306,
        desktop_names: 307,
        active_window: 308,
        workarea: 309,
        supporting_wm_check: 310,
        virtual_roots: 311,
        desktop_layout: 312,
        showing_desktop: 313,
        close_window: 314,
        moveresize_window: 315,
        wm_moveresize: 316,
        restack_window: 317,
        request_frame_extents: 318,
        wm_name: 319,
        wm_visible_name: 320,
        wm_icon_name: 321,
        wm_visible_icon_name: 322,
        wm_desktop: 323,
        wm_window_type: 324,
        wm_state: 325,
        wm_allowed_actions: 326,
        wm_strut: 327,
        wm_strut_partial: 328,
        wm_icon_geometry: 329,
        wm_icon: 330,
        wm_pid: 331,
        wm_handled_icons: 332,
        wm_user_time: 333,
        wm_user_time_window: 334,
        frame_extents: 335,
        wm_ping: 336,
        wm_sync_request: 337,
        wm_sync_request_counter: 338,
        wm_fullscreen_monitors: 339,
        wm_full_placement: 340,
        wm_protocols: 341,
        manager: 342,
        wm_window_type_desktop: 343,
        wm_window_type_dock: 344,
        wm_window_type_toolbar: 345,
        wm_window_type_menu: 346,
        wm_window_type_utility: 347,
        wm_window_type_splash: 348,
        wm_window_type_dialog: 349,
        wm_window_type_dropdown_menu: 350,
        wm_window_type_popup_menu: 351,
        wm_window_type_tooltip: 352,
        wm_window_type_notification: 353,
        wm_window_type_combo: 354,
        wm_window_type_dnd: 355,
        wm_window_type_normal: 356,
        wm_state_modal: 357,
        wm_state_sticky: 358,
        wm_state_maximized_vert: 359,
        wm_state_maximized_horz: 360,
        wm_state_shaded: 361,
        wm_state_skip_taskbar: 362,
        wm_state_skip_pager: 363,
        wm_state_hidden: 364,
        wm_state_fullscreen: 365,
        wm_state_above: 366,
        wm_state_below: 367,
        wm_state_demands_attention: 368,
        wm_action_move: 369,
        wm_action_resize: 370,
        wm_action_minimize: 371,
        wm_action_shade: 372,
        wm_action_stick: 373,
        wm_action_maximize_horz: 374,
        wm_action_maximize_vert: 375,
        wm_action_fullscreen: 376,
        wm_action_change_desktop: 377,
        wm_action_close: 378,
        wm_action_above: 379,
        wm_action_below: 380,
    }
}

#[test]
fn records_read_their_fields() {
    let point = Coordinates { x: 1, y: 2 };
    assert_eq!((point.x(), point.y()), (1, 2));
    let area = Geometry { x: 1, y: 2, width: 3, height: 4 };
    assert_eq!((area.x(), area.y(), area.width(), area.height()), (1, 2, 3, 4));
    let extents = Extents { top: 1, bottom: 2, left: 3, right: 4 };
    assert_eq!((extents.top(), extents.bottom(), extents.left(), extents.right()), (1, 2, 3, 4));
    let monitors = WmFullScreenMonitors { top: 5, bottom: 6, left: 7, right: 8 };
    assert_eq!(
        (monitors.top(), monitors.bottom(), monitors.left(), monitors.right()),
        (5, 6, 7, 8)
    );
    let icon = WmIcon { width: 16, height: 32, id: 0xff00_0000 };
    assert_eq!((icon.width(), icon.height(), icon.id()), (16, 32, 0xff00_0000));
}

#[test]
fn strut_reads_its_twelve_fields() {
    let strut = StrutPartial {
        left: 1,
        right: 2,
        top: 3,
        bottom: 4,
        left_start_y: 5,
        left_end_y: 6,
        right_start_y: 7,
        right_end_y: 8,
        top_start_x: 9,
        top_end_x: 10,
        bottom_start_x: 11,
        bottom_end_x: 12,
    };
    assert_eq!((strut.left(), strut.right(), strut.top(), strut.bottom()), (1, 2, 3, 4));
    assert_eq!((strut.left_start_y(), strut.left_end_y()), (5, 6));
    assert_eq!((strut.right_start_y(), strut.right_end_y()), (7, 8));
    assert_eq!((strut.top_start_x(), strut.top_end_x()), (9, 10));
    assert_eq!((strut.bottom_start_x(), strut.bottom_end_x()), (11, 12));
}

#[test]
fn layout_reply_reads_its_fields() {
    let layout = GetDesktopLayoutReply {
        orientation: ORIENTATION_VERT,
        columns: 3,
        rows: 2,
        starting_corner: BOTTOM_LEFT,
    };
    assert_eq!(layout.orientation(), 1);
    assert_eq!(layout.columns(), 3);
    assert_eq!(layout.rows(), 2);
    assert_eq!(layout.starting_corner(), 3);
}

#[test]
fn atom_and_window_lists_keep_their_order() {
    assert_eq!(GetSupportedReply { atoms: vec![3, 1, 2] }.atoms(), &[3, 1, 2]);
    assert_eq!(GetClientListReply { windows: vec![9, 8] }.windows(), &[9, 8]);
    assert_eq!(GetClientListStackingReply { windows: vec![8, 9] }.windows(), &[8, 9]);
    assert_eq!(GetWmWindowTypeReply { atoms: vec![4] }.atoms(), &[4]);
    assert_eq!(GetWmStateReply { atoms: vec![5, 6] }.atoms(), &[5, 6]);
    assert_eq!(GetWmAllowedActionsReply { atoms: vec![7] }.atoms(), &[7]);
    let viewports = GetDesktopViewportReply { desktop_viewports: vec![Coordinates { x: 0, y: 5 }] };
    assert_eq!(viewports.desktop_viewports(), &[Coordinates { x: 0, y: 5 }]);
    let areas = GetWorkAreaReply { work_area: vec![Geometry { x: 0, y: 1, width: 2, height: 3 }] };
    assert_eq!(areas.work_area(), &[Geometry { x: 0, y: 1, width: 2, height: 3 }]);
}

#[test]
fn empty_atom_list_decodes_to_no_atom() {
    assert!(GetSupportedReply { atoms: vec![] }.atoms().is_empty());
    assert!(GetClientListReply { windows: vec![] }.windows().is_empty());
    assert!(GetWorkAreaReply { work_area: vec![] }.work_area().is_empty());
}

#[test]
fn empty_names_property_holds_no_name() {
    assert!(GetDesktopNamesReply { strings: String::new() }.strings().is_empty());
}

#[test]
fn desktop_names_are_split_at_terminators() {
    let reply = GetDesktopNamesReply { strings: String::from("web\0mail\0") };
    assert_eq!(reply.strings(), vec!["web", "mail"]);
    let reply = GetDesktopNamesReply { strings: String::from("web\0mail") };
    assert_eq!(reply.strings(), vec!["web", "mail"]);
}

#[test]
fn window_name_is_the_first_item() {
    assert_eq!(GetWmNameReply { strings: String::from("xterm") }.string(), "xterm");
    assert_eq!(GetWmNameReply { strings: String::from("xterm\0more") }.string(), "xterm");
    assert_eq!(GetWmNameReply { strings: String::from("\0more") }.string(), "");
    assert_eq!(GetWmNameReply { strings: String::new() }.string(), "");
}

#[test]
fn icons_come_out_in_order() {
    let first = WmIcon { width: 16, height: 16, id: 1 };
    let second = WmIcon { width: 32, height: 32, id: 2 };
    let reply = GetWmIconReply { icons: vec![first, second] };
    assert_eq!(reply.len(), 2);
    let mut icons = reply.icons();
    assert_eq!(icons.next(), Some(first));
    assert_eq!(icons.next(), Some(second));
    assert_eq!(icons.next(), None);
    assert_eq!(icons.next(), None);
}

#[test]
fn reply_without_icons_gives_none() {
    let reply = GetWmIconReply { icons: vec![] };
    assert_eq!(reply.len(), 0);
    assert_eq!(reply.icons().next(), None);
}

#[test]
fn connection_holds_the_interned_atoms() {
    let connection = Connection::connect(atoms(), None).unwrap();
    assert_eq!(connection.WM_CM(), &[500, 501]);
    assert_eq!(connection.SUPPORTED(), 300);
    assert_eq!(connection.CLIENT_LIST(), 301);
    assert_eq!(connection.CLIENT_LIST_STACKING(), 302);
    assert_eq!(connection.NUMBER_OF_DESKTOPS(), 303);
    assert_eq!(connection.DESKTOP_GEOMETRY(), 304);
    assert_eq!(connection.DESKTOP_VIEWPORT(), 305);
    assert_eq!(connection.CURRENT_DESKTOP(), 306);
    assert_eq!(connection.DESKTOP_NAMES(), 307);
    assert_eq!(connection.ACTIVE_WINDOW(), 308);
    assert_eq!(connection.WORKAREA(), 309);
    assert_eq!(connection.SUPPORTING_WM_CHECK(), 310);
    assert_eq!(connection.VIRTUAL_ROOTS(), 311);
    assert_eq!(connection.DESKTOP_LAYOUT(), 312);
    assert_eq!(connection.SHOWING_DESKTOP(), 313);
    assert_eq!(connection.CLOSE_WINDOW(), 314);
    assert_eq!(connection.MOVERESIZE_WINDOW(), 315);
    assert_eq!(connection.WM_MOVERESIZE(), 316);
    assert_eq!(connection.RESTACK_WINDOW(), 317);
    assert_eq!(connection.REQUEST_FRAME_EXTENTS(), 318);
    assert_eq!(connection.WM_NAME(), 319);
    assert_eq!(connection.WM_VISIBLE_NAME(), 320);
    assert_eq!(connection.WM_ICON_NAME(), 321);
    assert_eq!(connection.WM_VISIBLE_ICON_NAME(), 322);
    assert_eq!(connection.WM_DESKTOP(), 323);
    assert_eq!(connection.WM_WINDOW_TYPE(), 324);
    assert_eq!(connection.WM_STATE(), 325);
    assert_eq!(connection.WM_ALLOWED_ACTIONS(), 326);
    assert_eq!(connection.WM_STRUT(), 327);
    assert_eq!(connection.WM_STRUT_PARTIAL(), 328);
    assert_eq!(connection.WM_ICON_GEOMETRY(), 329);
    assert_eq!(connection.WM_ICON(), 330);
    assert_eq!(connection.WM_PID(), 331);
    assert_eq!(connection.WM_HANDLED_ICONS(), 332);
    assert_eq!(connection.WM_USER_TIME(), 333);
    assert_eq!(connection.WM_USER_TIME_WINDOW(), 334);
    assert_eq!(connection.FRAME_EXTENTS(), 335);
    assert_eq!(connection.WM_PING(), 336);
    assert_eq!(connection.WM_SYNC_REQUEST(), 337);
    assert_eq!(connection.WM_SYNC_REQUEST_COUNTER(), 338);
    assert_eq!(connection.WM_FULLSCREEN_MONITORS(), 339);
    assert_eq!(connection.WM_FULL_PLACEMENT(), 340);
    assert_eq!(connection.WM_PROTOCOLS(), 341);
    assert_eq!(connection.MANAGER(), 342);
    assert_eq!(connection.WM_WINDOW_TYPE_DESKTOP(), 343);
    assert_eq!(connection.WM_WINDOW_TYPE_DOCK(), 344);
    assert_eq!(connection.WM_WINDOW_TYPE_TOOLBAR(), 345);
    assert_eq!(connection.WM_WINDOW_TYPE_MENU(), 346);
    assert_eq!(connection.WM_WINDOW_TYPE_UTILITY(), 347);
    assert_eq!(connection.WM_WINDOW_TYPE_SPLASH(), 348);
    assert_eq!(connection.WM_WINDOW_TYPE_DIALOG(), 349);
    assert_eq!(connection.WM_WINDOW_TYPE_DROPDOWN_MENU(), 350);
    assert_eq!(connection.WM_WINDOW_TYPE_POPUP_MENU(), 351);
    assert_eq!(connection.WM_WINDOW_TYPE_TOOLTIP(), 352);
    assert_eq!(connection.WM_WINDOW_TYPE_NOTIFICATION(), 353);
    assert_eq!(connection.WM_WINDOW_TYPE_COMBO(), 354);
    assert_eq!(connection.WM_WINDOW_TYPE_DND(), 355);
    assert_eq!(connection.WM_WINDOW_TYPE_NORMAL(), 356);
    assert_eq!(connection.WM_STATE_MODAL(), 357);
    assert_eq!(connection.WM_STATE_STICKY(), 358);
    assert_eq!(connection.WM_STATE_MAXIMIZED_VERT(), 359);
    assert_eq!(connection.WM_STATE_MAXIMIZED_HORZ(), 360);
    assert_eq!(connection.WM_STATE_SHADED(), 361);
    assert_eq!(connection.WM_STATE_SKIP_TASKBAR(), 362);
    assert_eq!(connection.WM_STATE_SKIP_PAGER(), 363);
    assert_eq!(connection.WM_STATE_HIDDEN(), 364);
    assert_eq!(connection.WM_STATE_FULLSCREEN(), 365);
    assert_eq!(connection.WM_STATE_ABOVE(), 366);
    assert_eq!(connection.WM_STATE_BELOW(), 367);
    assert_eq!(connection.WM_STATE_DEMANDS_ATTENTION(), 368);
    assert_eq!(connection.WM_ACTION_MOVE(), 369);
    assert_eq!(connection.WM_ACTION_RESIZE(), 370);
    assert_eq!(connection.WM_ACTION_MINIMIZE(), 371);
    assert_eq!(connection.WM_ACTION_SHADE(), 372);
    assert_eq!(connection.WM_ACTION_STICK(), 373);
    assert_eq!(connection.WM_ACTION_MAXIMIZE_HORZ(), 374);
    assert_eq!(connection.WM_ACTION_MAXIMIZE_VERT(), 375);
    assert_eq!(connection.WM_ACTION_FULLSCREEN(), 376);
    assert_eq!(connection.WM_ACTION_CHANGE_DESKTOP(), 377);
    assert_eq!(connection.WM_ACTION_CLOSE(), 378);
    assert_eq!(connection.WM_ACTION_ABOVE(), 379);
    assert_eq!(connection.WM_ACTION_BELOW(), 380);
}

#[test]
fn failed_interning_gives_no_connection() {
    let error = ProtocolError { response_type: 0, error_code: 5, sequence: 12 };
    assert_eq!(Connection::connect(atoms(), Some(error)), Err(error));
}
