use xcb_util::reply::{Answer, Cookie, Decoder, ProtocolError, ReplyError, WipeGuard};

const BAD_WINDOW: ProtocolError = ProtocolError { response_type: 0, error_code: 3, sequence: 12 };

fn answer(status: u8, error: Option<ProtocolError>) -> Answer {
    Answer { status, error }
}

#[test]
fn cookie_keeps_what_it_was_made_with() {
    let cookie = Cookie::checked(77, Decoder::ErrorOrStatus);
    assert_eq!(cookie.sequence(), 77);
    assert!(cookie.is_checked());
    assert_eq!(cookie.decoder(), Decoder::ErrorOrStatus);
    let cookie = Cookie::unchecked(78, Decoder::ErrorOnly);
    assert_eq!(cookie.sequence(), 78);
    assert!(!cookie.is_checked());
    assert_eq!(cookie.decoder(), Decoder::ErrorOnly);
    assert_eq!(Cookie::new(77, true, Decoder::ErrorOrStatus), Cookie::checked(77, Decoder::ErrorOrStatus));
    assert_eq!(Cookie::new(78, false, Decoder::ErrorOnly), cookie);
}

#[test]
fn checked_cookie_hands_out_the_reply() {
    let cookie = Cookie::checked(1, Decoder::ErrorOrStatus);
    assert_eq!(cookie.get_reply(answer(1, None), "reply"), Ok("reply"));
}

#[test]
fn checked_cookie_reports_the_server_error() {
    for decoder in [Decoder::ErrorOnly, Decoder::ErrorOrStatus] {
        for status in [0, 1] {
            let cookie = Cookie::checked(1, decoder);
            assert_eq!(
                cookie.get_reply(answer(status, Some(BAD_WINDOW)), 5u32),
                Err(ReplyError::Protocol(BAD_WINDOW))
            );
        }
    }
}

#[test]
fn checked_name_request_on_window_without_the_property_fails() {
    let cookie = Cookie::checked(12, Decoder::ErrorOrStatus);
    assert_eq!(cookie.get_reply(answer(0, None), Vec::<u8>::new()), Err(ReplyError::Missing));
}

#[test]
fn zero_status_is_ignored_where_only_errors_count() {
    let cookie = Cookie::checked(12, Decoder::ErrorOnly);
    assert_eq!(cookie.get_reply(answer(0, None), 9u8), Ok(9));
}

#[test]
fn unchecked_cookie_never_fails() {
    for decoder in [Decoder::ErrorOnly, Decoder::ErrorOrStatus] {
        for status in [0, 1] {
            for error in [None, Some(BAD_WINDOW)] {
                let cookie = Cookie::unchecked(3, decoder);
                assert_eq!(cookie.get_reply(answer(status, error), 'r'), Ok('r'));
            }
        }
    }
}

#[test]
fn reading_an_answer_twice_gives_the_same() {
    let cookie = Cookie::checked(4, Decoder::ErrorOrStatus);
    let first = cookie.get_reply(answer(0, None), 1);
    let second = cookie.get_reply(answer(0, None), 1);
    assert_eq!(first, second);
}

#[test]
fn guard_permits_one_wipe() {
    let mut guard = WipeGuard::new();
    assert!(guard.is_armed());
    let mut wipes = 0;
    for _ in 0..5 {
        if guard.release() {
            wipes += 1;
        }
    }
    assert_eq!(wipes, 1);
    assert!(!guard.is_armed());
}

#[test]
fn many_guards_permit_one_wipe_each() {
    let mut wipes = 0;
    for _ in 0..100 {
        let mut guard = WipeGuard::new();
        if guard.release() {
            wipes += 1;
        }
        if guard.release() {
            wipes += 1;
        }
    }
    assert_eq!(wipes, 100);
}

#[test]
fn disarmed_guard_permits_no_wipe() {
    let mut guard = WipeGuard::disarmed();
    assert!(!guard.is_armed());
    assert!(!guard.release());
    assert!(!guard.release());
}
