use desktop_calendar::error::AttachError;
use desktop_calendar::finder::{find_background_container, TopLevelWindow};
use desktop_calendar::handle::WindowHandle;
use desktop_calendar::style::{embedded_style, APP_WINDOW_BIT, TOOL_WINDOW_BIT};

#[test]
fn finder_picks_window_after_first_owner() {
    let windows = vec![
        TopLevelWindow { handle: WindowHandle { raw: 10 }, owns_icon_view: false },
        TopLevelWindow { handle: WindowHandle { raw: 20 }, owns_icon_view: true },
        TopLevelWindow { handle: WindowHandle { raw: 30 }, owns_icon_view: false },
        TopLevelWindow { handle: WindowHandle { raw: 40 }, owns_icon_view: false },
    ];
    assert_eq!(find_background_container(&windows), Ok(WindowHandle { raw: 30 }));
}

#[test]
fn finder_first_owner_wins_over_later_owners() {
    let windows = vec![
        TopLevelWindow { handle: WindowHandle { raw: 1 }, owns_icon_view: true },
        TopLevelWindow { handle: WindowHandle { raw: 2 }, owns_icon_view: false },
        TopLevelWindow { handle: WindowHandle { raw: 3 }, owns_icon_view: true },
        TopLevelWindow { handle: WindowHandle { raw: 4 }, owns_icon_view: false },
    ];
    assert_eq!(find_background_container(&windows), Ok(WindowHandle { raw: 2 }));
}

#[test]
fn finder_not_found_without_any_owner() {
    let windows = vec![
        TopLevelWindow { handle: WindowHandle { raw: 1 }, owns_icon_view: false },
        TopLevelWindow { handle: WindowHandle { raw: 2 }, owns_icon_view: false },
    ];
    assert_eq!(find_background_container(&windows), Err(AttachError::NotFound));
}

#[test]
fn finder_not_found_when_owner_is_last() {
    let windows = vec![
        TopLevelWindow { handle: WindowHandle { raw: 1 }, owns_icon_view: false },
        TopLevelWindow { handle: WindowHandle { raw: 2 }, owns_icon_view: true },
    ];
    assert_eq!(find_background_container(&windows), Err(AttachError::NotFound));
}

#[test]
fn finder_not_found_on_empty_enumeration() {
    let windows: Vec<TopLevelWindow> = Vec::new();
    assert_eq!(find_background_container(&windows), Err(AttachError::NotFound));
}

#[test]
fn embedded_style_formula_on_sample_value() {
    // new_style == (old_style & !APP_WINDOW_BIT) | TOOL_WINDOW_BIT, exactly.
    assert_eq!(embedded_style(0x1234_5678), 0x1230_56F8);
}

#[test]
fn embedded_style_clears_app_bit_and_sets_tool_bit() {
    assert_eq!(embedded_style(0), TOOL_WINDOW_BIT);
    assert_eq!(embedded_style(APP_WINDOW_BIT), TOOL_WINDOW_BIT);
    assert_eq!(embedded_style(u32::MAX), u32::MAX & !APP_WINDOW_BIT);
    let styled = embedded_style(0xABCD_EF01);
    assert_eq!(styled & APP_WINDOW_BIT, 0);
    assert_eq!(styled & TOOL_WINDOW_BIT, TOOL_WINDOW_BIT);
    assert_eq!(
        styled & !(APP_WINDOW_BIT | TOOL_WINDOW_BIT),
        0xABCD_EF01 & !(APP_WINDOW_BIT | TOOL_WINDOW_BIT)
    );
}

#[test]
fn window_handle_validity() {
    assert!(WindowHandle::new(3).valid());
    assert!(WindowHandle::new(-7).valid());
    assert!(!WindowHandle::new(0).valid());
}
