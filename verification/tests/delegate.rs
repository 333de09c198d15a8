use splitview::{BasicSplitView, PaneConfig, WindowModel};

fn converted_view(original_delegate: Option<u64>) -> BasicSplitView {
    BasicSplitView::from_window(
        WindowModel { delegate: original_delegate, visible: true, native_handle: true },
        PaneConfig::Webview { url: "index.html".to_string() },
        "main".to_string(),
    )
    .unwrap()
}

fn active_delegate(view: &BasicSplitView) -> Option<u64> {
    view.window().unwrap().delegate
}

#[test]
fn install_makes_the_handler_active() {
    let mut view = converted_view(Some(7));
    view.set_event_handler(Some(42));
    assert_eq!(active_delegate(&view), Some(42));
}

#[test]
fn install_then_uninstall_restores_the_original() {
    let mut view = converted_view(Some(7));
    view.set_event_handler(Some(42));
    view.set_event_handler(None);
    assert_eq!(active_delegate(&view), Some(7));
}

#[test]
fn uninstall_twice_equals_uninstall_once() {
    let mut view = converted_view(Some(7));
    view.set_event_handler(Some(42));
    view.set_event_handler(None);
    let after_once = view.window().unwrap().clone();

    view.set_event_handler(None);
    let after_twice = view.window().unwrap().clone();
    assert_eq!(after_once, after_twice);
    assert_eq!(active_delegate(&view), Some(7));
}

#[test]
fn uninstall_with_no_prior_install_is_a_no_op() {
    let mut view = converted_view(Some(7));
    view.set_event_handler(None);
    assert_eq!(active_delegate(&view), Some(7));
}

#[test]
fn original_survives_handler_swaps() {
    let mut view = converted_view(Some(7));
    view.set_event_handler(Some(1));
    view.set_event_handler(Some(2));
    assert_eq!(active_delegate(&view), Some(2));

    view.set_event_handler(None);
    assert_eq!(active_delegate(&view), Some(7));
}

#[test]
fn original_survives_many_install_cycles() {
    let mut view = converted_view(Some(7));
    for h in 10..20u64 {
        view.set_event_handler(Some(h));
    }
    view.set_event_handler(None);
    assert_eq!(active_delegate(&view), Some(7));
}

#[test]
fn capture_works_for_a_window_without_a_delegate() {
    let mut view = converted_view(None);
    view.set_event_handler(Some(42));
    assert_eq!(active_delegate(&view), Some(42));
    view.set_event_handler(None);
    assert_eq!(active_delegate(&view), None);
}

#[test]
fn fresh_conversion_install_and_remove_restores_preconversion_handler() {
    let custom_handler: u64 = 99;
    let preconversion: u64 = 5;
    let mut view = converted_view(Some(preconversion));

    view.set_event_handler(Some(custom_handler));
    view.set_event_handler(None);

    assert_eq!(active_delegate(&view), Some(preconversion));
}
