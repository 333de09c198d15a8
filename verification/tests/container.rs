use splitview::{BasicSplitView, Pane, PaneConfig, WindowModel};

fn converted_view() -> BasicSplitView {
    BasicSplitView::from_window(
        WindowModel { delegate: None, visible: false, native_handle: true },
        PaneConfig::Webview { url: "index.html".to_string() },
        "main".to_string(),
    )
    .unwrap()
}

fn webview_pane(url: &str) -> Pane {
    Pane { content: PaneConfig::Webview { url: url.to_string() }, collapsed: false }
}

#[test]
fn conversion_yields_one_pane_and_no_dividers() {
    let view = converted_view();
    assert_eq!(view.pane_count(), 1);
    assert!(view.is_vertical());
    assert_eq!(view.label(), "main");
    assert_eq!(view.as_split_view().dividers.len(), 0);
}

#[test]
fn adding_a_pane_increments_the_count() {
    let mut view = converted_view();
    assert_eq!(view.pane_count(), 1);
    view.add_pane(webview_pane("right.html"));
    assert_eq!(view.pane_count(), 2);
    view.add_pane(webview_pane("third.html"));
    assert_eq!(view.pane_count(), 3);
}

#[test]
fn n_panes_have_n_minus_one_dividers() {
    let mut view = converted_view();
    for i in 0..4 {
        assert_eq!(view.as_split_view().dividers.len(), i);
        view.add_pane(webview_pane("extra.html"));
    }
    assert_eq!(view.pane_count(), 5);
    assert_eq!(view.as_split_view().dividers.len(), 4);
}

#[test]
fn divider_position_roundtrips_in_range() {
    let mut view = converted_view();
    view.add_pane(webview_pane("right.html"));

    let position = 312.5f64;
    view.set_divider_position(0, position.to_bits());
    assert_eq!(f64::from_bits(view.get_divider_position(0)), 312.5);
}

#[test]
fn divider_position_out_of_range_is_zero_and_never_fails() {
    let mut view = converted_view();
    view.add_pane(webview_pane("right.html"));
    view.set_divider_position(0, 250.0f64.to_bits());

    // Two panes: the only valid divider index is 0.
    assert_eq!(f64::from_bits(view.get_divider_position(1)), 0.0);
    assert_eq!(f64::from_bits(view.get_divider_position(17)), 0.0);
    assert_eq!(f64::from_bits(view.get_divider_position(usize::MAX)), 0.0);
    // The in-range divider still answers its recorded position.
    assert_eq!(f64::from_bits(view.get_divider_position(0)), 250.0);
}

#[test]
fn divider_thickness_setter_is_a_recognized_no_op() {
    let mut view = converted_view();
    let before = view.divider_thickness();
    view.set_divider_thickness(9.5f64.to_bits());
    assert_eq!(view.divider_thickness(), before);
}

#[test]
fn pane_at_index_in_and_out_of_range() {
    let mut view = converted_view();
    view.add_pane(webview_pane("right.html"));

    let first = view.pane_at_index(0).unwrap();
    assert_eq!(first.content, PaneConfig::Webview { url: "index.html".to_string() });
    let second = view.pane_at_index(1).unwrap();
    assert_eq!(second.content, PaneConfig::Webview { url: "right.html".to_string() });
    assert!(view.pane_at_index(2).is_none());
}

#[test]
fn collapse_queries_and_placeholder_setters() {
    let mut view = converted_view();
    assert!(!view.is_pane_collapsed(0));
    assert!(!view.is_pane_collapsed(5));

    view.set_pane_collapsible(0, true);
    view.set_pane_min_size(0, 100.0f64.to_bits());
    view.set_pane_max_size(0, 500.0f64.to_bits());
    assert_eq!(view.pane_count(), 1);
    assert!(!view.is_pane_collapsed(0));
}

#[test]
fn show_and_hide_drive_visibility() {
    let mut view = converted_view();
    assert!(!view.is_visible());
    view.show();
    assert!(view.is_visible());
    view.hide_window();
    assert!(!view.is_visible());
}

#[test]
fn window_and_to_window_resolve_the_owner() {
    let view = converted_view();
    assert!(view.window().is_some());
    assert!(view.to_window().is_some());
    assert!(!view.window().unwrap().visible);
}

#[test]
fn conversion_fails_without_a_native_handle() {
    let result = BasicSplitView::from_window(
        WindowModel { delegate: None, visible: false, native_handle: false },
        PaneConfig::Webview { url: "index.html".to_string() },
        "main".to_string(),
    );
    assert_eq!(result.unwrap_err(), splitview::Error::NativeHandleUnavailable);
}
