use splitview::{BasicSplitView, Error, PaneConfig, Store, WindowModel};

fn window(delegate: Option<u64>) -> WindowModel {
    WindowModel { delegate, visible: false, native_handle: true }
}

fn sample_view(label: &str, url: &str) -> BasicSplitView {
    BasicSplitView::from_window(
        window(None),
        PaneConfig::Webview { url: url.to_string() },
        label.to_string(),
    )
    .unwrap()
}

#[test]
fn register_then_lookup_returns_the_handle() {
    let mut store = Store::new();
    let view = sample_view("main", "index.html");
    store.register("main".to_string(), view);

    let looked_up = store.lookup(&"main".to_string()).unwrap();
    assert_eq!(looked_up.label(), "main");
    assert_eq!(looked_up.pane_count(), 1);
    assert_eq!(*looked_up, sample_view("main", "index.html"));
}

#[test]
fn lookup_unknown_label_fails_typed() {
    let store = Store::new();
    let result = store.lookup(&"nonexistent".to_string());
    assert_eq!(result.unwrap_err(), Error::SplitViewNotFound);
}

#[test]
fn remove_unregistered_label_returns_absent() {
    let mut store = Store::new();
    assert!(store.remove(&"ghost".to_string()).is_none());

    store.register("main".to_string(), sample_view("main", "index.html"));
    assert!(store.remove(&"other".to_string()).is_none());
    assert!(store.lookup(&"main".to_string()).is_ok());
}

#[test]
fn remove_registered_label_returns_handle_and_forgets_it() {
    let mut store = Store::new();
    store.register("main".to_string(), sample_view("main", "left.html"));

    let removed = store.remove(&"main".to_string()).unwrap();
    assert_eq!(removed, sample_view("main", "left.html"));
    assert_eq!(
        store.lookup(&"main".to_string()).unwrap_err(),
        Error::SplitViewNotFound
    );
}

#[test]
fn reregistering_a_label_overwrites() {
    let mut store = Store::new();
    store.register("main".to_string(), sample_view("main", "first.html"));
    store.register("main".to_string(), sample_view("main", "second.html"));

    let looked_up = store.lookup(&"main".to_string()).unwrap();
    assert_eq!(*looked_up, sample_view("main", "second.html"));
}

#[test]
fn labels_are_independent() {
    let mut store = Store::new();
    store.register("a".to_string(), sample_view("a", "a.html"));
    store.register("b".to_string(), sample_view("b", "b.html"));

    assert_eq!(store.lookup(&"a".to_string()).unwrap().label(), "a");
    assert_eq!(store.lookup(&"b".to_string()).unwrap().label(), "b");

    let removed = store.remove(&"a".to_string()).unwrap();
    assert_eq!(removed.label(), "a");
    assert!(store.lookup(&"b".to_string()).is_ok());
    assert_eq!(
        store.lookup(&"a".to_string()).unwrap_err(),
        Error::SplitViewNotFound
    );
}

#[test]
fn built_view_registers_under_its_label() {
    let built = splitview::SplitViewBuilder::new("main".to_string())
        .add_pane(PaneConfig::Webview { url: "left.html".to_string() })
        .add_pane(PaneConfig::Webview { url: "right.html".to_string() })
        .build(window(None))
        .unwrap();

    let mut store = Store::new();
    let label = built.label().to_string();
    store.register(label, built);

    let looked_up = store.lookup(&"main".to_string()).unwrap();
    assert_eq!(looked_up.pane_count(), 2);
    assert!(looked_up.is_vertical());
}

#[test]
fn default_store_is_empty() {
    let store = Store::default();
    assert_eq!(
        store.lookup(&"main".to_string()).unwrap_err(),
        Error::SplitViewNotFound
    );
}
