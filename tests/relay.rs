use hudhook::relay::{route, Registry, Route, SharedState};

#[test]
fn unregistered_window_gets_default_handler() {
    let reg: Registry<u8> = Registry::new();
    assert_eq!(route(Some(&reg), 10), Route::DefaultHandler);
}

#[test]
fn contended_registry_gets_default_handler() {
    let mut reg: Registry<u8> = Registry::new();
    reg.register(10, SharedState { wnd_proc: 77, tx: 1 });
    assert_eq!(route(Some(&reg), 10), Route::Pipeline(77));
    let contended: Option<&Registry<u8>> = None;
    assert_eq!(route(contended, 10), Route::DefaultHandler);
}

#[test]
fn registry_keeps_one_state_per_window() {
    let mut reg: Registry<u8> = Registry::new();
    reg.register(10, SharedState { wnd_proc: 1, tx: 1 });
    reg.register(10, SharedState { wnd_proc: 2, tx: 2 });
    reg.register(11, SharedState { wnd_proc: 3, tx: 3 });
    assert_eq!(reg.get(10).map(|s| s.wnd_proc), Some(2));
    assert_eq!(route(Some(&reg), 11), Route::Pipeline(3));
    let gone = reg.unregister(10);
    assert_eq!(gone.map(|s| s.tx), Some(2));
    assert!(reg.get(10).is_none());
    assert!(reg.unregister(10).is_none());
    assert_eq!(route(Some(&reg), 10), Route::DefaultHandler);
}
