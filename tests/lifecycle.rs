use hudhook::lifecycle::{init_pipeline, AdapterState, InitError, Lifecycle, OverlayStep};

#[test]
fn concurrent_first_calls_construct_once() {
    let mut l = Lifecycle::new();
    l.hooked();
    let first = l.on_present(true);
    let second = l.on_present(true);
    assert_eq!(first, OverlayStep::Construct);
    assert_eq!(second, OverlayStep::Skip);
    l.on_constructed(true);
    assert_eq!(l.state(), AdapterState::Active);
    assert_eq!(l.on_present(true), OverlayStep::Render);
    assert_eq!(l.on_present(true), OverlayStep::Render);
}

#[test]
fn contended_pipeline_skips_frame() {
    let mut l = Lifecycle::new();
    l.hooked();
    l.on_present(true);
    l.on_constructed(true);
    assert_eq!(l.on_present(false), OverlayStep::Skip);
    assert_eq!(l.state(), AdapterState::Active);
}

#[test]
fn failed_construction_is_retried() {
    let mut l = Lifecycle::new();
    assert_eq!(l.on_present(true), OverlayStep::Skip);
    l.hooked();
    assert_eq!(l.on_present(true), OverlayStep::Construct);
    l.on_constructed(false);
    assert_eq!(l.state(), AdapterState::Hooked);
    assert_eq!(l.on_present(true), OverlayStep::Construct);
}

#[test]
fn unhooked_adapter_never_renders() {
    let mut l = Lifecycle::new();
    l.hooked();
    l.on_present(true);
    l.on_constructed(true);
    l.unhook();
    assert_eq!(l.state(), AdapterState::Unhooked);
    assert_eq!(l.on_present(true), OverlayStep::Skip);
    l.hooked();
    assert_eq!(l.state(), AdapterState::Unhooked);
}

#[test]
fn init_pipeline_gives_render_loop_back_on_failure() {
    let mut slot = Some(String::from("loop"));
    let r: Result<u32, InitError<&str>> =
        init_pipeline(&mut slot, Ok::<u8, &str>(1), |_g, l| Err(("fonts", l)));
    assert_eq!(r, Err(InitError::ContextInitialization("fonts")));
    assert_eq!(slot.as_deref(), Some("loop"));
    let r2: Result<usize, InitError<&str>> =
        init_pipeline(&mut slot, Ok::<u8, &str>(2), |g, l| Ok(l.len() + g as usize));
    assert_eq!(r2, Ok(6));
    assert!(slot.is_none());
}

#[test]
fn init_pipeline_without_render_loop_fails() {
    let mut slot: Option<String> = None;
    let r: Result<u32, InitError<&str>> =
        init_pipeline(&mut slot, Ok::<u8, &str>(1), |_g, _l| Ok(1));
    assert_eq!(r, Err(InitError::NoRenderLoop));
}

#[test]
fn init_pipeline_engine_failure_keeps_slot() {
    let mut slot = Some(3u8);
    let r: Result<u32, InitError<&str>> =
        init_pipeline(&mut slot, Err::<u8, &str>("engine"), |_g, _l| Ok(1));
    assert_eq!(r, Err(InitError::ContextInitialization("engine")));
    assert_eq!(slot, Some(3));
}
