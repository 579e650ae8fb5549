use hudhook::message::{hiword, loword, pack, PipelineMessage, WM_SIZE};
use hudhook::pipeline::{Pipeline, RenderError, UNIT_SCALE};

fn built(size: (i32, i32), prev: isize) -> Pipeline<&'static str> {
    match Pipeline::new(7, size, "loop", Ok::<(), u32>(()), || prev) {
        Ok(p) => p,
        Err(_) => panic!("construction failed"),
    }
}

#[test]
fn pack_and_unpack_words() {
    let l = pack(800, 600);
    assert_eq!(l, 800 + 600 * 65536);
    assert_eq!(loword(l), 800);
    assert_eq!(hiword(l), 600);
    assert_eq!(loword(pack(65535, 1)), 65535);
    assert_eq!(hiword(pack(65535, 1)), 1);
}

#[test]
fn new_seeds_client_size() {
    let p = built((640, 480), 0x1234);
    assert_eq!(p.display_size(), (640, 480));
    assert_eq!(p.hwnd(), 7);
    assert_eq!(p.nav_flags(), (false, false));
}

#[test]
fn font_failure_gives_render_loop_back() {
    let mut installed = false;
    let r = Pipeline::new(7, (640, 480), String::from("mine"), Err::<(), u32>(42), || {
        installed = true;
        5
    });
    match r {
        Err((e, l)) => {
            assert_eq!(e, 42);
            assert_eq!(l, "mine");
        }
        Ok(_) => panic!("expected the render loop back"),
    }
    assert!(!installed);
}

#[test]
fn resize_messages_last_wins() {
    let mut p = built((100, 100), 1);
    let msgs = vec![
        PipelineMessage(WM_SIZE, pack(800, 600)),
        PipelineMessage(WM_SIZE, pack(1024, 768)),
    ];
    p.prepare_render(&msgs);
    assert_eq!(p.display_size(), (1024, 768));
    assert_eq!(p.nav_flags(), (true, true));
}

#[test]
fn prepare_render_with_empty_queue_keeps_size() {
    let mut p = built((320, 200), 1);
    p.prepare_render(&Vec::new());
    assert_eq!(p.display_size(), (320, 200));
    assert_eq!(p.nav_flags(), (true, true));
}

#[test]
fn other_messages_do_not_resize() {
    let mut p = built((320, 200), 1);
    let msgs = vec![
        PipelineMessage(WM_SIZE, pack(50, 60)),
        PipelineMessage(0x0100, pack(999, 999)),
    ];
    p.prepare_render(&msgs);
    assert_eq!(p.display_size(), (50, 60));
}

#[test]
fn render_zero_width_skips_engine() {
    let mut p = built((100, 100), 1);
    p.prepare_render(&vec![PipelineMessage(WM_SIZE, pack(0, 600))]);
    p.set_framebuffer_scale(UNIT_SCALE, UNIT_SCALE);
    let mut called = false;
    let r = p.render(|_l: &mut &str| {
        called = true;
        Ok::<(), u32>(())
    });
    assert!(matches!(r, Err(RenderError::ZeroSizeRenderTarget)));
    assert!(!called);
}

#[test]
fn render_zero_scale_skips_engine() {
    let mut p = built((100, 100), 1);
    p.set_framebuffer_scale(1000, 0);
    assert!(!p.has_area());
    let r = p.render(|_l: &mut &str| -> Result<(), u32> { panic!("engine must not run") });
    assert!(matches!(r, Err(RenderError::ZeroSizeRenderTarget)));
}

#[test]
fn render_submits_and_passes_errors_on() {
    let mut p = built((100, 100), 1);
    assert!(p.has_area());
    let mut calls = 0;
    let ok = p.render(|l: &mut &str| {
        calls += 1;
        *l = "drawn";
        Ok::<(), u32>(())
    });
    assert!(ok.is_ok());
    let err = p.render(|_l: &mut &str| {
        calls += 1;
        Err::<(), u32>(9)
    });
    assert!(matches!(err, Err(RenderError::BackendRender(9))));
    assert_eq!(calls, 2);
    assert_eq!(p.take().0, "drawn");
}

#[test]
fn cleanup_restores_original_wnd_proc() {
    let mut p = built((100, 100), 0x7f00_1234);
    p.prepare_render(&vec![PipelineMessage(WM_SIZE, pack(3, 4))]);
    assert_eq!(p.cleanup(), 0x7f00_1234);
    assert_eq!(p.cleanup(), 0x7f00_1234);
    let (l, proc_) = p.take();
    assert_eq!(l, "loop");
    assert_eq!(proc_, 0x7f00_1234);
}

#[test]
fn render_loop_is_reachable() {
    let mut p = match Pipeline::new(1, (1, 1), 10u32, Ok::<(), u8>(()), || 0) {
        Ok(p) => p,
        Err(_) => panic!("construction failed"),
    };
    *p.render_loop_mut() += 5;
    assert_eq!(p.take().0, 15);
}
