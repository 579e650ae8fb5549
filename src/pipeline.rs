use vstd::prelude::*;

use crate::message::{high_word, hiword, low_word, loword, PipelineMessage, WM_SIZE};

verus! {

/// Framebuffer scale of a fresh pipeline, in thousandths (1000 is a scale of 1).
pub const UNIT_SCALE: i32 = 1000;

/// Why a frame of the overlay was not rendered.
#[derive(Debug)]
pub enum RenderError<E> {
    /// The display area, scaled by the framebuffer scale, is empty.
    ZeroSizeRenderTarget,
    /// The render engine refused the display list.
    BackendRender(E),
}

/// The per-window render state of the overlay, with the user's render loop.
///
/// The display size is what the window last reported; the framebuffer scale
/// is kept in thousandths. The window procedure recorded at construction is
/// the one that was installed before the overlay's relay took its place.
pub struct Pipeline<R> {
    hwnd: isize,
    width: i32,
    height: i32,
    scale_x: i32,
    scale_y: i32,
    nav_active: bool,
    nav_visible: bool,
    wnd_proc: isize,
    render_loop: R,
}

/// What a [`Pipeline`] holds, apart from its render loop.
pub struct PipelineView {
    pub hwnd: isize,
    pub width: int,
    pub height: int,
    pub scale_x: int,
    pub scale_y: int,
    pub nav_active: bool,
    pub nav_visible: bool,
    pub wnd_proc: isize,
}

impl<R> View for Pipeline<R> {
    type V = PipelineView;

    closed spec fn view(&self) -> PipelineView {
        PipelineView {
            hwnd: self.hwnd,
            width: self.width as int,
            height: self.height as int,
            scale_x: self.scale_x as int,
            scale_y: self.scale_y as int,
            nav_active: self.nav_active,
            nav_visible: self.nav_visible,
            wnd_proc: self.wnd_proc,
        }
    }
}

/// Whether the display area, scaled by the framebuffer scale, is non-empty.
pub open spec fn area_positive(v: PipelineView) -> bool {
    v.width * v.scale_x > 0 && v.height * v.scale_y > 0
}

/// The effect of one window message on the pipeline: a resize message sets
/// the display size from the two halves of its parameter; others change nothing.
pub open spec fn apply_message(v: PipelineView, m: PipelineMessage) -> PipelineView {
    if m.0 == WM_SIZE {
        PipelineView { width: low_word(m.1) as int, height: high_word(m.1) as int, ..v }
    } else {
        v
    }
}

/// The effect of a sequence of messages, taken in order.
pub open spec fn apply_messages(v: PipelineView, ms: Seq<PipelineMessage>) -> PipelineView
    decreases ms.len(),
{
    if ms.len() == 0 {
        v
    } else {
        apply_message(apply_messages(v, ms.drop_last()), ms.last())
    }
}

/// The parameter of the last resize message in `ms`, if there is one.
pub open spec fn last_resize(ms: Seq<PipelineMessage>) -> Option<isize>
    decreases ms.len(),
{
    if ms.len() == 0 {
        None
    } else if ms.last().0 == WM_SIZE {
        Some(ms.last().1)
    } else {
        last_resize(ms.drop_last())
    }
}

/// Draining a batch of messages leaves the size of the last resize among
/// them, or the size from before when there is none; nothing else changes.
pub proof fn lemma_last_resize_wins(v: PipelineView, ms: Seq<PipelineMessage>)
    ensures
        ({
            let w = apply_messages(v, ms);
            &&& match last_resize(ms) {
                Some(l) => w.width == low_word(l) as int && w.height == high_word(l) as int,
                None => w.width == v.width && w.height == v.height,
            }
            &&& w.hwnd == v.hwnd && w.scale_x == v.scale_x && w.scale_y == v.scale_y
            &&& w.nav_active == v.nav_active && w.nav_visible == v.nav_visible
            &&& w.wnd_proc == v.wnd_proc
        }),
    decreases ms.len(),
{
    if ms.len() > 0 {
        lemma_last_resize_wins(v, ms.drop_last());
    }
}

impl<R> Pipeline<R> {
    /// The user's render loop.
    pub closed spec fn render_loop(&self) -> R {
        self.render_loop
    }

    /// The user's render loop, for the embedding code to call at each stage.
    pub fn render_loop_mut(&mut self) -> (r: &mut R)
        ensures
            *r == old(self).render_loop(),
            final(self)@ == old(self)@,
            final(self).render_loop() == *final(r),
    {
        &mut self.render_loop
    }

    /// Builds the pipeline of a window once the render engine has tried to set
    /// up its fonts. When that failed, the error comes back together with the
    /// render loop, and the window procedure is left alone. Otherwise
    /// `install_wnd_proc` puts the overlay's relay in place and returns the
    /// procedure it replaced, which the pipeline records.
    pub fn new<E, F>(
        hwnd: isize,
        client_size: (i32, i32),
        render_loop: R,
        fonts: Result<(), E>,
        install_wnd_proc: F,
    ) -> (r: Result<Self, (E, R)>)
        where
            F: FnOnce() -> isize,
        requires
            call_requires(install_wnd_proc, ()),
        ensures
            match fonts {
                Err(e) => r == Err::<Self, (E, R)>((e, render_loop)),
                Ok(_) => r is Ok && exists|prev: isize|
                    #[trigger] call_ensures(install_wnd_proc, (), prev) && r->Ok_0@ == (PipelineView {
                        hwnd,
                        width: client_size.0 as int,
                        height: client_size.1 as int,
                        scale_x: UNIT_SCALE as int,
                        scale_y: UNIT_SCALE as int,
                        nav_active: false,
                        nav_visible: false,
                        wnd_proc: prev,
                    }) && r->Ok_0.render_loop() == render_loop,
            },
    {
        match fonts {
            Err(e) => Err((e, render_loop)),
            Ok(_) => {
                let wnd_proc = install_wnd_proc();
                Ok(Pipeline {
                    hwnd,
                    width: client_size.0,
                    height: client_size.1,
                    scale_x: UNIT_SCALE,
                    scale_y: UNIT_SCALE,
                    nav_active: false,
                    nav_visible: false,
                    wnd_proc,
                    render_loop,
                })
            },
        }
    }

    /// The window this pipeline renders into.
    pub fn hwnd(&self) -> (r: isize)
        ensures
            r == self@.hwnd,
    {
        self.hwnd
    }

    /// The display size, as the window last reported it.
    pub fn display_size(&self) -> (r: (i32, i32))
        ensures
            r.0 as int == self@.width,
            r.1 as int == self@.height,
    {
        (self.width, self.height)
    }

    /// Whether navigation is forced active and visible.
    pub fn nav_flags(&self) -> (r: (bool, bool))
        ensures
            r == (self@.nav_active, self@.nav_visible),
    {
        (self.nav_active, self.nav_visible)
    }

    /// Records the framebuffer scale, in thousandths.
    pub fn set_framebuffer_scale(&mut self, scale_x: i32, scale_y: i32)
        ensures
            final(self)@ == (PipelineView { scale_x: scale_x as int, scale_y: scale_y as int, ..old(self)@ }),
            final(self).render_loop() == old(self).render_loop(),
    {
        self.scale_x = scale_x;
        self.scale_y = scale_y;
    }

    /// Applies, in order, the messages drained from the window's queue since
    /// the last frame, then forces navigation active and visible.
    pub fn prepare_render(&mut self, messages: &Vec<PipelineMessage>)
        ensures
            final(self)@ == (PipelineView {
                nav_active: true,
                nav_visible: true,
                ..apply_messages(old(self)@, messages@)
            }),
            final(self).render_loop() == old(self).render_loop(),
    {
        let n = messages.len();
        let mut i: usize = 0;
        while i < n
            invariant
                n == messages@.len(),
                i <= n,
                self@ == apply_messages(old(self)@, messages@.take(i as int)),
                self.render_loop() == old(self).render_loop(),
            decreases n - i,
        {
            let m = messages[i];
            if m.0 == WM_SIZE {
                self.width = loword(m.1) as i32;
                self.height = hiword(m.1) as i32;
            }
            proof {
                assert(messages@.take(i + 1).drop_last() == messages@.take(i as int));
            }
            i = i + 1;
        }
        proof {
            assert(messages@.take(n as int) == messages@);
        }
        self.nav_active = true;
        self.nav_visible = true;
    }

    /// Whether the display area, scaled by the framebuffer scale, is non-empty.
    pub fn has_area(&self) -> (r: bool)
        ensures
            r == area_positive(self@),
    {
        let (w, h, sx, sy) = (self.width as i64, self.height as i64, self.scale_x as i64, self.scale_y as i64);
        assert(-0x8000_0000 * 0x8000_0000 <= w * sx <= 0x8000_0000 * 0x8000_0000) by (nonlinear_arith)
            requires
                -0x8000_0000 <= w < 0x8000_0000,
                -0x8000_0000 <= sx < 0x8000_0000,
        ;
        assert(-0x8000_0000 * 0x8000_0000 <= h * sy <= 0x8000_0000 * 0x8000_0000) by (nonlinear_arith)
            requires
                -0x8000_0000 <= h < 0x8000_0000,
                -0x8000_0000 <= sy < 0x8000_0000,
        ;
        w * sx > 0 && h * sy > 0
    }

    /// Renders one frame: on an empty display area fails without calling
    /// `submit`; otherwise `submit` builds the frame with the render loop and
    /// hands the display list to the render engine, and its failure is passed
    /// on unchanged.
    pub fn render<E, F>(&mut self, submit: F) -> (r: Result<(), RenderError<E>>)
        where
            F: FnOnce(&mut R) -> Result<(), E>,
        requires
            forall|l: &mut R| #[trigger] call_requires(submit, (l,)),
        ensures
            final(self)@ == old(self)@,
            !area_positive(old(self)@) ==> r is Err && r->Err_0 is ZeroSizeRenderTarget
                && final(self).render_loop() == old(self).render_loop(),
            area_positive(old(self)@) ==> exists|l: &mut R, res: Result<(), E>|
                *l == old(self).render_loop() && #[trigger] call_ensures(submit, (l,), res)
                    && final(self).render_loop() == mut_ref_future(l) && match res {
                    Ok(_) => r is Ok,
                    Err(e) => r is Err && r->Err_0 == RenderError::BackendRender(e),
                },
    {
        if !self.has_area() {
            return Err(RenderError::ZeroSizeRenderTarget);
        }
        match submit(&mut self.render_loop) {
            Ok(_) => Ok(()),
            Err(e) => Err(RenderError::BackendRender(e)),
        }
    }

    /// The window procedure to put back on the window: the one recorded at
    /// construction. Asking again gives the same answer.
    pub fn cleanup(&self) -> (r: isize)
        ensures
            r == self@.wnd_proc,
    {
        self.wnd_proc
    }

    /// Gives the render loop back, with the window procedure to restore.
    pub fn take(self) -> (r: (R, isize))
        ensures
            r.0 == self.render_loop(),
            r.1 == self@.wnd_proc,
    {
        let wnd_proc = self.cleanup();
        (self.render_loop, wnd_proc)
    }
}

/// Building a pipeline over the procedure `prev` and cleaning it up hands
/// back exactly `prev`, whatever messages and frames came between.
pub proof fn lemma_cleanup_restores_original(
    prev: isize,
    built: PipelineView,
    ms: Seq<PipelineMessage>,
)
    requires
        built.wnd_proc == prev,
    ensures
        apply_messages(built, ms).wnd_proc == prev,
{
    lemma_last_resize_wins(built, ms);
}

} // verus!
