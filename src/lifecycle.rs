use vstd::prelude::*;

verus! {

/// Where a backend adapter stands in its life.
#[derive(Clone, Copy, Debug, PartialEq, Eq, Structural)]
pub enum AdapterState {
    /// Nothing installed yet.
    Uninitialized,
    /// The present hook is installed; no pipeline exists.
    Hooked,
    /// A present call is building the pipeline.
    Constructing,
    /// The pipeline exists and serves each frame.
    Active,
    /// The hooks are gone and the adapter's state released.
    Unhooked,
}

/// What the overlay does during one intercepted present call. Whatever it
/// is, the original present function is called afterwards.
#[derive(Clone, Copy, Debug, PartialEq, Eq, Structural)]
pub enum OverlayStep {
    /// Build the pipeline, then report the outcome.
    Construct,
    /// Prepare and render a frame with the pipeline.
    Render,
    /// Leave the overlay out of this frame.
    Skip,
}

/// Something that happens to an adapter.
#[derive(Clone, Copy, Debug, PartialEq, Eq, Structural)]
pub enum AdapterEvent {
    /// The present hook was installed.
    Hook,
    /// A present call came in; the flag says whether the pipeline's lock was free.
    Present(bool),
    /// The pipeline construction ended; the flag says whether it succeeded.
    Constructed(bool),
    /// The adapter was told to release everything.
    Unhook,
}

/// The state after an event, and the overlay's step when the event is a
/// present call.
pub open spec fn step(s: AdapterState, e: AdapterEvent) -> (AdapterState, OverlayStep) {
    match e {
        AdapterEvent::Hook => if s == AdapterState::Uninitialized {
            (AdapterState::Hooked, OverlayStep::Skip)
        } else {
            (s, OverlayStep::Skip)
        },
        AdapterEvent::Present(lock_free) => match s {
            AdapterState::Hooked => (AdapterState::Constructing, OverlayStep::Construct),
            AdapterState::Active => if lock_free {
                (s, OverlayStep::Render)
            } else {
                (s, OverlayStep::Skip)
            },
            _ => (s, OverlayStep::Skip),
        },
        AdapterEvent::Constructed(ok) => if s == AdapterState::Constructing {
            if ok {
                (AdapterState::Active, OverlayStep::Skip)
            } else {
                (AdapterState::Hooked, OverlayStep::Skip)
            }
        } else {
            (s, OverlayStep::Skip)
        },
        AdapterEvent::Unhook => (AdapterState::Unhooked, OverlayStep::Skip),
    }
}

/// The state after a run of events.
pub open spec fn run(s: AdapterState, es: Seq<AdapterEvent>) -> AdapterState
    decreases es.len(),
{
    if es.len() == 0 {
        s
    } else {
        run(step(s, es[0]).0, es.drop_first())
    }
}

/// How many pipeline constructions a run of events starts.
pub open spec fn constructions(s: AdapterState, es: Seq<AdapterEvent>) -> nat
    decreases es.len(),
{
    if es.len() == 0 {
        0
    } else {
        (if step(s, es[0]).1 == OverlayStep::Construct {
            1nat
        } else {
            0nat
        }) + constructions(step(s, es[0]).0, es.drop_first())
    }
}

/// How many failed constructions a run of events reports.
pub open spec fn failures(es: Seq<AdapterEvent>) -> nat
    decreases es.len(),
{
    if es.len() == 0 {
        0
    } else {
        (if es[0] == AdapterEvent::Constructed(false) {
            1nat
        } else {
            0nat
        }) + failures(es.drop_first())
    }
}

/// Whether a state may still start a construction without one failing first.
pub open spec fn may_construct(s: AdapterState) -> bool {
    s == AdapterState::Uninitialized || s == AdapterState::Hooked
}

/// The pipeline is built at most once: however present calls, outcomes and
/// unhooking interleave, a construction starts again only after one failed.
pub proof fn lemma_construct_at_most_once(s: AdapterState, es: Seq<AdapterEvent>)
    ensures
        constructions(s, es) <= (if may_construct(s) {
            1nat
        } else {
            0nat
        }) + failures(es),
    decreases es.len(),
{
    if es.len() > 0 {
        lemma_construct_at_most_once(step(s, es[0]).0, es.drop_first());
    }
}

/// With no failed construction, at most one pipeline is ever built.
pub proof fn lemma_single_pipeline(s: AdapterState, es: Seq<AdapterEvent>)
    requires
        failures(es) == 0,
    ensures
        constructions(s, es) <= 1,
{
    lemma_construct_at_most_once(s, es);
}

/// Why the lazy construction of a pipeline did not produce one.
#[derive(Debug, PartialEq, Eq)]
pub enum InitError<E> {
    /// No render loop is waiting in the slot.
    NoRenderLoop,
    /// The render engine or its fonts could not be set up.
    ContextInitialization(E),
}

/// Builds the pipeline lazily from the render loop waiting in `slot`.
/// `engine` is the outcome of creating the render engine; `build` makes the
/// pipeline from the engine and the render loop and, when it fails, hands the
/// render loop back, which then returns to the slot for a later attempt.
pub fn init_pipeline<G, R, E, P, B>(slot: &mut Option<R>, engine: Result<G, E>, build: B) -> (r: Result<P, InitError<E>>)
    where
        B: FnOnce(G, R) -> Result<P, (E, R)>,
    requires
        forall|g: G, l: R| #[trigger] call_requires(build, (g, l)),
    ensures
        match engine {
            Err(e) => r == Err::<P, InitError<E>>(InitError::ContextInitialization(e))
                && *final(slot) == *old(slot),
            Ok(g) => match *old(slot) {
                None => r == Err::<P, InitError<E>>(InitError::NoRenderLoop) && *final(slot) is None,
                Some(l) => exists|res: Result<P, (E, R)>|
                    #[trigger] call_ensures(build, (g, l), res) && match res {
                        Ok(p) => r == Ok::<P, InitError<E>>(p) && *final(slot) is None,
                        Err((e, back)) => r == Err::<P, InitError<E>>(InitError::ContextInitialization(e))
                            && *final(slot) == Some(back),
                    },
            },
        },
{
    let g = match engine {
        Err(e) => return Err(InitError::ContextInitialization(e)),
        Ok(g) => g,
    };
    let l = match slot.take() {
        None => return Err(InitError::NoRenderLoop),
        Some(l) => l,
    };
    match build(g, l) {
        Ok(p) => Ok(p),
        Err((e, back)) => {
            *slot = Some(back);
            Err(InitError::ContextInitialization(e))
        },
    }
}

/// The lifecycle of one backend adapter, fed the events that the embedding
/// code sees: it decides for each present call what the overlay does.
pub struct Lifecycle {
    state: AdapterState,
}

impl View for Lifecycle {
    type V = AdapterState;

    closed spec fn view(&self) -> AdapterState {
        self.state
    }
}

impl Lifecycle {
    /// An adapter with nothing installed.
    pub fn new() -> (r: Self)
        ensures
            r@ == AdapterState::Uninitialized,
    {
        Lifecycle { state: AdapterState::Uninitialized }
    }

    /// The current state.
    pub fn state(&self) -> (r: AdapterState)
        ensures
            r == self@,
    {
        self.state
    }

    /// Takes one event, and returns what the overlay does about it.
    pub fn handle(&mut self, e: AdapterEvent) -> (r: OverlayStep)
        ensures
            (final(self)@, r) == step(old(self)@, e),
    {
        let (s, r) = match e {
            AdapterEvent::Hook => match self.state {
                AdapterState::Uninitialized => (AdapterState::Hooked, OverlayStep::Skip),
                s => (s, OverlayStep::Skip),
            },
            AdapterEvent::Present(lock_free) => match self.state {
                AdapterState::Hooked => (AdapterState::Constructing, OverlayStep::Construct),
                AdapterState::Active => if lock_free {
                    (AdapterState::Active, OverlayStep::Render)
                } else {
                    (AdapterState::Active, OverlayStep::Skip)
                },
                s => (s, OverlayStep::Skip),
            },
            AdapterEvent::Constructed(ok) => match self.state {
                AdapterState::Constructing => if ok {
                    (AdapterState::Active, OverlayStep::Skip)
                } else {
                    (AdapterState::Hooked, OverlayStep::Skip)
                },
                s => (s, OverlayStep::Skip),
            },
            AdapterEvent::Unhook => (AdapterState::Unhooked, OverlayStep::Skip),
        };
        self.state = s;
        r
    }

    /// The hook was installed.
    pub fn hooked(&mut self)
        ensures
            final(self)@ == step(old(self)@, AdapterEvent::Hook).0,
    {
        self.handle(AdapterEvent::Hook);
    }

    /// A present call came in; `lock_free` says whether the pipeline's lock
    /// was free. Returns what the overlay does in this frame.
    pub fn on_present(&mut self, lock_free: bool) -> (r: OverlayStep)
        ensures
            (final(self)@, r) == step(old(self)@, AdapterEvent::Present(lock_free)),
    {
        self.handle(AdapterEvent::Present(lock_free))
    }

    /// The construction that `on_present` asked for ended.
    pub fn on_constructed(&mut self, ok: bool)
        ensures
            final(self)@ == step(old(self)@, AdapterEvent::Constructed(ok)).0,
    {
        self.handle(AdapterEvent::Constructed(ok));
    }

    /// The adapter releases everything.
    pub fn unhook(&mut self)
        ensures
            final(self)@ == AdapterState::Unhooked,
    {
        self.handle(AdapterEvent::Unhook);
    }
}

} // verus!
