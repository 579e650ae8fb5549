use std::collections::HashMap;

use vstd::prelude::*;

verus! {

broadcast use vstd::std_specs::hash::group_hash_axioms;

/// What the relay keeps for one window: the procedure it replaced, and the
/// sending end of the window's message queue.
pub struct SharedState<E> {
    pub wnd_proc: isize,
    pub tx: E,
}

/// The process-wide table from window handle to the shared state of that
/// window's pipeline. A window has at most one entry.
pub struct Registry<E> {
    states: HashMap<isize, SharedState<E>>,
}

impl<E> View for Registry<E> {
    type V = Map<isize, SharedState<E>>;

    closed spec fn view(&self) -> Map<isize, SharedState<E>> {
        self.states@
    }
}

/// Where the relay sends one window message.
#[derive(Debug, PartialEq, Eq)]
pub enum Route {
    /// Straight to the system's default handler.
    DefaultHandler,
    /// Into the pipeline's queue, then on to the procedure that was replaced.
    Pipeline(isize),
}

impl<E> Registry<E> {
    /// An empty table.
    pub fn new() -> (r: Self)
        ensures
            r@ == Map::<isize, SharedState<E>>::empty(),
    {
        Registry { states: HashMap::new() }
    }

    /// Records the shared state of the pipeline of `hwnd`, in place of any
    /// earlier one.
    pub fn register(&mut self, hwnd: isize, state: SharedState<E>)
        ensures
            final(self)@ == old(self)@.insert(hwnd, state),
    {
        self.states.insert(hwnd, state);
    }

    /// Forgets the pipeline of `hwnd` and returns its shared state.
    pub fn unregister(&mut self, hwnd: isize) -> (r: Option<SharedState<E>>)
        ensures
            final(self)@ == old(self)@.remove(hwnd),
            r == (if old(self)@.contains_key(hwnd) { Some(old(self)@[hwnd]) } else { None }),
    {
        self.states.remove(&hwnd)
    }

    /// The shared state of the pipeline of `hwnd`, if it has one.
    pub fn get(&self, hwnd: isize) -> (r: Option<&SharedState<E>>)
        ensures
            r == (if self@.contains_key(hwnd) { Some(&self@[hwnd]) } else { None }),
    {
        self.states.get(&hwnd)
    }
}

/// Decides where a message for `hwnd` goes. `registry` is the table when the
/// lock on it was free, and `None` when it was contended: the relay never
/// waits for it. A window without a pipeline gets the default handler, so no
/// message is lost.
pub fn route<E>(registry: Option<&Registry<E>>, hwnd: isize) -> (r: Route)
    ensures
        r == (match registry {
            Some(reg) => if reg@.contains_key(hwnd) {
                Route::Pipeline(reg@[hwnd].wnd_proc)
            } else {
                Route::DefaultHandler
            },
            None => Route::DefaultHandler,
        }),
{
    match registry {
        None => Route::DefaultHandler,
        Some(reg) => match reg.get(hwnd) {
            None => Route::DefaultHandler,
            Some(state) => Route::Pipeline(state.wnd_proc),
        },
    }
}

} // verus!
