use vstd::prelude::*;

use crate::mh::{status_result, MhHook, MhStatus};

verus! {

/// One step of applying or removing the overlay's hooks.
#[derive(Clone, Copy, Debug, PartialEq, Eq, Structural)]
pub enum HookOp {
    /// Queue the hook over this address to be enabled.
    QueueEnable(usize),
    /// Queue the hook over this address to be disabled.
    QueueDisable(usize),
    /// Commit every queued toggle at once.
    ApplyQueued,
    /// Shut the hooking library down.
    Uninitialize,
    /// Let the adapter at this index release its trampoline and pipeline.
    Unhook(usize),
}

/// The steps that enable every hook: each one queued, then one commit.
pub open spec fn apply_ops(hooks: Seq<usize>) -> Seq<HookOp> {
    hooks.map_values(|h: usize| HookOp::QueueEnable(h)).push(HookOp::ApplyQueued)
}

/// The steps that remove the overlay: every hook queued for disabling, one
/// commit, the library shut down, and only then each adapter released.
pub open spec fn unapply_ops(hooks: Seq<usize>, adapters: nat) -> Seq<HookOp> {
    hooks.map_values(|h: usize| HookOp::QueueDisable(h)).push(HookOp::ApplyQueued).push(
        HookOp::Uninitialize,
    ) + Seq::new(adapters, |i: int| HookOp::Unhook(i as usize))
}

/// Removing the overlay disables every hook, and commits and shuts the
/// library down, before any adapter releases what it holds.
pub proof fn lemma_disable_before_release(hooks: Seq<usize>, adapters: nat, k: int)
    requires
        0 <= k < unapply_ops(hooks, adapters).len(),
        unapply_ops(hooks, adapters)[k] is Unhook,
    ensures
        forall|j: int|
            0 <= j < hooks.len() ==> j < k && #[trigger] unapply_ops(hooks, adapters)[j]
                == HookOp::QueueDisable(hooks[j]),
        hooks.len() + 1 < k,
        unapply_ops(hooks, adapters)[hooks.len() as int] == HookOp::ApplyQueued,
        unapply_ops(hooks, adapters)[hooks.len() as int + 1] == HookOp::Uninitialize,
{
    let n = hooks.len() as int;
    let ops = unapply_ops(hooks, adapters);
    let pre = hooks.map_values(|h: usize| HookOp::QueueDisable(h)).push(HookOp::ApplyQueued).push(
        HookOp::Uninitialize,
    );
    assert(pre.len() == n + 2);
    assert(k >= n + 2) by {
        if k < n + 2 {
            assert(ops[k] == pre[k]);
        }
    }
    assert forall|j: int| 0 <= j < n implies j < k && #[trigger] ops[j] == HookOp::QueueDisable(
        hooks[j],
    ) by {
        assert(ops[j] == pre[j]);
    }
    assert(ops[n] == pre[n]);
    assert(ops[n + 1] == pre[n + 1]);
}

/// A run of hook steps, handed out one at a time to the code that performs
/// them. A step is handed out only after every earlier one reported success;
/// the first failure ends the run.
pub struct HookSequence {
    ops: Vec<HookOp>,
    next: usize,
    failure: Option<MhStatus>,
}

/// What a [`HookSequence`] holds: its steps, how many succeeded, and the
/// status of the failed step, if one failed.
pub struct HookSequenceView {
    pub ops: Seq<HookOp>,
    pub done: nat,
    pub failure: Option<MhStatus>,
}

impl View for HookSequence {
    type V = HookSequenceView;

    closed spec fn view(&self) -> HookSequenceView {
        HookSequenceView { ops: self.ops@, done: self.next as nat, failure: self.failure }
    }
}

impl HookSequence {
    /// Every sequence hands out no more steps than it holds.
    pub closed spec fn wf(&self) -> bool {
        self.next <= self.ops.len()
    }

    /// A run of the given steps, none performed yet.
    pub fn new(ops: Vec<HookOp>) -> (r: Self)
        ensures
            r.wf(),
            r@ == (HookSequenceView { ops: ops@, done: 0, failure: None }),
    {
        HookSequence { ops, next: 0, failure: None }
    }

    /// The step to perform now: none once a step failed or all are done.
    pub fn next_op(&self) -> (r: Option<HookOp>)
        requires
            self.wf(),
        ensures
            r == (if self@.failure is None && self@.done < self@.ops.len() {
                Some(self@.ops[self@.done as int])
            } else {
                None
            }),
    {
        if self.failure.is_none() && self.next < self.ops.len() {
            Some(self.ops[self.next])
        } else {
            None
        }
    }

    /// Records the status of the step that `next_op` handed out. A step that
    /// reports no status (an adapter's release) reports `MhOk`.
    pub fn report(&mut self, status: MhStatus)
        requires
            old(self).wf(),
            old(self)@.failure is None,
            old(self)@.done < old(self)@.ops.len(),
        ensures
            final(self).wf(),
            final(self)@.ops == old(self)@.ops,
            status == MhStatus::MhOk ==> final(self)@.done == old(self)@.done + 1
                && final(self)@.failure is None,
            status != MhStatus::MhOk ==> final(self)@.done == old(self)@.done
                && final(self)@.failure == Some(status),
    {
        match status_result(status) {
            Ok(_) => {
                self.next = self.next + 1;
            },
            Err(e) => {
                self.failure = Some(e);
            },
        }
    }

    /// The outcome of the run: `None` while steps remain, the failed status
    /// if one failed, success once all are done.
    pub fn result(&self) -> (r: Option<Result<(), MhStatus>>)
        requires
            self.wf(),
        ensures
            r == (match self@.failure {
                Some(s) => Some(Err::<(), MhStatus>(s)),
                None => if self@.done == self@.ops.len() {
                    Some(Ok::<(), MhStatus>(()))
                } else {
                    None
                },
            }),
    {
        match self.failure {
            Some(s) => Some(Err(s)),
            None => if self.next == self.ops.len() {
                Some(Ok(()))
            } else {
                None
            },
        }
    }
}

/// The overlay's set of backend adapters, each with the hooks it installed.
pub struct Hudhook<A> {
    adapters: Vec<A>,
    hooks: Vec<MhHook>,
}

/// Builds a [`Hudhook`] one adapter at a time.
pub struct HudhookBuilder<A>(Hudhook<A>);

/// The hooked addresses of a list of hooks.
pub open spec fn addrs_of(hooks: Seq<MhHook>) -> Seq<usize> {
    hooks.map_values(|h: MhHook| h@.0)
}

/// Whether a status of the hooking library's start-up leaves it usable: it
/// started now or was already running.
pub open spec fn init_succeeded(status: MhStatus) -> bool {
    status == MhStatus::MhOk || status == MhStatus::AlreadyInitialized
}

impl<A> Hudhook<A> {
    /// The adapters, in the order they were added.
    pub closed spec fn adapters(&self) -> Seq<A> {
        self.adapters@
    }

    /// Every hook of every adapter, in the order they were added.
    pub closed spec fn hook_list(&self) -> Seq<MhHook> {
        self.hooks@
    }

    /// A builder, once the hooking library has started with `init_status`.
    pub fn builder(init_status: MhStatus) -> (r: HudhookBuilder<A>)
        requires
            init_succeeded(init_status),
        ensures
            r.hudhook().adapters().len() == 0,
            r.hudhook().hook_list().len() == 0,
    {
        HudhookBuilder(Hudhook::new(init_status))
    }

    /// No adapters yet; the hooking library started with `init_status`.
    fn new(init_status: MhStatus) -> (r: Self)
        requires
            init_succeeded(init_status),
        ensures
            r.adapters().len() == 0,
            r.hook_list().len() == 0,
    {
        Hudhook { adapters: Vec::new(), hooks: Vec::new() }
    }

    /// The number of adapters.
    pub fn adapter_count(&self) -> (r: usize)
        ensures
            r == self.adapters().len(),
    {
        self.adapters.len()
    }

    /// The adapter at `i`, for the embedding code to release.
    pub fn adapter_mut(&mut self, i: usize) -> (r: &mut A)
        requires
            i < old(self).adapters().len(),
        ensures
            *r == old(self).adapters()[i as int],
            final(self).adapters() == old(self).adapters().update(i as int, *final(r)),
            final(self).hook_list() == old(self).hook_list(),
    {
        &mut self.adapters[i]
    }

    /// The hooked addresses of every adapter.
    pub fn hooks(&self) -> (r: Vec<usize>)
        ensures
            r@ == addrs_of(self.hook_list()),
    {
        let mut r: Vec<usize> = Vec::new();
        let mut i: usize = 0;
        while i < self.hooks.len()
            invariant
                i <= self.hooks@.len(),
                r@ == addrs_of(self.hooks@.take(i as int)),
            decreases self.hooks@.len() - i,
        {
            r.push(self.hooks[i].addr());
            proof {
                assert(addrs_of(self.hooks@.take(i + 1)) =~= addrs_of(self.hooks@.take(i as int)).push(
                    self.hooks@[i as int]@.0,
                ));
            }
            i = i + 1;
        }
        proof {
            assert(self.hooks@.take(i as int) =~= self.hooks@);
        }
        r
    }

    /// The steps that enable every hook at once.
    pub fn apply(&self) -> (r: HookSequence)
        ensures
            r.wf(),
            r@ == (HookSequenceView { ops: apply_ops(addrs_of(self.hook_list())), done: 0, failure: None }),
    {
        let addrs = self.hooks();
        let mut ops: Vec<HookOp> = Vec::new();
        let mut i: usize = 0;
        while i < addrs.len()
            invariant
                i <= addrs@.len(),
                ops@ == addrs@.take(i as int).map_values(|h: usize| HookOp::QueueEnable(h)),
            decreases addrs@.len() - i,
        {
            ops.push(HookOp::QueueEnable(addrs[i]));
            proof {
                assert(addrs@.take(i + 1).map_values(|h: usize| HookOp::QueueEnable(h)) =~= addrs@.take(
                    i as int,
                ).map_values(|h: usize| HookOp::QueueEnable(h)).push(HookOp::QueueEnable(addrs@[i as int])));
            }
            i = i + 1;
        }
        proof {
            assert(addrs@.take(i as int) =~= addrs@);
        }
        ops.push(HookOp::ApplyQueued);
        HookSequence::new(ops)
    }

    /// The steps that remove every hook: all disabled and committed, the
    /// hooking library shut down, then each adapter released.
    pub fn unapply(&self) -> (r: HookSequence)
        ensures
            r.wf(),
            r@ == (HookSequenceView {
                ops: unapply_ops(addrs_of(self.hook_list()), self.adapters().len()),
                done: 0,
                failure: None,
            }),
    {
        let addrs = self.hooks();
        let mut ops: Vec<HookOp> = Vec::new();
        let mut i: usize = 0;
        while i < addrs.len()
            invariant
                i <= addrs@.len(),
                ops@ == addrs@.take(i as int).map_values(|h: usize| HookOp::QueueDisable(h)),
            decreases addrs@.len() - i,
        {
            ops.push(HookOp::QueueDisable(addrs[i]));
            proof {
                assert(addrs@.take(i + 1).map_values(|h: usize| HookOp::QueueDisable(h)) =~= addrs@.take(
                    i as int,
                ).map_values(|h: usize| HookOp::QueueDisable(h)).push(HookOp::QueueDisable(addrs@[i as int])));
            }
            i = i + 1;
        }
        proof {
            assert(addrs@.take(i as int) =~= addrs@);
        }
        ops.push(HookOp::ApplyQueued);
        ops.push(HookOp::Uninitialize);
        let ghost pre = ops@;
        let n = self.adapters.len();
        let mut j: usize = 0;
        while j < n
            invariant
                n == self.adapters@.len(),
                j <= n,
                ops@ == pre + Seq::new(j as nat, |k: int| HookOp::Unhook(k as usize)),
            decreases n - j,
        {
            ops.push(HookOp::Unhook(j));
            proof {
                assert(Seq::new((j + 1) as nat, |k: int| HookOp::Unhook(k as usize)) =~= Seq::new(
                    j as nat,
                    |k: int| HookOp::Unhook(k as usize),
                ).push(HookOp::Unhook(j)));
                assert(pre + Seq::new((j + 1) as nat, |k: int| HookOp::Unhook(k as usize)) =~= (pre
                    + Seq::new(j as nat, |k: int| HookOp::Unhook(k as usize))).push(HookOp::Unhook(j)));
            }
            j = j + 1;
        }
        HookSequence::new(ops)
    }
}

impl<A> HudhookBuilder<A> {
    /// The set built so far.
    pub closed spec fn hudhook(&self) -> Hudhook<A> {
        self.0
    }

    /// Adds an adapter with the hooks it installed.
    pub fn with(self, adapter: A, hooks: Vec<MhHook>) -> (r: Self)
        ensures
            r.hudhook().adapters() == self.hudhook().adapters().push(adapter),
            r.hudhook().hook_list() == self.hudhook().hook_list() + hooks@,
    {
        let HudhookBuilder(mut h) = self;
        let mut hooks = hooks;
        h.adapters.push(adapter);
        h.hooks.append(&mut hooks);
        HudhookBuilder(h)
    }

    /// The finished set of adapters.
    pub fn build(self) -> (r: Hudhook<A>)
        ensures
            r.adapters() == self.hudhook().adapters(),
            r.hook_list() == self.hudhook().hook_list(),
    {
        self.0
    }
}

} // verus!
