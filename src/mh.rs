use vstd::prelude::*;

verus! {

/// The status codes of the hooking library.
#[derive(Clone, Copy, Debug, PartialEq, Eq, Structural)]
pub enum MhStatus {
    Unknown,
    MhOk,
    AlreadyInitialized,
    NotInitialized,
    AlreadyCreated,
    NotCreated,
    Enabled,
    Disabled,
    NotExecutable,
    UnsupportedFunction,
    MemoryAlloc,
    MemoryProtect,
    ModuleNotFound,
    FunctionNotFound,
}

/// A status as a result: success only for `MhOk`, and the status itself as
/// the error otherwise.
pub open spec fn spec_status_result(status: MhStatus) -> Result<(), MhStatus> {
    if status == MhStatus::MhOk {
        Ok(())
    } else {
        Err(status)
    }
}

/// Turns a status of the hooking library into a result.
pub fn status_result(status: MhStatus) -> (r: Result<(), MhStatus>)
    ensures
        r == spec_status_result(status),
{
    if status == MhStatus::MhOk {
        Ok(())
    } else {
        Err(status)
    }
}

/// One installed hook: the address of the hooked function and the trampoline
/// that still reaches the original code.
#[derive(Clone, Copy, Debug, PartialEq, Eq, Structural)]
pub struct MhHook {
    addr: usize,
    trampoline: usize,
}

impl View for MhHook {
    /// The hooked address and the trampoline.
    type V = (usize, usize);

    closed spec fn view(&self) -> (usize, usize) {
        (self.addr, self.trampoline)
    }
}

impl MhHook {
    /// Installs a hook over `addr`. `create` asks the hooking library to
    /// redirect `addr` and returns its status with the trampoline it made; the
    /// hook exists only when the status is `MhOk`.
    pub fn new<F>(addr: usize, create: F) -> (r: Result<Self, MhStatus>)
        where
            F: FnOnce(usize) -> (MhStatus, usize),
        requires
            call_requires(create, (addr,)),
        ensures
            exists|out: (MhStatus, usize)|
                #[trigger] call_ensures(create, (addr,), out) && if out.0 == MhStatus::MhOk {
                    r is Ok && r->Ok_0@ == (addr, out.1)
                } else {
                    r == Err::<Self, MhStatus>(out.0)
                },
    {
        let (status, trampoline) = create(addr);
        match status_result(status) {
            Ok(_) => Ok(MhHook { addr, trampoline }),
            Err(e) => Err(e),
        }
    }

    /// The address of the hooked function.
    pub fn addr(&self) -> (r: usize)
        ensures
            r == self@.0,
    {
        self.addr
    }

    /// The trampoline to the original function.
    pub fn trampoline(&self) -> (r: usize)
        ensures
            r == self@.1,
    {
        self.trampoline
    }

    /// Asks, through `queue`, that this hook be enabled at the next commit.
    pub fn queue_enable<F>(&self, queue: F) -> (r: Result<(), MhStatus>)
        where
            F: FnOnce(usize) -> MhStatus,
        requires
            call_requires(queue, (self@.0,)),
        ensures
            exists|s: MhStatus| #[trigger] call_ensures(queue, (self@.0,), s) && r == spec_status_result(s),
    {
        status_result(queue(self.addr))
    }

    /// Asks, through `queue`, that this hook be disabled at the next commit.
    pub fn queue_disable<F>(&self, queue: F) -> (r: Result<(), MhStatus>)
        where
            F: FnOnce(usize) -> MhStatus,
        requires
            call_requires(queue, (self@.0,)),
        ensures
            exists|s: MhStatus| #[trigger] call_ensures(queue, (self@.0,), s) && r == spec_status_result(s),
    {
        status_result(queue(self.addr))
    }
}

} // verus!
