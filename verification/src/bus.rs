//! I2C transactions that the drivers hand to the bus owner.
use vstd::prelude::*;

verus! {

/// One I2C write: the 7-bit device address and the bytes sent after it
/// (the first byte is the register the device starts writing at).
#[derive(Debug, PartialEq, Eq)]
pub struct BusWrite {
    pub addr: u8,
    pub bytes: Vec<u8>,
}

impl View for BusWrite {
    type V = (u8, Seq<u8>);

    open spec fn view(&self) -> (u8, Seq<u8>) {
        (self.addr, self.bytes@)
    }
}

/// The views of a list of writes, in order.
pub open spec fn writes_view(writes: Seq<BusWrite>) -> Seq<(u8, Seq<u8>)> {
    writes.map_values(|w: BusWrite| w@)
}

/// A write of one value to one register.
pub fn register_write(addr: u8, reg: u8, val: u8) -> (w: BusWrite)
    ensures
        w@ == (addr, seq![reg, val]),
{
    let mut bytes: Vec<u8> = Vec::new();
    bytes.push(reg);
    bytes.push(val);
    BusWrite { addr, bytes }
}

/// One I2C write-then-read: the device address, the register written
/// first, and the number of bytes read back.
#[derive(Clone, Copy, Debug, PartialEq, Eq, Structural)]
pub struct BusRead {
    pub addr: u8,
    pub reg: u8,
    pub len: usize,
}

/// Progress of running a plan of `len` bus steps in order, stopping at the
/// first that fails: `done` steps went through, and `failed` tells whether
/// the step after them failed.
pub struct PlanRun {
    len: usize,
    done: usize,
    failed: bool,
}

impl PlanRun {
    /// Number of steps in the plan.
    pub closed spec fn len_view(&self) -> nat {
        self.len as nat
    }

    /// Number of steps that went through, in order from the first.
    pub closed spec fn done_view(&self) -> nat {
        self.done as nat
    }

    /// Whether the step after the `done` first ones failed.
    pub closed spec fn failed_view(&self) -> bool {
        self.failed
    }

    /// The steps attempted so far: those that went through, and the
    /// failing one if there is one.
    pub open spec fn attempted(&self) -> nat {
        self.done_view() + if self.failed_view() { 1nat } else { 0nat }
    }

    /// Whether the run is over: a step failed, or all went through.
    pub open spec fn finished(&self) -> bool {
        self.failed_view() || self.done_view() >= self.len_view()
    }

    /// A run of a plan of `len` steps, nothing attempted yet.
    pub fn new(len: usize) -> (run: Self)
        ensures
            run.len_view() == len,
            run.done_view() == 0,
            !run.failed_view(),
    {
        PlanRun { len, done: 0, failed: false }
    }

    /// The index of the step to attempt next: the first not yet attempted,
    /// or `None` once the run is over. No step is ever offered after a
    /// failed one, and the steps are offered in order.
    pub fn next(&self) -> (i: Option<usize>)
        ensures
            i == (if self.finished() { None } else { Some(self.done_view() as usize) }),
            i matches Some(k) ==> k < self.len_view() && k == self.attempted(),
    {
        if self.failed || self.done >= self.len {
            None
        } else {
            Some(self.done)
        }
    }

    /// Reports whether the step offered by `next` went through.
    pub fn report(&mut self, ok: bool)
        requires
            !old(self).finished(),
        ensures
            final(self).len_view() == old(self).len_view(),
            final(self).done_view() == old(self).done_view() + if ok { 1nat } else { 0nat },
            final(self).failed_view() == !ok,
            final(self).attempted() == old(self).attempted() + 1,
    {
        if ok {
            self.done = self.done + 1;
        } else {
            self.failed = true;
        }
    }

    /// Number of steps that went through.
    pub fn succeeded(&self) -> (n: usize)
        ensures
            n == self.done_view(),
    {
        self.done
    }

    /// The outcome of a finished run: an error exactly when a step failed.
    pub fn result(&self) -> (r: Result<(), ()>)
        requires
            self.finished(),
        ensures
            r is Err <==> self.failed_view(),
            r is Ok ==> self.done_view() >= self.len_view(),
    {
        if self.failed {
            Err(())
        } else {
            Ok(())
        }
    }
}

/// A run stops at the first failing step: while it goes on, every step
/// attempted went through; once a step fails, the steps attempted are
/// exactly the ones before it and the failing one, and nothing more is
/// offered.
pub proof fn lemma_run_stops_at_failure(run: PlanRun)
    ensures
        !run.failed_view() ==> run.attempted() == run.done_view(),
        run.failed_view() ==> run.finished() && run.attempted() == run.done_view() + 1,
{
}

} // verus!
