use vstd::prelude::*;

verus! {

/// One compute device together with its command queue.
///
/// A context is the unit of resource ownership and synchronization: every
/// device buffer belongs to exactly one context, and two contexts are the
/// same processing entity exactly when they share the underlying queue.
/// The handle is cheap to duplicate and share; the identifiers are assigned
/// by the backend that opened the device.
#[derive(Clone, Copy, Debug)]
pub struct Context {
    pub device_id: u64,
    pub queue_id: u64,
}

impl PartialEq for Context {
    fn eq(&self, other: &Context) -> bool {
        self.queue_id == other.queue_id
    }
}

impl vstd::std_specs::cmp::PartialEqSpecImpl for Context {
    open spec fn obeys_eq_spec() -> bool {
        true
    }

    open spec fn eq_spec(&self, other: &Context) -> bool {
        self.queue_id == other.queue_id
    }
}

impl Context {
    /// Opens a context over the given device and its freshly created queue.
    pub fn new(device_id: u64, queue_id: u64) -> (c: Context)
        ensures
            c.device_id == device_id,
            c.queue_id == queue_id,
    {
        Context { device_id, queue_id }
    }

    /// Identity of the compute device.
    pub fn device(&self) -> (d: u64)
        ensures
            d == self.device_id,
    {
        self.device_id
    }

    /// Identity of the command queue; equality of contexts goes by it.
    pub fn queue(&self) -> (q: u64)
        ensures
            q == self.queue_id,
    {
        self.queue_id
    }
}

} // verus!
