use vstd::prelude::*;
use crate::context::Context;
use crate::error::Error;
use crate::push::Push;

verus! {

/// Something that can mirror its data on a device.
///
/// The host-side value builds, and later refreshes, a device-resident copy
/// of itself for one context; the copy binds itself into kernel argument
/// lists through [`Push`].  Implemented by scene, view and renderer types;
/// the leaf implementations live with the library's consumers.
pub trait Store {
    /// The data that is stored on the device.
    type Data: Push;

    /// Creates device data for one context.
    fn new_data(&self, context: &Context) -> Result<Self::Data, Error>;

    /// Updates previously created device data after host state changed.
    fn update_data(&self, context: &Context, data: &mut Self::Data) -> Result<(), Error>;
}

} // verus!
