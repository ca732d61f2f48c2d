/// Folding per-context render buffers into one merged buffer.
pub mod accumulator;
/// A compiled entry point bound to a statically known argument schema.
pub mod kernel;
/// The running-mean, filter and image-pack stages.
pub mod postproc;
/// The renderer, its per-context mirrored data, and the worker that
/// drives passes.
pub mod render;
