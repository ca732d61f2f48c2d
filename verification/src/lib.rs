//! Host-side core of a progressive ray-tracing renderer.
//!
//! The crate composes a device program from independently authored source
//! fragments (deduplicated per contributing type), marshals host values into
//! device buffers and kernel argument lists, and drives a multi-device
//! progressive accumulation pipeline.  Device-resident state is modelled with
//! plain integer lanes; the device backend that executes compiled kernels is
//! an external collaborator whose per-pass output enters through arguments.

/// Various device buffers.
pub mod buffer;
/// An interface and its concrete implementations in device code.
pub mod class;
/// Context of the device code execution.
pub mod context;
/// Own error type.
pub mod error;
/// Filter for rendered-image postprocessing.
pub mod filter;
/// Material of an object.
pub mod material;
/// An object to render.
pub mod object;
/// Serialization of entities for storing them on the device.
pub mod pack;
/// Functionality of the rendering pipeline.
pub mod process;
/// Pushing arguments to the device kernel.
pub mod push;
/// The device program and the hook chain that resolves its source.
pub mod program;
/// The scene to be rendered.
pub mod scene;
/// Shape of an object.
pub mod shape;
/// Loading and deduplicating the device source code.
pub mod source;
/// Representation of entities that mirror data on the device.
pub mod store;
/// Small helpers over text.
pub mod text;
/// Trusted access to the host's monotonic clock.
pub mod timing;
/// Stable type identities for the source dedup cache.
pub mod type_hash;
/// The view of the scene.
pub mod view;

pub use buffer::double_buffer::DoubleBuffer;
pub use buffer::image::Image;
pub use buffer::render_buffer::RenderBuffer;
pub use class::Class;
pub use class::Instance;
pub use context::Context;
pub use error::Error;
pub use filter::identity::IdentityFilter;
pub use filter::Filter;
pub use material::Material;
pub use material::MaterialClass;
pub use object::Object;
pub use object::ObjectClass;
pub use pack::Pack;
pub use scene::background::Background;
pub use scene::Scene;
pub use shape::bound::Bound;
pub use shape::bound::BoundClass;
pub use shape::bound::Bounded;
pub use shape::sphere::Sphere;
pub use shape::Shape;
pub use shape::ShapeClass;
pub use store::Store;
pub use view::View;
pub use program::BuiltProgram;
pub use program::ListHook;
pub use program::MemHook;
pub use program::Program;
pub use process::accumulator::Accumulator;
pub use process::accumulator::MeanArgs;
pub use process::kernel::Kernel;
pub use process::kernel::KernelSubtype;
pub use process::postproc::PackArgs;
pub use process::postproc::Postproc;
pub use process::postproc::PostprocBuilder;
pub use process::postproc::PostprocCollector;
pub use process::render::RenderData;
pub use process::render::Renderer;
pub use process::render::RenderWorker;
pub use program::core_source;
pub use push::ArgKind;
pub use push::ArgValue;
pub use push::DeviceKernel;
pub use push::KernelBuilder;
pub use push::Push;
pub use push::PushDyn;
pub use source::Source;
pub use source::SourceCache;
pub use type_hash::TypeHash;
