use vstd::prelude::*;

verus! {

/// The failures the engine core distinguishes.
///
/// `ResourceCreation` stands for a template whose buffers cannot be created
/// (the geometry handed in does not describe whole three-float vertices);
/// the rendering shell reuses it for GPU allocation and shader-compile
/// failures, which are fatal at setup time. `UnknownTemplateId` is a
/// placement whose `block_id` references no registered template.
/// `BufferSizeMismatch` is an attempt to refill a fixed-size geometry buffer
/// with a different element count.
#[derive(Clone, Copy, Debug, PartialEq, Eq, Structural)]
pub enum EngineError {
    ResourceCreation,
    UnknownTemplateId(i32),
    BufferSizeMismatch { expected: usize, actual: usize },
}

} // verus!
