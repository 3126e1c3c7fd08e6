//! Device memory: a capacity and the one resource it is bound to.

use vstd::prelude::*;
use crate::buffer::OpenGlBuffer;
use crate::context::GlCall;
use crate::glenum;
use crate::image::OpenGlImage;

verus! {

/// What a memory object is bound to.
#[derive(Debug, Clone, Copy, PartialEq, Eq, Structural)]
pub enum Kind {
    /// Not bound yet. The flag says whether storage has been allocated.
    Unbinded(bool),
    Buffer(OpenGlBuffer),
    Texture(OpenGlImage),
}

/// Why an operation on a memory object was refused.
#[derive(Debug, Clone, Copy, PartialEq, Eq, Structural)]
pub enum MemoryError {
    /// The memory is not bound to any resource.
    Unbound,
    /// The memory is bound to an image, which cannot be mapped.
    ImageBacked,
    /// The memory is bound already; a binding is never replaced.
    AlreadyBound,
}

/// The state of a memory object as contracts see it.
pub struct MemoryView {
    pub capacity: u32,
    pub kind: Kind,
}

/// A block of device memory. It is allocated on its own and then bound to
/// exactly one buffer or image; once bound it stays bound to that resource.
#[derive(Debug)]
pub struct OpenGlMemory {
    capacity: u32,
    kind: Kind,
}

impl View for OpenGlMemory {
    type V = MemoryView;

    closed spec fn view(&self) -> MemoryView {
        MemoryView { capacity: self.capacity, kind: self.kind }
    }
}

/// Whether `kind` is one of the bound states.
pub open spec fn is_bound(kind: Kind) -> bool {
    !(kind is Unbinded)
}

/// The calls that map `buffer`: bind it, then map its target for reading and
/// writing.
pub open spec fn map_calls(buffer: OpenGlBuffer) -> Seq<GlCall> {
    seq![
        buffer.bind_call(),
        GlCall::MapBuffer { target: buffer.target, access: glenum::READ_WRITE },
    ]
}

/// What mapping memory in the state `kind` comes to: the calls of
/// [`map_calls`] for memory bound to a buffer, and a refusal for memory that
/// is unbound or bound to an image.
pub open spec fn map_plan(kind: Kind) -> Result<Seq<GlCall>, MemoryError> {
    match kind {
        Kind::Unbinded(_) => Err(MemoryError::Unbound),
        Kind::Texture(_) => Err(MemoryError::ImageBacked),
        Kind::Buffer(buffer) => Ok(map_calls(buffer)),
    }
}

/// What unmapping memory in the state `kind` comes to: one unmap of the
/// target for memory bound to a buffer, and a refusal otherwise.
pub open spec fn unmap_plan(kind: Kind) -> Result<Seq<GlCall>, MemoryError> {
    match kind {
        Kind::Unbinded(_) => Err(MemoryError::Unbound),
        Kind::Texture(_) => Err(MemoryError::ImageBacked),
        Kind::Buffer(buffer) => Ok(seq![GlCall::UnmapBuffer { target: buffer.target }]),
    }
}

/// What flushing memory in the state `kind` comes to: no call for memory
/// bound to a buffer, which is mapped for reading and writing, and a refusal
/// otherwise.
pub open spec fn flush_plan(kind: Kind) -> Result<Seq<GlCall>, MemoryError> {
    match kind {
        Kind::Unbinded(_) => Err(MemoryError::Unbound),
        Kind::Texture(_) => Err(MemoryError::ImageBacked),
        Kind::Buffer(_) => Ok(Seq::empty()),
    }
}

/// Whether `res` is what `plan` says: the same refusal, or the same calls.
pub open spec fn follows(res: Result<Vec<GlCall>, MemoryError>, plan: Result<Seq<GlCall>, MemoryError>) -> bool {
    match plan {
        Ok(calls) => res is Ok && res->Ok_0@ == calls,
        Err(e) => res == Err::<Vec<GlCall>, MemoryError>(e),
    }
}

impl OpenGlMemory {
    /// Fresh memory of `capacity` bytes, bound to nothing.
    pub fn allocate(capacity: u32) -> (memory: OpenGlMemory)
        ensures
            memory@ == (MemoryView { capacity, kind: Kind::Unbinded(false) }),
    {
        OpenGlMemory { capacity, kind: Kind::Unbinded(false) }
    }

    /// The capacity the memory was allocated with.
    pub fn capacity(&self) -> (capacity: u32)
        ensures
            capacity == self@.capacity,
    {
        self.capacity
    }

    /// What the memory is bound to.
    pub fn kind(&self) -> (kind: Kind)
        ensures
            kind == self@.kind,
    {
        self.kind
    }

    /// Binds unbound memory to `image`. Memory that is bound already is left
    /// as it is and the call is refused.
    pub fn bind_image(&mut self, image: &OpenGlImage) -> (res: Result<(), MemoryError>)
        ensures
            final(self)@.capacity == old(self)@.capacity,
            is_bound(old(self)@.kind) ==> res == Err::<(), MemoryError>(MemoryError::AlreadyBound)
                && final(self)@ == old(self)@,
            !is_bound(old(self)@.kind) ==> res is Ok && final(self)@.kind == Kind::Texture(*image),
    {
        match self.kind {
            Kind::Unbinded(_) => {
                self.kind = Kind::Texture(*image);
                Ok(())
            },
            _ => Err(MemoryError::AlreadyBound),
        }
    }

    /// Binds unbound memory to `buffer`. Memory that is bound already is left
    /// as it is and the call is refused.
    pub fn bind_buffer(&mut self, buffer: &OpenGlBuffer) -> (res: Result<(), MemoryError>)
        ensures
            final(self)@.capacity == old(self)@.capacity,
            is_bound(old(self)@.kind) ==> res == Err::<(), MemoryError>(MemoryError::AlreadyBound)
                && final(self)@ == old(self)@,
            !is_bound(old(self)@.kind) ==> res is Ok && final(self)@.kind == Kind::Buffer(*buffer),
    {
        match self.kind {
            Kind::Unbinded(_) => {
                self.kind = Kind::Buffer(*buffer);
                Ok(())
            },
            _ => Err(MemoryError::AlreadyBound),
        }
    }

    /// The calls that map the memory into the address space. Only memory
    /// bound to a buffer can be mapped.
    pub fn map_memory(&self) -> (res: Result<Vec<GlCall>, MemoryError>)
        ensures
            follows(res, map_plan(self@.kind)),
    {
        match &self.kind {
            Kind::Unbinded(_) => Err(MemoryError::Unbound),
            Kind::Buffer(buffer) => Ok(OpenGlBuffer::mapper(buffer)),
            Kind::Texture(_) => Err(MemoryError::ImageBacked),
        }
    }

    /// The calls that end a mapping of the memory. Only memory bound to a
    /// buffer can be unmapped.
    pub fn unmap_memory(&self) -> (res: Result<Vec<GlCall>, MemoryError>)
        ensures
            follows(res, unmap_plan(self@.kind)),
    {
        match &self.kind {
            Kind::Unbinded(_) => Err(MemoryError::Unbound),
            Kind::Buffer(buffer) => Ok(OpenGlBuffer::unmap(buffer)),
            Kind::Texture(_) => Err(MemoryError::ImageBacked),
        }
    }

    /// The calls that make writes through a mapping visible to the context.
    /// A buffer mapped for reading and writing needs none; memory that is
    /// unbound or bound to an image is refused as for mapping.
    pub fn flush_memory(&self) -> (res: Result<Vec<GlCall>, MemoryError>)
        ensures
            follows(res, flush_plan(self@.kind)),
    {
        match &self.kind {
            Kind::Unbinded(_) => Err(MemoryError::Unbound),
            Kind::Buffer(_) => Ok(Vec::new()),
            Kind::Texture(_) => Err(MemoryError::ImageBacked),
        }
    }
}

} // verus!
