//! Device memory buffers: allocation, host/device copies, and the
//! detached ("spore") form for relocation across execution units.
//!
//! Every copy demands that source and destination byte lengths are exactly
//! equal — a mismatch is a programmer error, excluded by precondition
//! rather than recovered from. A zero-length buffer is valid everywhere
//! and never touches memory.

use crate::context::CurrentCtx;
use crate::driver::Driver;
use vstd::prelude::*;

verus! {

/// Marks one byte resident on the device. Host code never reads a value
/// of this type directly; device bytes reach the host only through an
/// explicit device-to-host copy.
#[derive(Clone, Copy, PartialEq, Eq, Structural, Hash, Debug)]
pub struct DevByte(pub u8);

/// A device memory buffer attached to its owning context: the raw handle
/// paired with the byte length it was allocated with. Operations demand
/// that the runtime's record agrees; freeing is explicit.
pub struct DevMem {
    /// The raw buffer handle.
    pub handle: usize,
    /// Handle of the owning context.
    pub ctx: usize,
    /// The allocation's exact byte length.
    pub len: usize,
}

/// A device memory buffer detached from its context for relocation: only
/// the raw handle and the size metadata travel. Reattaching demands, as a
/// precondition, the claim the original design left to the caller's word:
/// the buffer was created under the context it is reattached to.
pub struct DevMemSpore {
    /// The raw buffer handle.
    pub handle: usize,
    /// Handle of the context the buffer was created under.
    pub ctx: usize,
    /// The allocation's exact byte length.
    pub len: usize,
}

impl DevMem {
    /// The buffer is live, belongs to the context it claims, and its
    /// recorded length is the allocation's exact byte length.
    pub open spec fn wf(self, rt: Driver) -> bool {
        &&& rt.mem_ok(self.handle as int)
        &&& rt.mems@[self.handle as int].ctx == self.ctx
        &&& rt.mem_len(self.handle as int) == self.len
    }

    /// The allocation's byte length.
    pub fn len(&self) -> (r: usize)
        ensures
            r == self.len,
    {
        self.len
    }

    /// Whether the buffer holds no bytes.
    pub fn is_empty(&self) -> (r: bool)
        ensures
            r == (self.len == 0),
    {
        self.len == 0
    }

    /// The raw handle. The caller must not use it past the buffer's
    /// release.
    pub fn as_raw(&self) -> (r: usize)
        ensures
            r == self.handle,
    {
        self.handle
    }

    /// Detaches the buffer from its context so it can relocate across
    /// threads or tasks: the destructor obligation travels with the
    /// spore.
    pub fn sporulate(self) -> (r: DevMemSpore)
        ensures
            r == (DevMemSpore { handle: self.handle, ctx: self.ctx, len: self.len }),
    {
        DevMemSpore { handle: self.handle, ctx: self.ctx, len: self.len }
    }

    /// Releases the buffer with the native free call. No ordering against
    /// outstanding asynchronous copies is provided by the native layer, so
    /// the caller must show none still references the buffer.
    pub fn drop(self, rt: &mut Driver)
        requires
            old(rt).wf(),
            self.wf(*old(rt)),
            old(rt).mem_unreferenced(self.handle as int),
        ensures
            final(rt).wf(),
            !final(rt).mem_ok(self.handle as int),
            final(rt).mems_view() == old(rt).mems_view(),
            *final(rt) == (Driver { mems: final(rt).mems, ..*old(rt) }),
    {
        rt.free_mem(self.handle);
    }
}

impl DevMemSpore {
    /// The allocation's byte length.
    pub fn len(&self) -> (r: usize)
        ensures
            r == self.len,
    {
        self.len
    }

    /// Whether the buffer holds no bytes.
    pub fn is_empty(&self) -> (r: bool)
        ensures
            r == (self.len == 0),
    {
        self.len == 0
    }

    /// The raw handle. The caller must not use it past the buffer's
    /// release.
    pub fn as_raw(&self) -> (r: usize)
        ensures
            r == self.handle,
    {
        self.handle
    }

    /// Reattaches the buffer to a live context. The precondition is the
    /// reattachment contract itself: the context now current is the one
    /// the buffer was created under.
    pub fn sprout(self, current: &CurrentCtx) -> (r: DevMem)
        requires
            self.ctx == current.0,
        ensures
            r == (DevMem { handle: self.handle, ctx: self.ctx, len: self.len }),
    {
        DevMem { handle: self.handle, ctx: self.ctx, len: self.len }
    }
}

impl CurrentCtx {
    /// Allocates a `len`-byte buffer on this context. A zero-byte request
    /// yields a valid empty buffer, never a dangling view. The new
    /// buffer's contents are all zero.
    pub fn malloc(&self, rt: &mut Driver, len: usize) -> (m: DevMem)
        requires
            old(rt).wf(),
            old(rt).inited,
            old(rt).current == Some(self.0),
        ensures
            final(rt).wf(),
            m.wf(*final(rt)),
            m.ctx == self.0,
            m.len == len,
            m.handle == old(rt).mems@.len(),
            final(rt).mem_bytes(m.handle as int) == Seq::new(len as nat, |i: int| 0u8),
            final(rt).mems_view() == old(rt).mems_view().push(Seq::new(len as nat, |i: int| 0u8)),
            *final(rt) == (Driver { mems: final(rt).mems, ..*old(rt) }),
    {
        let h = rt.alloc_mem(len);
        DevMem { handle: h, ctx: self.0, len }
    }

    /// Allocates a device buffer sized to a host slice's exact byte
    /// length and uploads the slice synchronously at creation.
    pub fn from_host(&self, rt: &mut Driver, slice: &Vec<u8>) -> (m: DevMem)
        requires
            old(rt).wf(),
            old(rt).inited,
            old(rt).current == Some(self.0),
        ensures
            final(rt).wf(),
            m.wf(*final(rt)),
            m.ctx == self.0,
            m.len == slice@.len(),
            m.handle == old(rt).mems@.len(),
            final(rt).mem_bytes(m.handle as int) == slice@,
            final(rt).mems_view() == old(rt).mems_view().push(slice@),
            *final(rt) == (Driver { mems: final(rt).mems, ..*old(rt) }),
    {
        let h = rt.alloc_mem(slice.len());
        rt.write_mem(h, slice);
        proof {
            assert(rt.mems_view() =~= old(rt).mems_view().push(slice@));
        }
        DevMem { handle: h, ctx: self.0, len: slice.len() }
    }
}

/// Synchronous device-to-host copy. The destination's byte length must
/// equal the source's exactly; afterwards the host buffer holds the
/// device buffer's bytes.
pub fn memcpy_d2h(rt: &Driver, dst: &mut Vec<u8>, src: &DevMem)
    requires
        rt.wf(),
        src.wf(*rt),
        old(dst)@.len() == src.len,
    ensures
        final(dst)@ == rt.mem_bytes(src.handle as int),
{
    rt.read_mem(src.handle, dst);
}

/// Synchronous host-to-device copy. The destination's byte length must
/// equal the source's exactly.
pub fn memcpy_h2d(rt: &mut Driver, dst: &DevMem, src: &Vec<u8>)
    requires
        old(rt).wf(),
        dst.wf(*old(rt)),
        src@.len() == dst.len,
    ensures
        final(rt).wf(),
        dst.wf(*final(rt)),
        final(rt).mem_bytes(dst.handle as int) == src@,
        final(rt).mems_view() == old(rt).mems_view().update(dst.handle as int, src@),
        Driver::same_mem_frame(*old(rt), *final(rt)),
        *final(rt) == (Driver { mems: final(rt).mems, ..*old(rt) }),
{
    rt.write_mem(dst.handle, src);
}

/// Synchronous device-to-device copy. The destination's byte length must
/// equal the source's exactly.
pub fn memcpy_d2d(rt: &mut Driver, dst: &DevMem, src: &DevMem)
    requires
        old(rt).wf(),
        dst.wf(*old(rt)),
        src.wf(*old(rt)),
        src.len == dst.len,
    ensures
        final(rt).wf(),
        dst.wf(*final(rt)),
        src.wf(*final(rt)),
        final(rt).mem_bytes(dst.handle as int) == old(rt).mem_bytes(src.handle as int),
        final(rt).mems_view() == old(rt).mems_view().update(
            dst.handle as int,
            old(rt).mem_bytes(src.handle as int),
        ),
        Driver::same_mem_frame(*old(rt), *final(rt)),
        *final(rt) == (Driver { mems: final(rt).mems, ..*old(rt) }),
{
    rt.copy_mem(dst.handle, src.handle);
}

/// Uploading a host buffer and downloading it again reproduces the
/// original bytes exactly, for any contents and any length.
pub fn upload_download(rt: &mut Driver, current: &CurrentCtx, bytes: &Vec<u8>) -> (back: Vec<u8>)
    requires
        old(rt).wf(),
        old(rt).inited,
        old(rt).current == Some(current.0),
    ensures
        final(rt).wf(),
        back@ == bytes@,
{
    let m = current.from_host(rt, bytes);
    let mut back = vec![0u8; m.len()];
    memcpy_d2h(rt, &mut back, &m);
    back
}

} // verus!
