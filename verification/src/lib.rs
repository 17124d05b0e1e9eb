//! A safety layer over an accelerator device's native control runtime.
//!
//! The hard part of such a runtime is its context-scoped resource ownership:
//! every hardware resource (memory buffer, command stream, event) is only
//! valid while a particular execution context is active, activation is a
//! global stateful operation, and resources must never outlive the context
//! that produced them.
//!
//! The native layer's observable state — the current-context registry, the
//! live contexts, streams with their queued commands, and device memory — is
//! modelled explicitly by [`driver::Driver`], and every operation takes that
//! state as an explicit argument. This makes the activation save/restore
//! discipline, the stream ordering guarantees and the copy length contracts
//! statements that are proved rather than conventions.

use vstd::prelude::*;

pub mod context;
pub mod device;
pub mod driver;
pub mod event;
pub mod memory;
pub mod stream;

pub use context::{Context, CurrentCtx, NoCtxError, Plan};
pub use device::{DevInfo, Device, InfoFmt, MemSize};
pub use driver::{Cmd, CtxRec, DevProps, Driver, MemRec, StreamRec};
pub use event::{Event, EventSpore, TimeSpan};
pub use memory::{memcpy_d2d, memcpy_d2h, memcpy_h2d, upload_download, DevByte, DevMem, DevMemSpore};
pub use stream::{Stream, StreamSpore};

verus! {

/// Initialises the native runtime session. Must precede any device
/// operation; re-initialising an already initialised session is not
/// supported.
pub fn init(rt: &mut Driver)
    requires
        old(rt).wf(),
        !old(rt).inited,
    ensures
        final(rt).wf(),
        final(rt).inited,
        *final(rt) == (Driver { inited: true, ..*old(rt) }),
{
    rt.inited = true;
}

/// Ends the native runtime session.
pub fn finalize(rt: &mut Driver)
    requires
        old(rt).wf(),
        old(rt).inited,
    ensures
        final(rt).wf(),
        !final(rt).inited,
        *final(rt) == (Driver { inited: false, ..*old(rt) }),
{
    rt.inited = false;
}

/// Reports the native runtime's version as (major, minor, patch).
pub fn version(rt: &Driver) -> (v: (i32, i32, i32))
    requires
        rt.wf(),
        rt.inited,
    ensures
        v == rt.lib_version,
{
    rt.lib_version
}

} // verus!
