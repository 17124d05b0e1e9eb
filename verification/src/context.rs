//! Execution contexts and the current-context registry discipline.
//!
//! Activating a context is a global, stateful operation, so every entry
//! point that needs a particular context active follows one save/activate/
//! restore discipline: read what is active, switch only if needed, and put
//! the prior context back once done. The discipline's net effect — nested
//! and sequential activations leave the ambient slot exactly as they found
//! it whenever something was active — is proved here, for arbitrary
//! activation trees, by [`run_plan`] and [`lemma_plan_neutral`].

use crate::device::Device;
use crate::driver::{CtxRec, Driver};
use vstd::prelude::*;

verus! {

/// A logical execution scope bound to one device. Secondary contexts are
/// created explicitly and must be destroyed exactly once; a primary
/// context is the device's own default context, adopted rather than
/// created, and never destroyed by this layer.
#[derive(PartialEq, Eq, Structural, Hash, Debug)]
pub struct Context {
    /// The native context handle.
    pub handle: usize,
    /// Index of the owning device.
    pub dev: u32,
    /// Whether this is the device's adopted default context.
    pub primary: bool,
}

/// Witness that a particular context occupies the current slot. Obtained
/// only through [`Context::apply`] and [`CurrentCtx::apply_current`], the
/// sanctioned ways of making a context current.
#[derive(Clone, Copy, PartialEq, Eq, Structural, Hash, Debug)]
pub struct CurrentCtx(pub usize);

/// The one recoverable condition of the native layer: no context is
/// active on the calling thread. Every other non-zero status is treated
/// as fatal and is excluded by precondition instead.
#[derive(Clone, Copy, PartialEq, Eq, Structural, Hash, Debug)]
pub struct NoCtxError;

impl Context {
    /// The context is live, belongs to the device it claims, and its
    /// primary flag agrees with the runtime's primary-context table.
    pub open spec fn wf(self, rt: Driver) -> bool {
        &&& rt.ctx_ok(self.handle as int)
        &&& (self.dev as int) < rt.devs@.len()
        &&& rt.ctxs@[self.handle as int].dev == self.dev as usize
        &&& if self.primary {
            rt.primary@[self.dev as int] == Some(self.handle)
        } else {
            forall|d: int| 0 <= d < rt.primary@.len() ==> #[trigger] rt.primary@[d] != Some(
                self.handle,
            )
        }
    }

    /// The device this context belongs to.
    pub fn device(&self) -> (d: Device)
        ensures
            d == (Device(self.dev)),
    {
        Device::new(self.dev)
    }

    /// The underlying native handle. The caller must not let it outlive
    /// the context's destruction.
    pub fn as_raw(&self) -> (r: usize)
        ensures
            r == self.handle,
    {
        self.handle
    }
}

/// Saves the current slot and makes `h` current, switching only when `h`
/// is not already active.
fn ctx_enter(rt: &mut Driver, h: usize) -> (prev: Option<usize>)
    requires
        old(rt).wf(),
        old(rt).ctx_ok(h as int),
    ensures
        final(rt).wf(),
        prev == old(rt).current,
        *final(rt) == old(rt).with_current(h),
{
    let prev = rt.get_current();
    match prev {
        Some(p) => {
            if p != h {
                rt.set_current(h);
            }
            proof {
                assert(*rt =~= old(rt).with_current(h));
            }
        },
        None => {
            rt.set_current(h);
        },
    }
    prev
}

/// Restores the context saved by [`ctx_enter`]: if something was active
/// before, it becomes current again; if nothing was, `h` simply stays
/// active — there is no "no context" state to restore to.
fn ctx_exit(rt: &mut Driver, h: usize, prev: Option<usize>)
    requires
        old(rt).wf(),
        old(rt).current == Some(h),
        prev matches Some(p) ==> old(rt).ctx_ok(p as int),
    ensures
        final(rt).wf(),
        final(rt).current == (match prev {
            Some(p) => Some(p),
            None => Some(h),
        }),
        *final(rt) == (Driver { current: final(rt).current, ..*old(rt) }),
{
    match prev {
        Some(p) => {
            if p != h {
                rt.set_current(p);
            }
            proof {
                assert(*rt =~= (Driver { current: Some(p), ..*old(rt) }));
            }
        },
        None => {},
    }
}

impl Context {
    /// Runs `f` with this context guaranteed active for its duration,
    /// switching only if some other context (or none) was active, and
    /// restoring the prior context afterwards if one existed. When no
    /// context was active before, this context is left active: there is
    /// no empty state to restore.
    pub fn apply<T, F: FnOnce(CurrentCtx, Driver) -> (T, Driver)>(&self, rt: Driver, f: F) -> (out:
        (T, Driver, Ghost<Driver>))
        requires
            rt.wf(),
            rt.ctx_ok(self.handle as int),
            f.requires((CurrentCtx(self.handle), rt.with_current(self.handle))),
            forall|o: (T, Driver)|
                #[trigger] f.ensures((CurrentCtx(self.handle), rt.with_current(self.handle)), o)
                    ==> Driver::session_step(rt.with_current(self.handle), o.1),
        ensures
            out.1.wf(),
            out.1.inited == rt.inited,
            out.1.current == (if rt.current is Some {
                rt.current
            } else {
                Some(self.handle)
            }),
            out.1.devs == rt.devs,
            forall|h: int| #[trigger] rt.ctx_ok(h) ==> out.1.ctx_ok(h) && out.1.ctxs@[h].dev
                == rt.ctxs@[h].dev,
            f.ensures(
                (CurrentCtx(self.handle), rt.with_current(self.handle)),
                (out.0, out.2@),
            ),
            out.1 == (Driver { current: out.1.current, ..out.2@ }),
    {
        let ghost rt0 = rt;
        let mut d = rt;
        let prev = ctx_enter(&mut d, self.handle);
        let ghost d0 = d;
        let (t, d2) = f(CurrentCtx(self.handle), d);
        proof {
            assert(f.ensures((CurrentCtx(self.handle), rt0.with_current(self.handle)), (t, d2)));
            assert(Driver::session_step(rt0.with_current(self.handle), d2));
        }
        let mut d3 = d2;
        ctx_exit(&mut d3, self.handle, prev);
        proof {
            assert(d3 == (Driver { current: d3.current, ..d2 }));
            assert forall|h: int| #[trigger] rt0.ctx_ok(h) implies d3.ctx_ok(h) && d3.ctxs@[h].dev
                == rt0.ctxs@[h].dev by {
                assert(d0.ctx_ok(h));
                assert(d2.ctx_ok(h) && d2.ctxs@[h].dev == d0.ctxs@[h].dev);
            }
        }
        (t, d3, Ghost(d2))
    }
}

impl CurrentCtx {
    /// The underlying native handle of the active context. The caller
    /// must not use it past the context's destruction.
    pub fn as_raw(&self) -> (r: usize)
        ensures
            r == self.0,
    {
        self.0
    }

    /// The device the currently active context belongs to.
    pub fn dev(&self, rt: &Driver) -> (d: Device)
        requires
            rt.wf(),
            rt.current == Some(self.0),
        ensures
            d == (Device(rt.ctxs@[self.0 as int].dev as u32)),
    {
        let dev = rt.get_device();
        Device::new(dev as u32)
    }

    /// Blocks until all work on every stream completes, as the native
    /// device-synchronise call does.
    pub fn sync_device(&self, rt: &mut Driver)
        requires
            old(rt).wf(),
            old(rt).current == Some(self.0),
        ensures
            final(rt).wf(),
            forall|s: int| 0 <= s < old(rt).streams@.len() && (#[trigger] old(
                rt,
            ).streams@[s]).live ==> final(rt).stream_idle(s),
            final(rt).mems_view() == Driver::drain_all_views(
                old(rt).mems_view(),
                old(rt).streams@,
                0,
            ),
            Driver::same_mem_frame(*old(rt), *final(rt)),
            forall|s: int| 0 <= s < old(rt).streams@.len()
                ==> (#[trigger] final(rt).streams@[s]).live == old(rt).streams@[s].live
                && final(rt).streams@[s].ctx == old(rt).streams@[s].ctx
                && final(rt).streams@[s].cmds == old(rt).streams@[s].cmds,
            *final(rt) == (Driver {
                streams: final(rt).streams,
                mems: final(rt).mems,
                ..*old(rt)
            }),
    {
        rt.sync_all();
    }

    /// If a context is active, runs `f` against it without switching;
    /// otherwise fails with the absence-of-context condition, touching
    /// nothing.
    pub fn apply_current<T, F: FnOnce(CurrentCtx, Driver) -> (T, Driver)>(rt: Driver, f: F) -> (out:
        (Result<T, NoCtxError>, Driver))
        requires
            rt.current matches Some(h) ==> f.requires((CurrentCtx(h), rt)),
        ensures
            rt.current is None ==> out.0 == Err::<T, NoCtxError>(NoCtxError) && out.1 == rt,
            rt.current matches Some(h) ==> (out.0 matches Ok(t) && f.ensures(
                (CurrentCtx(h), rt),
                (t, out.1),
            )),
    {
        match rt.get_current() {
            Some(h) => {
                let (t, d) = f(CurrentCtx(h), rt);
                (Ok(t), d)
            },
            None => (Err(NoCtxError), rt),
        }
    }

    /// Runs `f` against context `raw` without reading the registry. The
    /// caller asserts that `raw` is the context currently active; unlike
    /// the original unchecked escape hatch, the claim is demanded as a
    /// precondition.
    pub fn apply_current_unchecked<T, F: FnOnce(CurrentCtx, Driver) -> (T, Driver)>(
        raw: usize,
        rt: Driver,
        f: F,
    ) -> (out: (T, Driver))
        requires
            rt.current == Some(raw),
            f.requires((CurrentCtx(raw), rt)),
        ensures
            f.ensures((CurrentCtx(raw), rt), out),
    {
        f(CurrentCtx(raw), rt)
    }
}

impl Device {
    /// Creates a brand-new secondary context on this device. Creation
    /// implicitly activates the new context, so the prior active context,
    /// if any, is restored before returning: creation is
    /// activation-neutral from the caller's point of view whenever a
    /// context was active. When none was, the new context is left active.
    pub fn context(&self, rt: &mut Driver) -> (c: Context)
        requires
            old(rt).wf(),
            old(rt).inited,
            self.0 < old(rt).devs@.len(),
        ensures
            final(rt).wf(),
            c.wf(*final(rt)),
            !c.primary,
            c.dev == self.0,
            c.handle == old(rt).ctxs@.len(),
            final(rt).ctxs@ == old(rt).ctxs@.push(
                (CtxRec { dev: self.0 as usize, live: true }),
            ),
            final(rt).current == (if old(rt).current is Some {
                old(rt).current
            } else {
                Some(c.handle)
            }),
            *final(rt) == (Driver {
                current: final(rt).current,
                ctxs: final(rt).ctxs,
                ..*old(rt)
            }),
    {
        let prev = rt.get_current();
        let h = rt.create_context(self.0 as usize);
        match prev {
            Some(p) => {
                rt.set_current(p);
            },
            None => {},
        }
        Context { handle: h, dev: self.0, primary: false }
    }

    /// Adopts this device's built-in default context. Activating the
    /// device may construct that context as a side effect; the prior
    /// active context, if any, is restored before returning. The produced
    /// context is primary: it is never destroyed by this layer.
    pub fn fetch_default(&self, rt: &mut Driver) -> (c: Context)
        requires
            old(rt).wf(),
            old(rt).inited,
            self.0 < old(rt).devs@.len(),
        ensures
            final(rt).wf(),
            c.wf(*final(rt)),
            c.primary,
            c.dev == self.0,
            final(rt).primary@[self.0 as int] == Some(c.handle),
            final(rt).current == (if old(rt).current is Some {
                old(rt).current
            } else {
                Some(c.handle)
            }),
            old(rt).primary@[self.0 as int] matches Some(p) ==> c.handle == p && *final(rt)
                == (Driver { current: final(rt).current, ..*old(rt) }),
            old(rt).primary@[self.0 as int] is None ==> c.handle == old(rt).ctxs@.len()
                && final(rt).ctxs@ == old(rt).ctxs@.push(
                (CtxRec { dev: self.0 as usize, live: true }),
            ) && final(rt).primary@ == old(rt).primary@.update(self.0 as int, Some(c.handle))
                && *final(rt) == (Driver {
                current: final(rt).current,
                ctxs: final(rt).ctxs,
                primary: final(rt).primary,
                ..*old(rt)
            }),
    {
        let prev = rt.get_current();
        let h = rt.set_device(self.0 as usize);
        match prev {
            Some(p) => {
                rt.set_current(p);
            },
            None => {},
        }
        Context { handle: h, dev: self.0, primary: true }
    }
}

impl Context {
    /// Releases the context. A secondary context issues the native
    /// destroy; a primary context is the device's own and is left
    /// untouched. A secondary context must no longer be referenced by any
    /// live resource, nor occupy the current slot.
    pub fn destroy(self, rt: &mut Driver)
        requires
            old(rt).wf(),
            self.wf(*old(rt)),
            !self.primary ==> old(rt).ctx_unreferenced(self.handle as int) && old(rt).current
                != Some(self.handle),
        ensures
            final(rt).wf(),
            self.primary ==> *final(rt) == *old(rt),
            !self.primary ==> final(rt).ctxs@ == old(rt).ctxs@.update(
                self.handle as int,
                (CtxRec { live: false, ..old(rt).ctxs@[self.handle as int] }),
            ) && *final(rt) == (Driver { ctxs: final(rt).ctxs, ..*old(rt) }),
    {
        if !self.primary {
            rt.destroy_context(self.handle);
        }
    }
}

/// A tree of context activations: the shape of any sequence of nested or
/// sequential `apply` calls, as data.
pub enum Plan {
    /// Activate nothing.
    Done,
    /// Activate a context for the duration of a sub-plan: one `apply`.
    Within(usize, Box<Plan>),
    /// One plan after another.
    Then(Box<Plan>, Box<Plan>),
}

/// Every context a plan names is live in the given context table.
pub open spec fn plan_ok(ctxs: Seq<CtxRec>, p: Plan) -> bool
    decreases p,
{
    match p {
        Plan::Done => true,
        Plan::Within(h, sub) => 0 <= h < ctxs.len() && ctxs[h as int].live && plan_ok(ctxs, *sub),
        Plan::Then(a, b) => plan_ok(ctxs, *a) && plan_ok(ctxs, *b),
    }
}

/// The current slot a plan leaves behind, given what was active before:
/// an activation restores the prior context when one existed and
/// otherwise leaves its own context active.
pub open spec fn plan_final(cur: Option<usize>, p: Plan) -> Option<usize>
    decreases p,
{
    match p {
        Plan::Done => cur,
        Plan::Within(h, sub) => if cur is Some {
            cur
        } else {
            Some(h)
        },
        Plan::Then(a, b) => plan_final(plan_final(cur, *a), *b),
    }
}

/// Context activation neutrality: any tree of nested or sequential
/// activations, run while some context `a` is active, leaves `a` active
/// again when the outermost call returns.
pub proof fn lemma_plan_neutral(a: usize, p: Plan)
    ensures
        plan_final(Some(a), p) == Some(a),
    decreases p,
{
    match p {
        Plan::Done => {},
        Plan::Within(h, sub) => {},
        Plan::Then(x, y) => {
            lemma_plan_neutral(a, *x);
            lemma_plan_neutral(a, *y);
        },
    }
}

/// Runs a whole tree of nested and sequential context activations under
/// the save/activate/restore discipline, and proves what the registry
/// holds afterwards: exactly [`plan_final`] of what was active before —
/// in particular, by [`lemma_plan_neutral`], the original context again
/// whenever one was active. Nothing else in the runtime changes.
pub fn run_plan(rt: &mut Driver, p: &Plan)
    requires
        old(rt).wf(),
        plan_ok(old(rt).ctxs@, *p),
    ensures
        final(rt).wf(),
        final(rt).current == plan_final(old(rt).current, *p),
        *final(rt) == (Driver { current: final(rt).current, ..*old(rt) }),
    decreases *p,
{
    match p {
        Plan::Done => {
            proof {
                assert(*rt =~= (Driver { current: rt.current, ..*old(rt) }));
            }
        },
        Plan::Within(h, sub) => {
            let prev = ctx_enter(rt, *h);
            run_plan(rt, sub);
            proof {
                lemma_plan_neutral(*h, **sub);
            }
            ctx_exit(rt, *h, prev);
        },
        Plan::Then(a, b) => {
            run_plan(rt, a);
            run_plan(rt, b);
        },
    }
}

} // verus!
