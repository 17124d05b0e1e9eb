//! Context creation, activation neutrality and the no-context condition.

use ascend_rt::{init, CurrentCtx, DevProps, Device, Driver, NoCtxError, Plan};

fn two_devices() -> Vec<DevProps> {
    vec![
        DevProps { ai_core: 1, vector_core: 1, l2_cache: 1 << 10, soc_name: String::from("A") },
        DevProps { ai_core: 1, vector_core: 1, l2_cache: 1 << 10, soc_name: String::from("B") },
    ]
}

fn started() -> Driver {
    let mut rt = Driver::new(two_devices(), (8, 0, 0));
    init(&mut rt);
    rt
}

#[test]
fn test_behavior() {
    let mut rt = started();
    if Device::count(&rt) == 0 {
        return;
    }
    // activating the device installs its default context
    let default = Device::new(0).fetch_default(&mut rt);
    assert!(default.primary);
    assert_eq!(rt.current, Some(default.handle));
    // creating a context makes the new context current
    let context = Device::new(0).context(&mut rt);
    assert!(!context.primary);
    assert_eq!(rt.current, Some(default.handle));
    // the creation saved and restored the default; a fresh handle exists
    assert_ne!(context.handle, default.handle);
    // activating the device again keeps the same default current
    let default_again = Device::new(0).fetch_default(&mut rt);
    assert_eq!(default_again.handle, default.handle);
    assert_eq!(rt.current, Some(default.handle));
}

#[test]
fn apply_is_activation_neutral() {
    let mut rt = started();
    let a = Device::new(0).fetch_default(&mut rt);
    let b = Device::new(0).context(&mut rt);
    let c = Device::new(1).context(&mut rt);
    assert_eq!(rt.current, Some(a.handle));
    // nested and sequential activations of B and C under active A
    let ((), rt, _) = b.apply(rt, |_, d| {
        let ((), d, _) = c.apply(d, |_, d2| ((), d2));
        ((), d)
    });
    let ((), rt, _) = c.apply(rt, |_, d| ((), d));
    assert_eq!(rt.current, Some(a.handle));
}

#[test]
fn run_plan_is_activation_neutral() {
    let mut rt = started();
    let a = Device::new(0).fetch_default(&mut rt);
    let b = Device::new(0).context(&mut rt);
    let c = Device::new(1).context(&mut rt);
    assert_eq!(rt.current, Some(a.handle));
    let plan = Plan::Then(
        Box::new(Plan::Within(
            b.handle,
            Box::new(Plan::Within(c.handle, Box::new(Plan::Done))),
        )),
        Box::new(Plan::Within(c.handle, Box::new(Plan::Done))),
    );
    ascend_rt::context::run_plan(&mut rt, &plan);
    assert_eq!(rt.current, Some(a.handle));
}

#[test]
fn apply_current_without_context_fails() {
    let rt = started();
    assert_eq!(rt.current, None);
    let (out, rt) = CurrentCtx::apply_current(rt, |_, d| ((), d));
    assert_eq!(out, Err(NoCtxError));
    assert_eq!(rt.current, None);
}

#[test]
fn apply_current_with_context_runs() {
    let mut rt = started();
    let a = Device::new(0).fetch_default(&mut rt);
    let (out, _rt) = CurrentCtx::apply_current(rt, |c: CurrentCtx, d| (c.as_raw(), d));
    assert_eq!(out, Ok(a.handle));
}

#[test]
fn creation_with_no_prior_context_leaves_new_active() {
    let mut rt = started();
    assert_eq!(rt.current, None);
    // no prior context existed: nothing is restored, the new one stays
    let c = Device::new(0).context(&mut rt);
    assert_eq!(rt.current, Some(c.handle));
}

#[test]
fn destroy_secondary_context() {
    let mut rt = started();
    let a = Device::new(0).fetch_default(&mut rt);
    let b = Device::new(0).context(&mut rt);
    assert_eq!(rt.current, Some(a.handle));
    let bh = b.handle;
    assert!(rt.ctxs[bh].live);
    b.destroy(&mut rt);
    assert!(!rt.ctxs[bh].live);
    // the default context is untouched
    assert!(rt.ctxs[a.handle].live);
}

#[test]
fn current_ctx_dev_reports_owner() {
    let mut rt = started();
    let c = Device::new(1).context(&mut rt);
    let (dev, _rt) = CurrentCtx::apply_current(rt, |cur: CurrentCtx, d| {
        let dev = cur.dev(&d);
        (dev, d)
    });
    assert_eq!(dev.unwrap().as_raw(), 1);
    let _ = c;
}
