use kobold::diff::ver::{unique, Ver};
use kobold::diff::{fence, invar, Diff};
use kobold::host::Host;
use kobold::keywords::{static_view, use_view};
use kobold::Mountable;
use kobold::Render;

#[test]
fn diff_memo_round_trip() {
    let a = String::from("alpha");
    let mut memo = (&a).into_memo();
    // identical content diffs clean and leaves the memo alone
    assert!(!(&a).diff(&mut memo));
    assert_eq!(memo, "alpha");
    // new content replaces the memo with an equal copy of the input
    let b = String::from("beta");
    assert!((&b).diff(&mut memo));
    assert_eq!(memo, "beta");
    assert!(!(&b).diff(&mut memo));
}

#[test]
fn primitive_diffs() {
    let mut memo = 3u32.into_memo();
    assert!(!3u32.diff(&mut memo));
    assert!(7u32.diff(&mut memo));
    assert_eq!(memo, 7);

    let mut memo = true.into_memo();
    assert!(!true.diff(&mut memo));
    assert!(false.diff(&mut memo));

    let mut memo = (-4i64).into_memo();
    assert!(5i64.diff(&mut memo));
    assert!(!5i64.diff(&mut memo));
}

#[test]
fn fence_guards_updates() {
    let mut host = Host::new();
    let mut p = fence(1u32, String::from("one")).build(&mut host);
    let id = p.js();
    host.append(id);

    // guard unchanged: the whole subtree below the fence is skipped
    fence(1u32, String::from("two")).update(&mut p, &mut host);
    assert_eq!(host.read_text(id), "one");

    // guard changed: the subtree is reconciled
    fence(2u32, String::from("two")).update(&mut p, &mut host);
    assert_eq!(host.read_text(id), "two");

    // and the new guard value now diffs clean
    fence(2u32, String::from("three")).update(&mut p, &mut host);
    assert_eq!(host.read_text(id), "two");
}

#[test]
fn invar_never_updates() {
    let mut host = Host::new();
    let mut p = invar(String::from("fixed")).build(&mut host);
    let id = p.js();
    invar(String::from("moved")).update(&mut p, &mut host);
    assert_eq!(host.read_text(id), "fixed");
}

#[test]
fn static_freezes_stale_content() {
    let mut host = Host::new();
    let mut p = static_view(String::from("first")).build(&mut host);
    let id = p.js();
    static_view(String::from("second")).update(&mut p, &mut host);
    assert_eq!(host.read_text(id), "first");
}

#[test]
fn eager_applies_every_pass() {
    let mut host = Host::new();
    let mut p = use_view(String::from("first")).build(&mut host);
    let id = p.js();
    use_view(String::from("second")).update(&mut p, &mut host);
    assert_eq!(host.read_text(id), "second");
}

#[test]
fn eager_fence_always_passes() {
    let mut host = Host::new();
    let mut p = fence(use_view(0u32), String::from("one")).build(&mut host);
    let id = p.js();
    // an eager guard reports a change on every pass
    fence(use_view(0u32), String::from("two")).update(&mut p, &mut host);
    assert_eq!(host.read_text(id), "two");
}

#[test]
fn version_diff_monotonicity() {
    let mut src: u16 = 0;
    let mut v = Ver::new(10u64, &mut src);
    let mut memo = (&v).into_memo();
    assert!(!(&v).diff(&mut memo));

    // after k >= 1 mutable accesses the tag differs from every earlier memo
    for _ in 0..5 {
        *v.get_mut() += 1;
    }
    assert!((&v).diff(&mut memo));
    assert!(!(&v).diff(&mut memo));
    assert_eq!(*v.get(), 15);

    *v.get_mut() += 1;
    assert!((&v).diff(&mut memo));
    assert_eq!(v.into_inner(), 16);
}

#[test]
fn version_tags_detect_swaps() {
    let mut src: u16 = 0;
    let a: Ver<u64> = Ver::new(1, &mut src);
    let b: Ver<u64> = Ver::new(1, &mut src);
    // two wrappers from one counter never share a tag, so swapping them in
    // place is seen even though the values are equal
    let mut memo = (&a).into_memo();
    assert!((&b).diff(&mut memo));
}

#[test]
fn version_fence() {
    let mut host = Host::new();
    let mut src: u16 = 0;
    let mut v = Ver::new(0u64, &mut src);
    let mut p = v.fence(String::from("zero")).build(&mut host);
    let id = p.js();
    // no mutable access between passes: the fenced subtree is skipped
    v.fence(String::from("one")).update(&mut p, &mut host);
    assert_eq!(host.read_text(id), "zero");
    // a mutable access moves the tag and the next pass goes through
    *v.get_mut() = 7;
    v.fence(String::from("one")).update(&mut p, &mut host);
    assert_eq!(host.read_text(id), "one");
}

#[test]
fn unique_counter_wraps() {
    let mut c: u16 = u16::MAX - 1;
    assert_eq!(unique(&mut c), u16::MAX - 1);
    assert_eq!(unique(&mut c), u16::MAX);
    assert_eq!(unique(&mut c), 0);
    assert_eq!(c, 1);
}

#[test]
fn option_diff_transitions() {
    let mut memo = Some(3u32).into_memo();
    assert!(!Some(3u32).diff(&mut memo));
    assert!(Some(4u32).diff(&mut memo));
    assert!(!Some(4u32).diff(&mut memo));
    // collapsing to nothing is a change, and so is reappearing
    assert!(None::<u32>.diff(&mut memo));
    assert!(!None::<u32>.diff(&mut memo));
    assert!(Some(4u32).diff(&mut memo));
}

#[test]
fn str_diff_round_trip() {
    let mut memo = "alpha".into_memo();
    assert!(!"alpha".diff(&mut memo));
    assert_eq!(memo, "alpha");
    assert!("beta".diff(&mut memo));
    assert_eq!(memo, "beta");
    assert!(!"beta".diff(&mut memo));
}

#[test]
fn narrow_int_diffs() {
    let mut memo = 7u8.into_memo();
    assert!(!7u8.diff(&mut memo));
    assert!(9u8.diff(&mut memo));

    let mut memo = (-3i16).into_memo();
    assert!(2i16.diff(&mut memo));
    assert!(!2i16.diff(&mut memo));
}
