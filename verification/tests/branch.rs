use kobold::branching::{Branch2, Branch3, Empty};
use kobold::host::Host;
use kobold::Mountable;
use kobold::Render;

#[test]
fn branch_tag_switch() {
    let mut host = Host::new();
    let first: Branch2<String, String> = Branch2::A(String::from("left"));
    let mut p = first.build(&mut host);
    let id_a = p.js();
    host.append(id_a);

    // same arm: updated in place, the host handle is kept
    let second: Branch2<String, String> = Branch2::A(String::from("left again"));
    second.update(&mut p, &mut host);
    assert_eq!(p.js(), id_a);
    assert_eq!(host.read_text(id_a), "left again");
    assert!(host.is_attached(id_a));

    // arm switch: the handle is replaced, spliced in where the old one was
    let third: Branch2<String, String> = Branch2::B(String::from("right"));
    third.update(&mut p, &mut host);
    let id_b = p.js();
    assert_ne!(id_b, id_a);
    assert!(!host.is_attached(id_a));
    assert!(host.is_attached(id_b));
    assert_eq!(host.read_text(id_b), "right");

    // switching back replaces again: two replacements across three passes
    let fourth: Branch2<String, String> = Branch2::A(String::from("left once more"));
    fourth.update(&mut p, &mut host);
    let id_a2 = p.js();
    assert_ne!(id_a2, id_b);
    assert!(!host.is_attached(id_b));
    assert!(host.is_attached(id_a2));
    assert_eq!(host.read_text(id_a2), "left once more");
}

#[test]
fn branch_switch_while_detached() {
    let mut host = Host::new();
    let first: Branch2<String, String> = Branch2::A(String::from("a"));
    let mut p = first.build(&mut host);
    let id_a = p.js();
    // never attached: after a switch the new handle stays detached too
    let second: Branch2<String, String> = Branch2::B(String::from("b"));
    second.update(&mut p, &mut host);
    assert!(!host.is_attached(id_a));
    assert!(!host.is_attached(p.js()));
}

#[test]
fn branch3_arms() {
    let mut host = Host::new();
    let first: Branch3<String, Empty, String> = Branch3::A(String::from("one"));
    let mut p = first.build(&mut host);
    host.append(p.js());
    let id_a = p.js();

    let second: Branch3<String, Empty, String> = Branch3::B(Empty);
    second.update(&mut p, &mut host);
    let id_b = p.js();
    assert_ne!(id_b, id_a);
    assert!(host.is_attached(id_b));
    assert_eq!(host.read_text(id_b), "");

    let third: Branch3<String, Empty, String> = Branch3::C(String::from("three"));
    third.update(&mut p, &mut host);
    assert_eq!(host.read_text(p.js()), "three");
    assert!(host.is_attached(p.js()));
}

#[test]
fn option_renders_empty_placeholder() {
    let mut host = Host::new();
    let mut p = Some(String::from("shown")).build(&mut host);
    host.append(p.js());
    let id_some = p.js();
    assert_eq!(host.read_text(id_some), "shown");

    // collapsing to nothing swaps in an empty placeholder node
    let gone: Option<String> = None;
    gone.update(&mut p, &mut host);
    let id_none = p.js();
    assert_ne!(id_none, id_some);
    assert!(host.is_attached(id_none));
    assert_eq!(host.read_text(id_none), "");

    // None to None changes nothing
    let still_gone: Option<String> = None;
    still_gone.update(&mut p, &mut host);
    assert_eq!(p.js(), id_none);

    Some(String::from("back")).update(&mut p, &mut host);
    assert_eq!(host.read_text(p.js()), "back");
    assert!(host.is_attached(p.js()));
}

#[test]
fn empty_view_is_inert() {
    let mut host = Host::new();
    let mut p = Empty.build(&mut host);
    let id = p.js();
    let nodes = host.len();
    Empty.update(&mut p, &mut host);
    assert_eq!(host.len(), nodes);
    assert_eq!(host.read_text(id), "");
}
