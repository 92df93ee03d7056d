use kobold::host::Host;
use kobold::list::bounded::{BoundedProduct, BoundedVec};
use kobold::list::unbounded::list::LinkedList;
use kobold::list::unbounded::ListProduct;
use kobold::text::TextProduct;
use kobold::Mountable;
use kobold::Render;

#[test]
fn iterator() {
    let mut list = LinkedList::<u32>::build();

    list.push(42);
    list.push(1337);

    let mut it = list.iter();
    let mut collected: Vec<u32> = Vec::new();
    while let Some(i) = it.next() {
        collected.push(*list.get(i));
    }
    assert_eq!(&[42, 1337][..], &collected[..]);

    list.push(0xDEADBEEF);

    let mut it = list.iter();
    let mut collected: Vec<u32> = Vec::new();
    while let Some(i) = it.next() {
        collected.push(*list.get(i));
    }
    assert_eq!(&[42, 1337, 0xDEADBEEF][..], &collected[..]);
}

#[test]
fn iterator_limit() {
    let mut list = LinkedList::<u32>::build();
    list.push(1);
    list.push(2);
    list.push(3);
    let mut it = list.iter();
    assert_eq!(it.pos(), 0);
    it.limit(2);
    let mut collected: Vec<u32> = Vec::new();
    while let Some(i) = it.next() {
        collected.push(*list.get(i));
    }
    assert_eq!(&[1, 2][..], &collected[..]);
    assert_eq!(it.pos(), 2);
}

#[test]
fn end_to_end() {
    let mut host = Host::new();

    let views = vec!["a".to_string(), "b".to_string(), "c".to_string()];
    let mut list = ListProduct::build(views, &mut host);
    assert_eq!(list.mounted(), 3);
    assert_eq!(list.len(), 3);
    let id0 = list.item(0).js();
    let id1 = list.item(1).js();
    let id2 = list.item(2).js();
    assert!(host.is_attached(id0) && host.is_attached(id1) && host.is_attached(id2));
    assert_eq!(host.read_text(id0), "a");
    assert_eq!(host.read_text(id2), "c");

    list.update(vec!["a".to_string(), "x".to_string()], &mut host);
    assert_eq!(list.mounted(), 2);
    // storage still holds all three products: the surplus one is retained
    assert_eq!(list.len(), 3);
    assert_eq!(list.item(0).js(), id0);
    assert_eq!(host.read_text(id0), "a");
    assert_eq!(list.item(1).js(), id1);
    assert_eq!(host.read_text(id1), "x");
    assert!(!host.is_attached(id2));
    assert!(host.is_attached(id0) && host.is_attached(id1));

    let count_before_regrow = host.len();
    list.update(
        vec!["a".to_string(), "x".to_string(), "y".to_string(), "z".to_string()],
        &mut host,
    );
    assert_eq!(list.mounted(), 4);
    assert_eq!(list.len(), 4);
    // the retained product is reused, not freshly allocated
    assert_eq!(list.item(2).js(), id2);
    assert_eq!(host.read_text(id2), "y");
    assert!(host.is_attached(id2));
    // only one node was built for the one genuinely new position
    assert_eq!(host.len(), count_before_regrow + 1);
    let id3 = list.item(3).js();
    assert!(host.is_attached(id3));
    assert_eq!(host.read_text(id3), "z");
}

#[test]
fn list_length_convergence() {
    let mut host = Host::new();
    let mut list =
        ListProduct::build(vec!["1".to_string(), "2".to_string(), "3".to_string()], &mut host);
    let built = host.len();

    // growing from 3 to 5: exactly 2 builds, mounted becomes 5
    list.update(
        vec![
            "1".to_string(),
            "2".to_string(),
            "3".to_string(),
            "4".to_string(),
            "5".to_string(),
        ],
        &mut host,
    );
    assert_eq!(list.mounted(), 5);
    assert_eq!(host.len(), built + 2);

    // shrinking from 5 to 1: no builds, exactly 4 unmounts
    list.update(vec!["1".to_string()], &mut host);
    assert_eq!(list.mounted(), 1);
    assert_eq!(host.len(), built + 2);
    for i in 1..5 {
        assert!(!host.is_attached(list.item(i).js()));
    }
    assert!(host.is_attached(list.item(0).js()));
}

#[test]
fn bounded_list_clamps() {
    let mut host = Host::new();
    let mut list: BoundedProduct<TextProduct, 2> = BoundedProduct::build(
        vec!["a".to_string(), "b".to_string(), "c".to_string(), "d".to_string()],
        &mut host,
    );
    // two mounted, the extra views silently dropped, storage never over 2
    assert_eq!(list.mounted(), 2);
    assert_eq!(list.len(), 2);
    assert_eq!(host.read_text(list.item(1).js()), "b");

    list.update(vec!["p".to_string(), "q".to_string(), "r".to_string()], &mut host);
    assert_eq!(list.mounted(), 2);
    assert_eq!(list.len(), 2);
    assert_eq!(host.read_text(list.item(0).js()), "p");
    assert_eq!(host.read_text(list.item(1).js()), "q");

    list.update(vec!["p".to_string()], &mut host);
    assert_eq!(list.mounted(), 1);
    assert_eq!(list.len(), 2);
}

#[test]
fn bounded_capacity_invariant() {
    let mut v: BoundedVec<u32, 3> = BoundedVec::new();
    assert!(v.push(10));
    assert!(v.push(20));
    assert!(v.push(30));
    // pushing past the capacity is a silent no-op, reported by the result
    assert!(!v.push(40));
    assert!(!v.push(50));
    assert_eq!(v.len(), 3);
}

#[test]
fn bounded_vec_extend_clamps() {
    let mut v: BoundedVec<u32, 3> = BoundedVec::new();
    assert!(v.push(1));
    v.extend(vec![2, 3, 4, 5]);
    assert_eq!(v.len(), 3);
}

#[test]
fn idempotent_noop_update() {
    let mut host = Host::new();
    let view = "steady".to_string();
    let mut p = view.build(&mut host);
    let id = p.js();
    host.append(id);

    let nodes_before = host.len();
    let text_before = host.read_text(id);
    let ids_before = host.event_ids_used();
    // a structurally identical view performs zero host mutations
    "steady".to_string().update(&mut p, &mut host);
    assert_eq!(host.len(), nodes_before);
    assert_eq!(host.read_text(id), text_before);
    assert!(host.is_attached(id));
    assert_eq!(host.event_ids_used(), ids_before);

    // the same holds for a whole list pass that changed nothing
    let views = vec!["p".to_string(), "q".to_string()];
    let mut list = ListProduct::build(views, &mut host);
    let nodes_before = host.len();
    list.update(vec!["p".to_string(), "q".to_string()], &mut host);
    assert_eq!(host.len(), nodes_before);
    assert_eq!(list.mounted(), 2);
    assert_eq!(host.read_text(list.item(0).js()), "p");
}
