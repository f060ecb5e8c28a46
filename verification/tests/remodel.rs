use rbx_dom_weak::types::Variant;

use remodel::error::ErrorKind;
use remodel::handle::{InstanceRef, TreeHandle};
use remodel::pipeline::Remodel;
use remodel::tree::Tree;

fn s(text: &str) -> String {
    text.to_string()
}

fn empty_props() -> Vec<(String, Variant)> {
    Vec::new()
}

fn folder(name: &str) -> (String, String, Vec<(String, Variant)>) {
    (s(name), s("Folder"), empty_props())
}

/// A tree with root -> [A, B], B -> [C]; A carries a property.
fn sample_tree() -> Tree {
    let mut tree = Tree::new(s("ROOT"), s("DataModel"), empty_props());
    let props_a = vec![(s("Value"), Variant::String(s("hello")))];
    let a = tree
        .insert_instance(0, s("A"), s("StringValue"), props_a)
        .unwrap();
    assert_eq!(a, 1);
    let (bn, bc, bp) = folder("B");
    let b = tree.insert_instance(0, bn, bc, bp).unwrap();
    assert_eq!(b, 2);
    let (cn, cc, cp) = folder("C");
    let c = tree.insert_instance(b, cn, cc, cp).unwrap();
    assert_eq!(c, 3);
    tree
}

#[test]
fn place_path_dispatch() {
    assert!(Remodel::check_place_read_path("x.rbxlx").is_ok());
    let unsupported = Remodel::check_place_read_path("x.rbxl").unwrap_err();
    assert_eq!(unsupported.kind(), ErrorKind::Unsupported);
    let invalid = Remodel::check_place_read_path("x.txt").unwrap_err();
    assert_eq!(invalid.kind(), ErrorKind::InvalidArgument);
    assert!(invalid.message().contains("x.txt"));

    assert!(Remodel::check_place_write_path("out/place.rbxlx").is_ok());
    let unsupported = Remodel::check_place_write_path("out/place.rbxl").unwrap_err();
    assert_eq!(unsupported.kind(), ErrorKind::Unsupported);
    let invalid = Remodel::check_place_write_path("out/place").unwrap_err();
    assert_eq!(invalid.kind(), ErrorKind::InvalidArgument);
    assert!(invalid.message().contains("out/place"));
}

#[test]
fn model_path_dispatch() {
    assert!(Remodel::check_model_read_path("m.rbxmx").is_ok());
    let unsupported = Remodel::check_model_read_path("m.rbxm").unwrap_err();
    assert_eq!(unsupported.kind(), ErrorKind::Unsupported);
    let invalid = Remodel::check_model_read_path("m.rbxlx").unwrap_err();
    assert_eq!(invalid.kind(), ErrorKind::InvalidArgument);
    assert!(invalid.message().contains("m.rbxlx"));

    assert!(Remodel::check_model_write_path("m.rbxmx").is_ok());
    let unsupported = Remodel::check_model_write_path("m.rbxm").unwrap_err();
    assert_eq!(unsupported.kind(), ErrorKind::Unsupported);
    let invalid = Remodel::check_model_write_path("m").unwrap_err();
    assert_eq!(invalid.kind(), ErrorKind::InvalidArgument);
}

#[test]
fn extension_matching_is_exact() {
    // Case-sensitive, whole-extension matches only.
    assert_eq!(
        Remodel::check_place_read_path("x.RBXLX").unwrap_err().kind(),
        ErrorKind::InvalidArgument
    );
    assert_eq!(
        Remodel::check_place_read_path("x.rbxlxx").unwrap_err().kind(),
        ErrorKind::InvalidArgument
    );
    // A file name that only starts with a dot has no extension.
    assert_eq!(
        Remodel::check_place_read_path(".rbxlx").unwrap_err().kind(),
        ErrorKind::InvalidArgument
    );
    assert_eq!(
        Remodel::check_place_read_path("dir/.rbxlx").unwrap_err().kind(),
        ErrorKind::InvalidArgument
    );
    // The extension belongs to the last path segment.
    assert_eq!(
        Remodel::check_place_read_path("a.rbxlx/b").unwrap_err().kind(),
        ErrorKind::InvalidArgument
    );
    // The dispatch looks only at the last dot.
    assert!(Remodel::check_place_read_path("a.rbxl.rbxlx").is_ok());
}

#[test]
fn tree_construction_and_lookup() {
    let tree = sample_tree();
    assert_eq!(tree.get_root_id(), 0);
    let root = tree.get_instance(0).unwrap();
    assert_eq!(root.name, "ROOT");
    assert_eq!(root.children, vec![1, 2]);
    let a = tree.get_instance(1).unwrap();
    assert_eq!(a.name, "A");
    assert_eq!(a.class_name, "StringValue");
    assert_eq!(a.parent, Some(0));
    let b = tree.get_instance(2).unwrap();
    assert_eq!(b.children, vec![3]);
    assert!(tree.get_instance(4).is_none());
    assert_eq!(tree.get_children_ids(0).unwrap(), vec![1, 2]);
    assert!(tree.get_children_ids(9).is_none());
}

#[test]
fn insert_under_missing_parent_fails() {
    let mut tree = Tree::new(s("ROOT"), s("DataModel"), empty_props());
    let (n, c, p) = folder("X");
    let e = tree.insert_instance(7, n, c, p).unwrap_err();
    assert_eq!(e.kind(), ErrorKind::DestroyedReference);
}

#[test]
fn remove_rules() {
    let mut tree = sample_tree();
    // The root cannot be removed.
    assert_eq!(
        tree.remove_instance(0).unwrap_err().kind(),
        ErrorKind::InvalidArgument
    );
    // An instance that still has children cannot be removed.
    assert_eq!(
        tree.remove_instance(2).unwrap_err().kind(),
        ErrorKind::InvalidArgument
    );
    // A missing identity is a destroyed reference.
    assert_eq!(
        tree.remove_instance(9).unwrap_err().kind(),
        ErrorKind::DestroyedReference
    );
    // A leaf goes, and its parent's order is preserved.
    tree.remove_instance(1).unwrap();
    assert!(tree.get_instance(1).is_none());
    assert_eq!(tree.get_children_ids(0).unwrap(), vec![2]);
    // Removing it twice is a destroyed reference.
    assert_eq!(
        tree.remove_instance(1).unwrap_err().kind(),
        ErrorKind::DestroyedReference
    );
}

#[test]
fn identities_are_never_reused() {
    let mut tree = sample_tree();
    tree.remove_instance(3).unwrap();
    let (n, c, p) = folder("D");
    let d = tree.insert_instance(2, n, c, p).unwrap();
    // The freed identity 3 is not handed out again.
    assert_eq!(d, 4);
    assert!(tree.get_instance(3).is_none());
    assert_eq!(tree.get_children_ids(2).unwrap(), vec![4]);
}

#[test]
fn handle_shares_one_tree() {
    let handle = TreeHandle::new(sample_tree());
    let other = handle.clone();
    let (n, c, p) = folder("D");
    let d = other.insert_instance(0, n, c, p).unwrap();
    // Both handles observe the mutation made through either one.
    assert_eq!(handle.get_children_ids(0).unwrap(), vec![1, 2, d]);
    assert_eq!(other.get_children_ids(0).unwrap(), vec![1, 2, d]);
    assert!(handle.is_valid(d));
    other.remove_instance(d).unwrap();
    assert!(!handle.is_valid(d));
    assert_eq!(handle.get_children_ids(0).unwrap(), vec![1, 2]);
}

#[test]
fn two_mutations_both_apply_fully() {
    let handle = TreeHandle::new(Tree::new(s("ROOT"), s("DataModel"), empty_props()));
    let first = handle.clone();
    let second = handle.clone();
    let (n1, c1, p1) = folder("First");
    let (n2, c2, p2) = folder("Second");
    let a = first.insert_instance(0, n1, c1, p1).unwrap();
    let b = second.insert_instance(0, n2, c2, p2).unwrap();
    // Neither update is lost, and the identities are distinct.
    assert_ne!(a, b);
    assert_eq!(handle.get_children_ids(0).unwrap(), vec![a, b]);
    assert_eq!(handle.instance_name(a).unwrap(), "First");
    assert_eq!(handle.instance_name(b).unwrap(), "Second");
}

#[test]
fn place_round_trip_preserves_structure() {
    let handle = TreeHandle::new(sample_tree());
    let root_ref = InstanceRef::new(handle, 0);
    let bytes = Remodel::write_place_contents(&root_ref).unwrap();

    let reread = Remodel::read_place_contents(&bytes).unwrap();
    let tree = &reread.tree;
    let root_children = tree.get_children_ids(reread.id).unwrap();
    assert_eq!(root_children.len(), 2);
    assert_eq!(tree.instance_name(root_children[0]).unwrap(), "A");
    assert_eq!(tree.instance_class_name(root_children[0]).unwrap(), "StringValue");
    assert_eq!(tree.instance_name(root_children[1]).unwrap(), "B");
    assert_eq!(tree.instance_class_name(root_children[1]).unwrap(), "Folder");
    // B's subtree came back in order.
    let b_children = tree.get_children_ids(root_children[1]).unwrap();
    assert_eq!(b_children.len(), 1);
    assert_eq!(tree.instance_name(b_children[0]).unwrap(), "C");
    // A's property payload survived the round trip.
    let props = tree.instance_properties(root_children[0]).unwrap();
    let value = props.iter().find(|(k, _)| k == "Value").expect("Value survives");
    assert_eq!(value.1, Variant::String(s("hello")));
}

#[test]
fn model_read_selection_is_the_roots_children() {
    let tree = sample_tree();
    assert_eq!(Remodel::model_read_ids(&tree), vec![1, 2]);
    let lone = Tree::new(s("ROOT"), s("DataModel"), empty_props());
    assert!(Remodel::model_read_ids(&lone).is_empty());
}

#[test]
fn model_read_yields_one_ref_per_child() {
    let handle = TreeHandle::new(sample_tree());
    let root_ref = InstanceRef::new(handle, 0);
    let bytes = Remodel::write_place_contents(&root_ref).unwrap();

    let refs = Remodel::read_model_contents(&bytes).unwrap();
    assert_eq!(refs.len(), 2);
    // Each reference resolves on its own and order matches the file.
    assert_eq!(refs[0].tree.instance_name(refs[0].id).unwrap(), "A");
    assert_eq!(refs[1].tree.instance_name(refs[1].id).unwrap(), "B");
}

#[test]
fn model_read_of_empty_container_is_empty() {
    let handle = TreeHandle::new(Tree::new(s("ROOT"), s("DataModel"), empty_props()));
    let root_ref = InstanceRef::new(handle, 0);
    let bytes = Remodel::write_place_contents(&root_ref).unwrap();
    let refs = Remodel::read_model_contents(&bytes).unwrap();
    assert!(refs.is_empty());
}

#[test]
fn model_round_trip_of_one_subtree() {
    let handle = TreeHandle::new(sample_tree());
    let b_ref = InstanceRef::new(handle, 2);
    let bytes = Remodel::write_model_contents(&b_ref).unwrap();

    let refs = Remodel::read_model_contents(&bytes).unwrap();
    assert_eq!(refs.len(), 1);
    let b = &refs[0];
    assert_eq!(b.tree.instance_name(b.id).unwrap(), "B");
    let children = b.tree.get_children_ids(b.id).unwrap();
    assert_eq!(children.len(), 1);
    assert_eq!(b.tree.instance_name(children[0]).unwrap(), "C");
}

#[test]
fn write_with_destroyed_reference_fails_without_output() {
    let handle = TreeHandle::new(sample_tree());
    let a_ref = InstanceRef::new(handle.clone(), 1);
    handle.remove_instance(1).unwrap();

    let model_err = Remodel::write_model_contents(&a_ref).unwrap_err();
    assert_eq!(model_err.kind(), ErrorKind::DestroyedReference);
    let place_err = Remodel::write_place_contents(&a_ref).unwrap_err();
    assert_eq!(place_err.kind(), ErrorKind::DestroyedReference);
}

#[test]
fn unparsable_bytes_are_a_format_error() {
    let garbage = b"this is not an XML document";
    let place = Remodel::read_place_contents(garbage).err().unwrap();
    assert_eq!(place.kind(), ErrorKind::Format);
    let model = Remodel::read_model_contents(garbage).err().unwrap();
    assert_eq!(model.kind(), ErrorKind::Format);
}

#[test]
fn error_carries_kind_and_message() {
    let e = remodel::error::Error::io(s("open failed"));
    assert_eq!(e.kind(), ErrorKind::Io);
    assert_eq!(e.message().as_str(), "open failed");
}
