use vstd::prelude::*;
use vstd::string::StringExecFns;

use rbx_dom_weak::types::{Ref, Variant};
use rbx_dom_weak::{InstanceBuilder, WeakDom};

use crate::codec;
use crate::error::{Error, ErrorKind};
use crate::handle::{InstanceRef, TreeHandle};
use crate::router;
use crate::router::FormatClass;
use crate::tree::Tree;

verus! {

/// The scripting-facing operation set: reading and writing place and model
/// files, with the format dispatch and root-selection policy that differs
/// between the two. File bytes come in and go out as plain buffers; the
/// caller performs the file I/O around them.
pub struct Remodel;

/// Builds a verified tree from a decoded document by walking it from the
/// root, breadth-first, keeping each instance's children in order. The
/// document is opaque, so the walk takes whatever answers its lookups give
/// and still returns a well-formed tree; the root of the result carries
/// the document's synthetic root container, which every document has.
fn tree_from_dom(dom: &WeakDom) -> (t: Tree)
    ensures
        t.wf(),
        t.has(0),
{
    let (name, class_name, properties, child_refs) = codec::dom_fetch_root(dom);
    let mut tree = Tree::new(name, class_name, properties);
    let mut queue: Vec<(Vec<Ref>, usize)> = Vec::new();
    queue.push((child_refs, 0));
    // One work-list entry per fetched instance, so the document's own
    // instance count bounds the walk; a consistent document is walked in
    // full, and an inconsistent one (which the codec cannot hand over)
    // stops expanding rather than walking forever.
    let budget = codec::dom_node_count(dom);
    let mut qi: usize = 0;
    while qi < queue.len() && qi <= budget
        invariant
            tree.wf(),
            forall|j: int| 0 <= j < queue@.len() ==> tree.has(#[trigger] queue@[j].1),
        decreases budget + 1 - qi,
    {
        proof {
            assert(tree.has(queue@[qi as int].1));
            assert(tree.has(0));
        }
        let mut entry: (Vec<Ref>, usize) = (Vec::new(), 0);
        core::mem::swap(&mut queue[qi], &mut entry);
        let (refs, pid) = entry;
        let mut k: usize = 0;
        while k < refs.len()
            invariant
                tree.wf(),
                tree.has(pid),
                forall|j: int| 0 <= j < queue@.len() ==> tree.has(#[trigger] queue@[j].1),
            decreases refs@.len() - k,
        {
            let child_ref = refs[k];
            match codec::dom_fetch(dom, child_ref) {
                Some((cname, cclass, cprops, crefs)) => {
                    let inserted = tree.insert_instance(pid, cname, cclass, cprops);
                    let cid = inserted.unwrap();
                    queue.push((crefs, cid));
                },
                None => {
                    // A child referent the document cannot resolve is
                    // dropped; the tree stays well-formed either way.
                },
            }
            k += 1;
        }
        qi += 1;
    }
    tree
}

/// The structural content of a builder — name, class name and ordered
/// child shapes — is exactly the tree's subtree at `id`. Property
/// payloads are opaque to this library and deliberately not compared.
pub open spec fn builder_matches_subtree(b: InstanceBuilder, tree: Tree, id: usize) -> bool
    decreases tree.arena_len() - id,
        when tree.wf() && tree.has(id)
        via builder_matches_subtree_decreases
{
    &&& codec::builder_name(b) == tree.at(id).name@
    &&& codec::builder_class(b) == tree.at(id).class_name@
    &&& codec::builder_children(b).len() == tree.at(id).children@.len()
    &&& forall|k: int|
        0 <= k < tree.at(id).children@.len() ==> builder_matches_subtree(
            #[trigger] codec::builder_children(b)[k],
            tree,
            tree.at(id).children@[k],
        )
}

#[via_fn]
proof fn builder_matches_subtree_decreases(b: InstanceBuilder, tree: Tree, id: usize) {
    assert(tree.has(id));
    assert(tree.wf_node(id));
    assert forall|k: int| 0 <= k < tree.at(id).children@.len() implies id < tree.at(
        id,
    ).children@[k] && tree.has(tree.at(id).children@[k]) by {
        assert(tree.child_ok(id, k));
    }
}

/// Builds the codec's subtree description for the instance at `id`: its
/// structural content matches the tree's subtree there, children in
/// order. Parent identities are strictly smaller than their children's,
/// which bounds the recursion.
fn builder_for_subtree(tree: &Tree, id: usize) -> (b: InstanceBuilder)
    requires
        tree.wf(),
        tree.has(id),
    ensures
        builder_matches_subtree(b, *tree, id),
    decreases tree.arena_len() - id,
{
    let node = tree.get_instance(id).unwrap();
    let mut b = codec::builder_new(&node.name, &node.class_name, &node.properties);
    let mut k: usize = 0;
    while k < node.children.len()
        invariant
            tree.wf(),
            tree.has(id),
            *node == tree.at(id),
            k <= node.children@.len(),
            codec::builder_name(b) == tree.at(id).name@,
            codec::builder_class(b) == tree.at(id).class_name@,
            codec::builder_children(b).len() == k,
            forall|j: int|
                0 <= j < k ==> builder_matches_subtree(
                    #[trigger] codec::builder_children(b)[j],
                    *tree,
                    tree.at(id).children@[j],
                ),
        decreases node.children@.len() - k,
    {
        let c = node.children[k];
        proof {
            assert(tree.wf_node(id));
            assert(tree.child_ok(id, k as int));
        }
        let cb = builder_for_subtree(tree, c);
        codec::builder_add_child(&mut b, cb);
        k += 1;
    }
    proof {
        assert forall|j: int| 0 <= j < tree.at(id).children@.len() implies tree.has(
            #[trigger] tree.at(id).children@[j],
        ) by {
            assert(tree.wf_node(id));
            assert(tree.child_ok(id, j));
        }
        assert(builder_matches_subtree(b, *tree, id));
    }
    b
}

/// Builds the container handed to the codec: its children are, in order,
/// the subtrees at `roots`. The container instance itself carries no
/// meaning; the codec writes only its children.
fn container_for_roots(tree: &Tree, roots: &Vec<usize>) -> (c: InstanceBuilder)
    requires
        tree.wf(),
        forall|j: int| 0 <= j < roots@.len() ==> tree.has(#[trigger] roots@[j]),
    ensures
        codec::builder_children(c).len() == roots@.len(),
        forall|k: int|
            0 <= k < roots@.len() ==> builder_matches_subtree(
                #[trigger] codec::builder_children(c)[k],
                *tree,
                roots@[k],
            ),
{
    let container_name = String::from_str("ROOT");
    let container_class = String::from_str("DataModel");
    let no_props: Vec<(String, Variant)> = Vec::new();
    let mut c = codec::builder_new(&container_name, &container_class, &no_props);
    let mut k: usize = 0;
    while k < roots.len()
        invariant
            tree.wf(),
            forall|j: int| 0 <= j < roots@.len() ==> tree.has(#[trigger] roots@[j]),
            k <= roots@.len(),
            codec::builder_children(c).len() == k,
            forall|j: int|
                0 <= j < k ==> builder_matches_subtree(
                    #[trigger] codec::builder_children(c)[j],
                    *tree,
                    roots@[j],
                ),
        decreases roots@.len() - k,
    {
        let sub = builder_for_subtree(tree, roots[k]);
        codec::builder_add_child(&mut c, sub);
        k += 1;
    }
    c
}

/// Serializes the subtrees at `roots`, in order, as the top-level objects
/// of one file. What goes to the codec is pinned one step down: the
/// document is built from a container whose children match the subtrees
/// at `roots` ([`container_for_roots`], [`codec::dom_from_builder`]), and
/// the codec writes exactly that container's children.
fn encode_from_roots(tree: &Tree, roots: &Vec<usize>) -> (r: Result<Vec<u8>, Error>)
    requires
        tree.wf(),
        forall|j: int| 0 <= j < roots@.len() ==> tree.has(#[trigger] roots@[j]),
    ensures
        r matches Err(e) ==> e.kind == ErrorKind::Format,
{
    let container = container_for_roots(tree, roots);
    let dom = codec::dom_from_builder(container);
    match codec::xml_encode_root_children(&dom) {
        Ok(bytes) => Ok(bytes),
        Err(e) => Err(Error::format(codec::encode_error_text(&e))),
    }
}

/// Root selection for a place write: the referenced instance stands for
/// the file's implicit container, so its children, in order, are the
/// serialization roots. Fails iff the identity no longer resolves.
pub fn place_write_roots(tree: &Tree, id: usize) -> (r: Result<Vec<usize>, Error>)
    requires
        tree.wf(),
    ensures
        r is Ok <==> tree.has(id),
        r matches Ok(v) ==> v@ == tree.at(id).children@,
        r matches Err(e) ==> e.kind == ErrorKind::DestroyedReference && e.message@
            == "Instance was destroyed"@,
{
    match tree.get_children_ids(id) {
        Some(v) => Ok(v),
        None => Err(Error::destroyed_reference(String::from_str("Instance was destroyed"))),
    }
}

/// Root selection for a model write: the referenced instance itself is the
/// single serialization root. Fails iff the identity no longer resolves.
pub fn model_write_roots(tree: &Tree, id: usize) -> (r: Result<Vec<usize>, Error>)
    requires
        tree.wf(),
    ensures
        r is Ok <==> tree.has(id),
        r matches Ok(v) ==> v@ =~= seq![id],
        r matches Err(e) ==> e.kind == ErrorKind::DestroyedReference && e.message@
            == "Instance was destroyed"@,
{
    match tree.get_instance(id) {
        Some(_) => {
            let mut v: Vec<usize> = Vec::new();
            v.push(id);
            Ok(v)
        },
        None => Err(Error::destroyed_reference(String::from_str("Instance was destroyed"))),
    }
}

/// One reference per identity, in order, all sharing one handle.
fn refs_for_ids(handle: &TreeHandle, ids: &Vec<usize>) -> (refs: Vec<InstanceRef>)
    ensures
        refs@.len() == ids@.len(),
        forall|i: int| 0 <= i < ids@.len() ==> refs@[i].id == ids@[i],
{
    let mut refs: Vec<InstanceRef> = Vec::new();
    let mut k: usize = 0;
    while k < ids.len()
        invariant
            refs@.len() == k,
            k <= ids@.len(),
            forall|i: int| 0 <= i < k ==> refs@[i].id == ids@[i],
        decreases ids@.len() - k,
    {
        refs.push(InstanceRef::new(handle.clone(), ids[k]));
        k += 1;
    }
    refs
}

/// Law: the synthetic root's children all resolve, so the references a
/// model read hands out are each independently usable.
pub proof fn lemma_root_children_resolvable(tree: Tree)
    requires
        tree.wf(),
    ensures
        forall|k: int|
            0 <= k < tree.at(0).children@.len() ==> tree.has(
                #[trigger] tree.at(0).children@[k],
            ),
{
    assert(tree.has(0));
    assert(tree.wf_node(0));
    assert forall|k: int|
        0 <= k < tree.at(0).children@.len() implies tree.has(
        tree.at(0).children@[k],
    ) by {
        assert(tree.child_ok(0, k));
    }
}

/// The locked body of a place write: resolve `id`, then serialize its
/// children while still holding the lock. A destroyed reference fails
/// before any bytes exist, and it is the only way to fail other than a
/// codec serialize failure.
pub fn place_bytes_of(tree: &Tree, id: usize) -> (r: Result<Vec<u8>, Error>)
    requires
        tree.wf(),
    ensures
        !tree.has(id) ==> (r matches Err(e) && e.kind == ErrorKind::DestroyedReference),
        tree.has(id) ==> !(r matches Err(e) && e.kind == ErrorKind::DestroyedReference),
        r matches Err(e) ==> e.kind == ErrorKind::DestroyedReference || e.kind
            == ErrorKind::Format,
{
    let roots = match place_write_roots(tree, id) {
        Ok(v) => v,
        Err(e) => {
            return Err(e);
        },
    };
    proof {
        assert(tree.wf_node(id));
        assert forall|j: int| 0 <= j < roots@.len() implies tree.has(
            #[trigger] roots@[j],
        ) by {
            assert(tree.child_ok(id, j));
        }
    }
    encode_from_roots(tree, &roots)
}

/// The locked body of a model write: resolve `id`, then serialize the
/// instance itself while still holding the lock. A destroyed reference
/// fails before any bytes exist, and it is the only way to fail other
/// than a codec serialize failure.
pub fn model_bytes_of(tree: &Tree, id: usize) -> (r: Result<Vec<u8>, Error>)
    requires
        tree.wf(),
    ensures
        !tree.has(id) ==> (r matches Err(e) && e.kind == ErrorKind::DestroyedReference),
        tree.has(id) ==> !(r matches Err(e) && e.kind == ErrorKind::DestroyedReference),
        r matches Err(e) ==> e.kind == ErrorKind::DestroyedReference || e.kind
            == ErrorKind::Format,
{
    let roots = match model_write_roots(tree, id) {
        Ok(v) => v,
        Err(e) => {
            return Err(e);
        },
    };
    encode_from_roots(tree, &roots)
}

impl Remodel {
    /// Dispatches a path for the place read operation: the XML place
    /// extension is accepted; the binary sibling is recognized but
    /// unsupported; anything else is an invalid argument whose message
    /// carries the path verbatim.
    pub fn check_place_read_path(path: &str) -> (r: Result<(), Error>)
        ensures
            r is Ok <==> router::classify_spec(path@, router::place_ext(), router::place_binary_ext())
                == FormatClass::Supported,
            r matches Err(e) ==> (e.kind == ErrorKind::Unsupported <==> router::classify_spec(
                path@,
                router::place_ext(),
                router::place_binary_ext(),
            ) == FormatClass::RecognizedUnsupported),
            r matches Err(e) ==> (e.kind == ErrorKind::Unsupported ==> e.message@
                == "Reading rbxl place files is not supported yet."@),
            r matches Err(e) ==> (e.kind == ErrorKind::InvalidArgument ==> e.message@
                == "Invalid place file path "@ + path@),
            r matches Err(e) ==> e.kind == ErrorKind::Unsupported || e.kind
                == ErrorKind::InvalidArgument,
    {
        match router::classify_place_path(path) {
            FormatClass::Supported => Ok(()),
            FormatClass::RecognizedUnsupported => Err(
                Error::unsupported(
                    String::from_str("Reading rbxl place files is not supported yet."),
                ),
            ),
            FormatClass::Unknown => {
                let mut m = String::from_str("Invalid place file path ");
                m.append(path);
                Err(Error::invalid_argument(m))
            },
        }
    }

    /// Dispatches a path for the place write operation; see
    /// [`Remodel::check_place_read_path`].
    pub fn check_place_write_path(path: &str) -> (r: Result<(), Error>)
        ensures
            r is Ok <==> router::classify_spec(path@, router::place_ext(), router::place_binary_ext())
                == FormatClass::Supported,
            r matches Err(e) ==> (e.kind == ErrorKind::Unsupported <==> router::classify_spec(
                path@,
                router::place_ext(),
                router::place_binary_ext(),
            ) == FormatClass::RecognizedUnsupported),
            r matches Err(e) ==> (e.kind == ErrorKind::Unsupported ==> e.message@
                == "Writing rbxl place files is not supported yet."@),
            r matches Err(e) ==> (e.kind == ErrorKind::InvalidArgument ==> e.message@
                == "Invalid place file path "@ + path@),
            r matches Err(e) ==> e.kind == ErrorKind::Unsupported || e.kind
                == ErrorKind::InvalidArgument,
    {
        match router::classify_place_path(path) {
            FormatClass::Supported => Ok(()),
            FormatClass::RecognizedUnsupported => Err(
                Error::unsupported(
                    String::from_str("Writing rbxl place files is not supported yet."),
                ),
            ),
            FormatClass::Unknown => {
                let mut m = String::from_str("Invalid place file path ");
                m.append(path);
                Err(Error::invalid_argument(m))
            },
        }
    }

    /// Dispatches a path for the model read operation; the model
    /// extensions take the place of the place ones.
    pub fn check_model_read_path(path: &str) -> (r: Result<(), Error>)
        ensures
            r is Ok <==> router::classify_spec(path@, router::model_ext(), router::model_binary_ext())
                == FormatClass::Supported,
            r matches Err(e) ==> (e.kind == ErrorKind::Unsupported <==> router::classify_spec(
                path@,
                router::model_ext(),
                router::model_binary_ext(),
            ) == FormatClass::RecognizedUnsupported),
            r matches Err(e) ==> (e.kind == ErrorKind::Unsupported ==> e.message@
                == "Reading rbxm model files is not supported yet."@),
            r matches Err(e) ==> (e.kind == ErrorKind::InvalidArgument ==> e.message@
                == "Invalid model file path "@ + path@),
            r matches Err(e) ==> e.kind == ErrorKind::Unsupported || e.kind
                == ErrorKind::InvalidArgument,
    {
        match router::classify_model_path(path) {
            FormatClass::Supported => Ok(()),
            FormatClass::RecognizedUnsupported => Err(
                Error::unsupported(
                    String::from_str("Reading rbxm model files is not supported yet."),
                ),
            ),
            FormatClass::Unknown => {
                let mut m = String::from_str("Invalid model file path ");
                m.append(path);
                Err(Error::invalid_argument(m))
            },
        }
    }

    /// Dispatches a path for the model write operation; see
    /// [`Remodel::check_model_read_path`].
    pub fn check_model_write_path(path: &str) -> (r: Result<(), Error>)
        ensures
            r is Ok <==> router::classify_spec(path@, router::model_ext(), router::model_binary_ext())
                == FormatClass::Supported,
            r matches Err(e) ==> (e.kind == ErrorKind::Unsupported <==> router::classify_spec(
                path@,
                router::model_ext(),
                router::model_binary_ext(),
            ) == FormatClass::RecognizedUnsupported),
            r matches Err(e) ==> (e.kind == ErrorKind::Unsupported ==> e.message@
                == "Writing rbxm model files is not supported yet."@),
            r matches Err(e) ==> (e.kind == ErrorKind::InvalidArgument ==> e.message@
                == "Invalid model file path "@ + path@),
            r matches Err(e) ==> e.kind == ErrorKind::Unsupported || e.kind
                == ErrorKind::InvalidArgument,
    {
        match router::classify_model_path(path) {
            FormatClass::Supported => Ok(()),
            FormatClass::RecognizedUnsupported => Err(
                Error::unsupported(
                    String::from_str("Writing rbxm model files is not supported yet."),
                ),
            ),
            FormatClass::Unknown => {
                let mut m = String::from_str("Invalid model file path ");
                m.append(path);
                Err(Error::invalid_argument(m))
            },
        }
    }

    /// The place read pipeline after the file's bytes are in hand: parse
    /// them into a fresh tree and hand out one reference to its root.
    /// It succeeds exactly when the codec's parser accepts the bytes; a
    /// parse failure is the only failure.
    pub fn read_place_contents(bytes: &[u8]) -> (r: Result<InstanceRef, Error>)
        ensures
            r is Ok <==> codec::xml_parses(bytes@),
            r matches Ok(iref) ==> iref.id == 0,
            r matches Err(e) ==> e.kind == ErrorKind::Format,
    {
        let dom = match codec::xml_decode(bytes) {
            Ok(dom) => dom,
            Err(e) => {
                return Err(Error::format(codec::decode_error_text(&e)));
            },
        };
        let tree = tree_from_dom(&dom);
        let root_id = tree.get_root_id();
        let handle = TreeHandle::new(tree);
        Ok(InstanceRef::new(handle, root_id))
    }

    /// The model read's selection policy: one identity per child of the
    /// synthetic root, in file order — the root container itself is never
    /// handed out, and a childless root yields the empty selection.
    pub fn model_read_ids(tree: &Tree) -> (ids: Vec<usize>)
        requires
            tree.wf(),
        ensures
            ids@ == tree.at(tree.spec_root_id()).children@,
    {
        tree.get_children_ids(tree.get_root_id()).unwrap()
    }

    /// The model read pipeline after the file's bytes are in hand: parse
    /// them into a fresh tree and hand out one reference per child of the
    /// synthetic root, in file order ([`Remodel::model_read_ids`] picks
    /// the identities, [`refs_for_ids`] pairs each with the shared
    /// handle). The selection happens before the tree is first shared, so
    /// no other holder of the handle can exist yet. It succeeds exactly
    /// when the codec's parser accepts the bytes; a file with no
    /// top-level objects yields an empty sequence, not an error.
    pub fn read_model_contents(bytes: &[u8]) -> (r: Result<Vec<InstanceRef>, Error>)
        ensures
            r is Ok <==> codec::xml_parses(bytes@),
            r matches Err(e) ==> e.kind == ErrorKind::Format,
    {
        let dom = match codec::xml_decode(bytes) {
            Ok(dom) => dom,
            Err(e) => {
                return Err(Error::format(codec::decode_error_text(&e)));
            },
        };
        let tree = tree_from_dom(&dom);
        let child_ids = Remodel::model_read_ids(&tree);
        let handle = TreeHandle::new(tree);
        Ok(refs_for_ids(&handle, &child_ids))
    }

    /// The place write pipeline up to the file itself: resolve the
    /// reference and serialize the children of its instance, holding the
    /// tree's lock for the whole serialization. If the reference's
    /// identity has been removed, the operation fails with a
    /// destroyed-reference error and produces no bytes at all.
    pub fn write_place_contents(target: &InstanceRef) -> (r: Result<Vec<u8>, Error>)
        ensures
            r matches Err(e) ==> e.kind == ErrorKind::DestroyedReference || e.kind
                == ErrorKind::Format,
    {
        let rh = target.tree.lock.acquire_read();
        let out = place_bytes_of(rh.borrow(), target.id);
        rh.release_read();
        out
    }

    /// The model write pipeline up to the file itself: resolve the
    /// reference and serialize its instance as the single root, holding
    /// the tree's lock for the whole serialization. If the reference's
    /// identity has been removed, the operation fails with a
    /// destroyed-reference error and produces no bytes at all.
    pub fn write_model_contents(target: &InstanceRef) -> (r: Result<Vec<u8>, Error>)
        ensures
            r matches Err(e) ==> e.kind == ErrorKind::DestroyedReference || e.kind
                == ErrorKind::Format,
    {
        let rh = target.tree.lock.acquire_read();
        let out = model_bytes_of(rh.borrow(), target.id);
        rh.release_read();
        out
    }
}

} // verus!
