use vstd::prelude::*;
use vstd::string::StringExecFns;

use rbx_dom_weak::types::Variant;

use crate::error::{Error, ErrorKind};

verus! {

/// One node of a tree: a name, a class name, an opaque property payload
/// carried through for the codec, the identities of the node's children in
/// order, and the identity of its parent (`None` only for the root).
///
/// An `Instance` value never stands alone: a [`Tree`] owns it and addresses
/// it by an identity that is unique within that tree.
pub struct Instance {
    pub name: String,
    pub class_name: String,
    pub properties: Vec<(String, Variant)>,
    pub children: Vec<usize>,
    pub parent: Option<usize>,
}

/// A hierarchy of [`Instance`]s stored in an arena and addressed by
/// identity. The root's identity is fixed at creation and never changes.
///
/// Identities are arena indices, handed out in increasing order; a removed
/// instance leaves its slot empty forever, so an identity is never reused
/// within the lifetime of one tree. That is what lets a long-lived
/// reference detect that its instance was destroyed rather than alias a
/// newer one.
pub struct Tree {
    slots: Vec<Option<Instance>>,
}

impl Tree {
    /// The arena: slot `i` holds the instance with identity `i`, or `None`
    /// once that instance has been removed.
    pub closed spec fn arena(self) -> Seq<Option<Instance>> {
        self.slots@
    }

    /// How many identities this tree has ever assigned.
    pub open spec fn arena_len(self) -> nat {
        self.arena().len()
    }

    /// The root's identity. The root occupies the first slot ever assigned.
    pub open spec fn spec_root_id(self) -> usize {
        0
    }

    pub open spec fn slot(self, id: usize) -> Option<Instance> {
        if (id as int) < self.arena().len() {
            self.arena()[id as int]
        } else {
            None
        }
    }

    /// Whether `id` currently resolves to an instance.
    pub open spec fn has(self, id: usize) -> bool {
        self.slot(id) is Some
    }

    /// The instance at `id` (meaningful only when `self.has(id)`).
    pub open spec fn at(self, id: usize) -> Instance {
        self.slot(id).unwrap()
    }

    /// The `k`-th child edge of node `i` is sound: the child has a larger
    /// identity than its parent (so parent edges strictly descend), it is
    /// present, and its parent field points back at `i`.
    pub open spec fn child_ok(self, i: usize, k: int) -> bool {
        let c = self.at(i).children@[k];
        &&& i < c
        &&& (c as int) < self.arena_len()
        &&& self.has(c)
        &&& self.at(c).parent == Some(i)
    }

    pub open spec fn wf_node(self, i: usize) -> bool {
        &&& self.at(i).children@.no_duplicates()
        &&& forall|k: int|
            0 <= k < self.at(i).children@.len() ==> #[trigger] self.child_ok(i, k)
    }

    /// Node `i`'s parent field agrees with some parent's child list, and
    /// only the root has no parent.
    pub open spec fn parent_linked(self, i: usize) -> bool {
        match self.at(i).parent {
            Some(p) => p < i && self.has(p) && self.at(p).children@.contains(i),
            None => i == self.spec_root_id(),
        }
    }

    /// Well-formedness: the root is present and parentless, every child
    /// edge is sound and duplicate-free, and every present node is linked
    /// consistently to its parent. Every operation of this library takes a
    /// well-formed tree to a well-formed tree.
    pub open spec fn wf(self) -> bool {
        &&& self.has(0)
        &&& self.at(0).parent is None
        &&& forall|i: usize| #[trigger] self.has(i) ==> self.wf_node(i)
        &&& forall|i: usize| #[trigger] self.has(i) ==> self.parent_linked(i)
    }

    /// What one insert does to a tree, exactly as the contract of
    /// [`Tree::insert_instance`] states it: `id` is fresh, a childless
    /// instance appended under `parent`, every present instance stays
    /// present, and every slot but `parent`'s is untouched.
    pub open spec fn inserted_under(self, pre: Tree, parent: usize, id: usize) -> bool {
        &&& pre.has(parent)
        &&& id == pre.arena_len()
        &&& self.arena_len() == pre.arena_len() + 1
        &&& self.has(id)
        &&& self.at(id).children@.len() == 0
        &&& self.at(id).parent == Some(parent)
        &&& self.at(parent).children@ =~= pre.at(parent).children@.push(id)
        &&& forall|i: usize|
            i != parent && #[trigger] pre.slot(i) is Some ==> self.slot(i) == pre.slot(i)
        &&& forall|i: usize| #[trigger] pre.has(i) ==> self.has(i)
    }

    /// Creates a tree holding only its root instance.
    pub fn new(name: String, class_name: String, properties: Vec<(String, Variant)>) -> (t: Tree)
        ensures
            t.wf(),
            t.arena_len() == 1,
            t.at(0).name == name,
            t.at(0).class_name == class_name,
            t.at(0).properties == properties,
            t.at(0).children@.len() == 0,
    {
        let root = Instance {
            name,
            class_name,
            properties,
            children: Vec::new(),
            parent: None,
        };
        let mut slots: Vec<Option<Instance>> = Vec::new();
        slots.push(Some(root));
        Tree { slots }
    }

    /// The identity of the root instance, fixed at creation.
    pub fn get_root_id(&self) -> (r: usize)
        ensures
            r == self.spec_root_id(),
    {
        0
    }

    /// Resolves an identity to its instance, or `None` if that instance
    /// has been removed (or the identity was never assigned).
    pub fn get_instance(&self, id: usize) -> (r: Option<&Instance>)
        ensures
            match r {
                Some(inst) => self.has(id) && *inst == self.at(id),
                None => !self.has(id),
            },
    {
        if id < self.slots.len() {
            self.slots[id].as_ref()
        } else {
            None
        }
    }

    /// Resolves an identity to a copy of its instance's ordered child
    /// identities, or `None` if the instance has been removed.
    pub fn get_children_ids(&self, id: usize) -> (r: Option<Vec<usize>>)
        ensures
            match r {
                Some(v) => self.has(id) && v@ == self.at(id).children@,
                None => !self.has(id),
            },
    {
        match self.get_instance(id) {
            None => None,
            Some(inst) => {
                let mut out: Vec<usize> = Vec::new();
                let mut k: usize = 0;
                while k < inst.children.len()
                    invariant
                        k <= inst.children@.len(),
                        out@ =~= inst.children@.subrange(0, k as int),
                    decreases inst.children@.len() - k,
                {
                    out.push(inst.children[k]);
                    k += 1;
                }
                proof {
                    assert(out@ =~= inst.children@);
                }
                Some(out)
            },
        }
    }

    /// Adds a new instance under `parent`, appending it to `parent`'s
    /// children, and returns its freshly assigned identity. Fails with a
    /// destroyed-reference error, changing nothing, iff `parent` does not
    /// resolve.
    pub fn insert_instance(
        &mut self,
        parent: usize,
        name: String,
        class_name: String,
        properties: Vec<(String, Variant)>,
    ) -> (r: Result<usize, Error>)
        requires
            old(self).wf(),
        ensures
            final(self).wf(),
            r is Ok <==> old(self).has(parent),
            match r {
                Ok(id) => {
                    &&& id == old(self).arena_len()
                    &&& final(self).arena_len() == old(self).arena_len() + 1
                    &&& final(self).has(id)
                    &&& final(self).at(id).name == name
                    &&& final(self).at(id).class_name == class_name
                    &&& final(self).at(id).properties == properties
                    &&& final(self).at(id).children@.len() == 0
                    &&& final(self).at(id).parent == Some(parent)
                    &&& final(self).at(parent).children@
                        =~= old(self).at(parent).children@.push(id)
                    &&& final(self).at(parent).name == old(self).at(parent).name
                    &&& final(self).at(parent).class_name == old(self).at(parent).class_name
                    &&& final(self).at(parent).properties == old(self).at(parent).properties
                    &&& final(self).at(parent).parent == old(self).at(parent).parent
                    &&& forall|i: usize|
                        i != parent && #[trigger] old(self).slot(i) is Some ==> final(self).slot(
                            i,
                        ) == old(self).slot(i)
                    &&& forall|i: usize| #[trigger] old(self).has(i) ==> final(self).has(i)
                    &&& final(self).inserted_under(*old(self), parent, id)
                },
                Err(e) => {
                    &&& *final(self) == *old(self)
                    &&& e.kind == ErrorKind::DestroyedReference
                    &&& e.message@ == "Instance was destroyed"@
                },
            },
    {
        if parent >= self.slots.len() || self.slots[parent].is_none() {
            return Err(
                Error::destroyed_reference(String::from_str("Instance was destroyed")),
            );
        }
        let ghost prev = *self;
        let id = self.slots.len();
        let mut taken: Option<Instance> = None;
        core::mem::swap(&mut self.slots[parent], &mut taken);
        let mut pnode = taken.unwrap();
        pnode.children.push(id);
        let ghost pnode_after = pnode;
        self.slots[parent] = Some(pnode);
        self.slots.push(
            Some(
                Instance {
                    name,
                    class_name,
                    properties,
                    children: Vec::new(),
                    parent: Some(parent),
                },
            ),
        );
        proof {
            let f = *self;
            assert(f.arena() =~= prev.arena().update(parent as int, Some(pnode_after)).push(
                f.arena()[id as int],
            ));
            assert forall|i: usize| #[trigger] f.has(i) implies f.wf_node(i) by {
                if i == id {
                    assert(f.at(i).children@.len() == 0);
                } else if i == parent {
                    assert(prev.has(i));
                    assert(prev.wf_node(i));
                    let oc = prev.at(parent).children@;
                    let nc = f.at(parent).children@;
                    assert(nc =~= oc.push(id));
                    assert forall|k: int| 0 <= k < nc.len() implies #[trigger] f.child_ok(
                        parent,
                        k,
                    ) by {
                        if k < oc.len() {
                            assert(prev.child_ok(parent, k));
                        }
                    }
                    assert forall|a: int, b: int|
                        0 <= a < nc.len() && 0 <= b < nc.len() && a != b implies nc[a]
                        != nc[b] by {
                        if a < oc.len() && b < oc.len() {
                            assert(oc.no_duplicates());
                        } else if a < oc.len() {
                            assert(prev.child_ok(parent, a));
                        } else if b < oc.len() {
                            assert(prev.child_ok(parent, b));
                        }
                    }
                    assert(nc.no_duplicates());
                } else {
                    assert(prev.has(i));
                    assert(prev.wf_node(i));
                    assert forall|k: int|
                        0 <= k < f.at(i).children@.len() implies #[trigger] f.child_ok(
                        i,
                        k,
                    ) by {
                        assert(prev.child_ok(i, k));
                    }
                }
            }
            assert forall|i: usize| #[trigger] f.has(i) implies f.parent_linked(i) by {
                if i == id {
                    assert(f.at(parent).children@[prev.at(parent).children@.len() as int]
                        == id);
                    assert(f.at(parent).children@.contains(id));
                } else {
                    assert(prev.has(i));
                    assert(prev.parent_linked(i));
                    match prev.at(i).parent {
                        Some(p) => {
                            if p == parent {
                                let oc = prev.at(parent).children@;
                                let j = choose|j: int| 0 <= j < oc.len() && oc[j] == i;
                                assert(f.at(parent).children@[j] == i);
                                assert(f.at(parent).children@.contains(i));
                            }
                        },
                        None => {},
                    }
                }
            }
        }
        Ok(id)
    }

    /// Removes the instance at `id` and detaches it from its parent's
    /// children, keeping the other children in order. Succeeds iff `id`
    /// resolves, is not the root, and has no children; on any failure the
    /// tree is unchanged. The identity is retired: it never resolves again
    /// and is never reassigned.
    pub fn remove_instance(&mut self, id: usize) -> (r: Result<(), Error>)
        requires
            old(self).wf(),
        ensures
            final(self).wf(),
            final(self).arena_len() == old(self).arena_len(),
            r is Ok <==> (old(self).has(id) && id != old(self).spec_root_id() && old(self).at(
                id,
            ).children@.len() == 0),
            match r {
                Ok(_) => {
                    let p = old(self).at(id).parent.unwrap();
                    &&& old(self).at(id).parent is Some
                    &&& !final(self).has(id)
                    &&& final(self).at(p).children@ =~= old(self).at(
                        p,
                    ).children@.remove_value(id)
                    &&& final(self).at(p).name == old(self).at(p).name
                    &&& final(self).at(p).class_name == old(self).at(p).class_name
                    &&& final(self).at(p).properties == old(self).at(p).properties
                    &&& final(self).at(p).parent == old(self).at(p).parent
                    &&& forall|i: usize|
                        i != p && i != id ==> #[trigger] final(self).slot(i) == old(
                            self,
                        ).slot(i)
                },
                Err(e) => {
                    &&& *final(self) == *old(self)
                    &&& (!old(self).has(id) ==> e.kind == ErrorKind::DestroyedReference
                        && e.message@ == "Instance was destroyed"@)
                    &&& (old(self).has(id) ==> e.kind == ErrorKind::InvalidArgument)
                    &&& (old(self).has(id) && id == 0 ==> e.message@
                        == "The root instance cannot be removed"@)
                    &&& (old(self).has(id) && id != 0 ==> e.message@
                        == "An instance with children cannot be removed"@)
                },
            },
    {
        if id >= self.slots.len() || self.slots[id].is_none() {
            return Err(
                Error::destroyed_reference(String::from_str("Instance was destroyed")),
            );
        }
        if id == 0 {
            return Err(
                Error::invalid_argument(
                    String::from_str("The root instance cannot be removed"),
                ),
            );
        }
        let has_children = match self.slots[id].as_ref() {
            Some(node) => node.children.len() > 0,
            None => false,
        };
        if has_children {
            return Err(
                Error::invalid_argument(
                    String::from_str("An instance with children cannot be removed"),
                ),
            );
        }
        let ghost prev = *self;
        let p = match self.slots[id].as_ref() {
            Some(node) => match node.parent {
                Some(p) => p,
                None => 0,
            },
            None => 0,
        };
        proof {
            assert(prev.has(id));
            assert(prev.parent_linked(id));
            assert(prev.at(id).parent == Some(p));
        }
        // Detach `id` from its parent's ordered child list.
        let mut taken: Option<Instance> = None;
        core::mem::swap(&mut self.slots[p], &mut taken);
        let mut pnode = taken.unwrap();
        let ghost oc = pnode.children@;
        let mut k: usize = 0;
        while k < pnode.children.len() && pnode.children[k] != id
            invariant
                pnode.children@ == oc,
                k <= oc.len(),
                forall|j: int| 0 <= j < k ==> oc[j] != id,
            decreases oc.len() - k,
        {
            k += 1;
        }
        proof {
            assert(oc.contains(id));
            if k >= oc.len() {
                let j = choose|j: int| 0 <= j < oc.len() && oc[j] == id;
                assert(oc[j] != id);
            }
        }
        pnode.children.remove(k);
        let ghost nc = pnode.children@;
        proof {
            assert(prev.wf_node(p));
            // `k` is the first (and only) occurrence of `id`, so removing
            // index `k` is removing the value `id`.
            oc.index_of_first_ensures(id);
            let idx = oc.index_of_first(id).unwrap();
            assert(oc[idx] == id);
            assert(idx == k);
            assert(nc =~= oc.remove_value(id));
        }
        let ghost pnode_after = pnode;
        self.slots[p] = Some(pnode);
        self.slots[id] = None;
        proof {
            let f = *self;
            assert(f.arena() =~= prev.arena().update(p as int, Some(pnode_after)).update(
                id as int,
                None,
            ));
            oc.remove_ensures(k as int);
            // No other node lists `id` as a child, so detaching it from `p`
            // leaves every remaining child edge sound.
            assert forall|i: usize| #[trigger] f.has(i) implies f.wf_node(i) by {
                assert(prev.has(i));
                assert(prev.wf_node(i));
                if i == p {
                    assert forall|a: int, b: int|
                        0 <= a < nc.len() && 0 <= b < nc.len() && a != b implies nc[a]
                        != nc[b] by {
                        assert(oc.no_duplicates());
                        if a < k && b < k {
                        } else if a < k {
                            assert(nc[b] == oc[b + 1]);
                        } else if b < k {
                            assert(nc[a] == oc[a + 1]);
                        } else {
                            assert(nc[a] == oc[a + 1]);
                            assert(nc[b] == oc[b + 1]);
                        }
                    }
                    assert(nc.no_duplicates());
                    assert forall|j: int| 0 <= j < nc.len() implies #[trigger] f.child_ok(
                        p,
                        j,
                    ) by {
                        let jj = if j < k {
                            j
                        } else {
                            j + 1
                        };
                        assert(nc[j] == oc[jj]);
                        assert(prev.child_ok(p, jj));
                        let c = oc[jj];
                        assert(c != id) by {
                            if c == id {
                                assert(oc[jj] == oc[k as int]);
                                assert(oc.no_duplicates());
                            }
                        }
                    }
                } else {
                    assert forall|j: int|
                        0 <= j < f.at(i).children@.len() implies #[trigger] f.child_ok(
                        i,
                        j,
                    ) by {
                        assert(prev.child_ok(i, j));
                        let c = prev.at(i).children@[j];
                        // `c != id` because `id`'s parent is `p`, not `i`.
                        assert(prev.at(c).parent == Some(i));
                        assert(prev.at(id).parent == Some(p));
                    }
                }
            }
            assert forall|i: usize| #[trigger] f.has(i) implies f.parent_linked(i) by {
                assert(prev.has(i));
                assert(prev.parent_linked(i));
                match prev.at(i).parent {
                    Some(q) => {
                        if q == p {
                            // `i` is still in `p`'s trimmed child list.
                            let ocl = oc;
                            let j = choose|j: int| 0 <= j < ocl.len() && ocl[j] == i;
                            assert(j != k);
                            if j < k {
                                assert(nc[j] == i);
                            } else {
                                assert(nc[j - 1] == ocl[j]);
                            }
                            assert(nc.contains(i));
                        }
                    },
                    None => {},
                }
            }
        }
        Ok(())
    }
}

/// Law: mutations the handle's lock serializes never lose each other's
/// update. If a second insert follows a first on the same tree, the tree
/// afterwards holds both new instances, their identities are distinct, and
/// the first one's instance is exactly as the first insert left it
/// whenever the second did not deliberately extend it.
pub proof fn lemma_no_lost_update(
    t0: Tree,
    t1: Tree,
    t2: Tree,
    p1: usize,
    id1: usize,
    p2: usize,
    id2: usize,
)
    requires
        t1.inserted_under(t0, p1, id1),
        t2.inserted_under(t1, p2, id2),
    ensures
        id1 != id2,
        t2.has(id1),
        t2.has(id2),
        p2 != id1 ==> t2.slot(id1) == t1.slot(id1),
{
    assert(t1.has(id1));
    assert(t2.has(id1));
    assert(t1.slot(id1) is Some);
}

} // verus!
