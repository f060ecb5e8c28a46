use vstd::prelude::*;
use vstd::rwlock::{RwLock, RwLockPredicate};

use std::sync::Arc;

use rbx_dom_weak::types::Variant;

use crate::error::Error;
use crate::tree::Tree;

verus! {

/// The invariant every shared tree obeys: only well-formed trees are ever
/// stored behind a handle's lock, so every operation that acquires the
/// lock reads a well-formed tree and must leave one behind.
pub struct TreeWf;

impl RwLockPredicate<Tree> for TreeWf {
    open spec fn inv(self, t: Tree) -> bool {
        t.wf()
    }
}

/// Shared ownership of one tree behind one mutual-exclusion lock.
///
/// Cloning a handle shares the same tree and the same lock rather than
/// copying data; the tree lives as long as its longest-lived handle.
/// Every read or mutation of the tree happens while holding the lock,
/// scoped to one operation, so two operations on the same tree serialize
/// rather than interleave: each sees, and leaves, a complete well-formed
/// snapshot, and a serialization walk never observes a half-applied
/// mutation.
#[derive(Clone)]
pub struct TreeHandle {
    pub(crate) lock: Arc<RwLock<Tree, TreeWf>>,
}

impl TreeHandle {
    /// Wraps a tree for sharing. Trees enter a handle only well-formed.
    pub fn new(tree: Tree) -> TreeHandle
        requires
            tree.wf(),
    {
        TreeHandle { lock: Arc::new(RwLock::new(tree, Ghost(TreeWf))) }
    }

    /// The root identity of the shared tree.
    pub fn get_root_id(&self) -> (r: usize)
        ensures
            r == 0,
    {
        let rh = self.lock.acquire_read();
        let r = rh.borrow().get_root_id();
        rh.release_read();
        r
    }

    /// Whether `id` resolves right now. Another operation may remove the
    /// instance afterwards; a later use must resolve again.
    pub fn is_valid(&self, id: usize) -> bool {
        let rh = self.lock.acquire_read();
        let r = rh.borrow().get_instance(id).is_some();
        rh.release_read();
        r
    }

    /// The ordered child identities of `id`, or `None` if it no longer
    /// resolves.
    pub fn get_children_ids(&self, id: usize) -> Option<Vec<usize>> {
        let rh = self.lock.acquire_read();
        let r = rh.borrow().get_children_ids(id);
        rh.release_read();
        r
    }

    /// The name of the instance at `id`, or `None` if it no longer
    /// resolves.
    pub fn instance_name(&self, id: usize) -> Option<String> {
        let rh = self.lock.acquire_read();
        let r = match rh.borrow().get_instance(id) {
            Some(inst) => Some(inst.name.clone()),
            None => None,
        };
        rh.release_read();
        r
    }

    /// The class name of the instance at `id`, or `None` if it no longer
    /// resolves.
    pub fn instance_class_name(&self, id: usize) -> Option<String> {
        let rh = self.lock.acquire_read();
        let r = match rh.borrow().get_instance(id) {
            Some(inst) => Some(inst.class_name.clone()),
            None => None,
        };
        rh.release_read();
        r
    }

    /// A copy of the property payload of the instance at `id`, or `None`
    /// if it no longer resolves.
    pub fn instance_properties(&self, id: usize) -> Option<Vec<(String, Variant)>> {
        let rh = self.lock.acquire_read();
        let r = match rh.borrow().get_instance(id) {
            Some(inst) => Some(crate::codec::props_clone(&inst.properties)),
            None => None,
        };
        rh.release_read();
        r
    }

    /// Adds an instance under `parent` while holding the lock for the
    /// whole operation; see [`Tree::insert_instance`] for the contract the
    /// mutation obeys on the locked tree.
    pub fn insert_instance(
        &self,
        parent: usize,
        name: String,
        class_name: String,
        properties: Vec<(String, Variant)>,
    ) -> Result<usize, Error> {
        let (mut tree, wh) = self.lock.acquire_write();
        let r = tree.insert_instance(parent, name, class_name, properties);
        wh.release_write(tree);
        r
    }

    /// Removes the instance at `id` while holding the lock for the whole
    /// operation; see [`Tree::remove_instance`] for the contract the
    /// mutation obeys on the locked tree.
    pub fn remove_instance(&self, id: usize) -> Result<(), Error> {
        let (mut tree, wh) = self.lock.acquire_write();
        let r = tree.remove_instance(id);
        wh.release_write(tree);
        r
    }
}

/// A scripting-visible reference to one instance: a shared tree and one
/// identity within it. It never caches the instance itself; every use
/// resolves the identity under the lock at that moment, so removal of the
/// instance is a detectable failure, never undefined behavior.
#[derive(Clone)]
pub struct InstanceRef {
    pub tree: TreeHandle,
    pub id: usize,
}

impl InstanceRef {
    pub fn new(tree: TreeHandle, id: usize) -> (r: InstanceRef)
        ensures
            r.id == id,
            r.tree == tree,
    {
        InstanceRef { tree, id }
    }
}

} // verus!
