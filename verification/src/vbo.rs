//! Vertex-buffer bookkeeping.
//!
//! A buffer object lives on the graphics device under an integer handle.
//! The growable buffer keeps the vertices on the cpu side as well and plans
//! uploads: device storage is reallocated only when the cpu-side capacity
//! has outgrown it, so repeated frames of similar size reuse the same
//! allocation.  The static buffer records a one-time upload that is drawn
//! later without being touched again.

use vstd::prelude::*;

verus! {

/// Handle and current vertex count of a buffer on the graphics device:
/// what a draw call needs to know about its vertex source.
#[derive(Copy, Clone, Debug)]
pub(crate) struct BufferInfo {
    pub id: u32,
    pub length: usize,
}

/// What must happen on the graphics device to bring it up to date with the
/// cpu side: if `realloc` is set, device storage for that many vertices is
/// allocated first (replacing the old allocation); then `upload_len`
/// vertices are copied from the start of the cpu-side buffer.
#[derive(Copy, Clone, Debug)]
pub struct UploadPlan {
    pub realloc: Option<usize>,
    pub upload_len: usize,
}

/// Relies on Vec::capacity: the allocated capacity is never below the
/// length.
#[verifier::external_body]
fn vec_capacity<V>(v: &Vec<V>) -> (c: usize)
    ensures
        c >= v@.len(),
{
    v.capacity()
}

/// A vertex buffer whose device allocation grows with the cpu-side vertex
/// list.  The vertices accumulate on the cpu side; `update` hands back the
/// upload plan that brings the device copy up to date.
#[derive(Clone, Debug)]
pub struct GrowableBuffer<V> {
    vbo: u32,
    buffer: Vec<V>,
    vbo_size: Option<usize>,
}

impl<V> GrowableBuffer<V> {
    /// The device handle backing this buffer.
    pub closed spec fn spec_id(&self) -> u32 {
        self.vbo
    }

    /// The vertices currently held on the cpu side.
    pub closed spec fn verts(&self) -> Seq<V> {
        self.buffer@
    }

    /// How many vertices the device allocation can hold, or `None` before
    /// the first upload.
    pub closed spec fn gpu_size(&self) -> Option<usize> {
        self.vbo_size
    }

    /// Wraps a freshly generated device handle.  Nothing has been uploaded
    /// yet, so the first `update` must allocate.
    pub fn new(vbo: u32) -> (b: GrowableBuffer<V>)
        ensures
            b.spec_id() == vbo,
            b.verts() == Seq::<V>::empty(),
            b.gpu_size() is None,
    {
        GrowableBuffer { vbo, buffer: Vec::new(), vbo_size: None }
    }

    pub fn get_id(&self) -> (id: u32)
        ensures
            id == self.spec_id(),
    {
        self.vbo
    }

    pub fn get_verts(&self) -> (verts: &[V])
        ensures
            verts@ == self.verts(),
    {
        self.buffer.as_slice()
    }

    pub fn push(&mut self, a: V)
        ensures
            final(self).verts() == old(self).verts().push(a),
            final(self).spec_id() == old(self).spec_id(),
            final(self).gpu_size() == old(self).gpu_size(),
    {
        self.buffer.push(a);
    }

    pub fn len(&self) -> (l: usize)
        ensures
            l == self.verts().len(),
    {
        self.buffer.len()
    }

    /// The cpu-side capacity; the next `update` grows the device
    /// allocation to this.
    pub fn capacity(&self) -> (c: usize)
        ensures
            c >= self.verts().len(),
    {
        vec_capacity(&self.buffer)
    }

    pub fn clear(&mut self)
        ensures
            final(self).verts() == Seq::<V>::empty(),
            final(self).spec_id() == old(self).spec_id(),
            final(self).gpu_size() == old(self).gpu_size(),
    {
        self.buffer.clear();
    }

    pub fn get_num_verticies(&self) -> (l: usize)
        ensures
            l == self.verts().len(),
    {
        self.buffer.len()
    }

    pub(crate) fn get_info(&self) -> (info: BufferInfo)
        ensures
            info.id == self.spec_id(),
            info.length == self.verts().len(),
    {
        BufferInfo { id: self.vbo, length: self.buffer.len() }
    }

    /// Plans the upload that brings the device copy up to date: the device
    /// allocation is replaced by a larger one exactly when the cpu side has
    /// outgrown it (or nothing was ever allocated), and all current
    /// vertices are copied.  After the call the device allocation always
    /// holds every vertex.
    pub fn update(&mut self) -> (plan: UploadPlan)
        ensures
            final(self).verts() == old(self).verts(),
            final(self).spec_id() == old(self).spec_id(),
            plan.upload_len == old(self).verts().len(),
            final(self).gpu_size() matches Some(c) && c >= final(self).verts().len(),
            match plan.realloc {
                Some(n) => {
                    &&& final(self).gpu_size() == Some(n)
                    &&& n >= old(self).verts().len()
                    &&& (old(self).gpu_size() matches Some(l) ==> n > l)
                },
                None => {
                    &&& old(self).gpu_size() is Some
                    &&& final(self).gpu_size() == old(self).gpu_size()
                },
            },
    {
        let cap = vec_capacity(&self.buffer);
        let upload_len = self.buffer.len();
        match self.vbo_size {
            Some(l) => {
                if l < cap {
                    self.vbo_size = Some(cap);
                    UploadPlan { realloc: Some(cap), upload_len }
                } else {
                    UploadPlan { realloc: None, upload_len }
                }
            },
            None => {
                self.vbo_size = Some(cap);
                UploadPlan { realloc: Some(cap), upload_len }
            },
        }
    }
}

impl<V: Copy> GrowableBuffer<V> {
    /// Replaces the cpu-side vertices by `verts` and plans the upload, as
    /// one step: what a drawing session calls when its batch is complete.
    pub fn send_to_gpu(&mut self, verts: &[V]) -> (plan: UploadPlan)
        ensures
            final(self).verts() == verts@,
            final(self).spec_id() == old(self).spec_id(),
            plan.upload_len == verts@.len(),
            final(self).gpu_size() matches Some(c) && c >= verts@.len(),
            plan.realloc is None ==> final(self).gpu_size() == old(self).gpu_size(),
    {
        self.buffer.clear();
        let ghost id = self.vbo;
        let ghost size = self.vbo_size;
        let n = verts.len();
        let mut i: usize = 0;
        while i < n
            invariant
                i <= n,
                n == verts@.len(),
                self.buffer@ == verts@.subrange(0, i as int),
                self.vbo == id,
                self.vbo_size == size,
            decreases n - i,
        {
            self.buffer.push(verts[i]);
            assert(self.buffer@ == verts@.subrange(0, i + 1 as int));
            i = i + 1;
        }
        assert(self.buffer@ == verts@);
        self.update()
    }
}

/// A vertex buffer on the graphics device whose contents were uploaded
/// once, when it was made, and are only drawn afterwards.  Only the handle
/// and the vertex count are kept.
#[derive(Debug)]
pub struct StaticBuffer<V> {
    info: BufferInfo,
    _p: core::marker::PhantomData<V>,
}

impl<V> StaticBuffer<V> {
    /// The device handle backing this buffer.
    pub closed spec fn spec_id(&self) -> u32 {
        self.info.id
    }

    /// How many vertices were uploaded.
    pub closed spec fn spec_len(&self) -> usize {
        self.info.length
    }

    /// Records a one-time upload of `data` under the freshly generated
    /// device handle `vbo`.
    pub fn new(vbo: u32, data: &[V]) -> (b: StaticBuffer<V>)
        ensures
            b.spec_id() == vbo,
            b.spec_len() == data@.len(),
    {
        StaticBuffer {
            info: BufferInfo { id: vbo, length: data.len() },
            _p: core::marker::PhantomData,
        }
    }

    pub fn len(&self) -> (l: usize)
        ensures
            l == self.spec_len(),
    {
        self.info.length
    }

    pub fn get_id(&self) -> (id: u32)
        ensures
            id == self.spec_id(),
    {
        self.info.id
    }

    pub(crate) fn get_info(&self) -> (info: BufferInfo)
        ensures
            info.id == self.spec_id(),
            info.length == self.spec_len(),
    {
        self.info
    }
}

} // verus!
