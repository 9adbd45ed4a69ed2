//! A growable array on the host that is mirrored into a buffer on the device.
//!
//! The buffer remembers one contiguous range of elements that changed since
//! the last synchronisation. `sync` decides which upload brings the device up
//! to date; carrying the upload out is the caller's part.
use vstd::prelude::*;

verus! {

/// What a device buffer is bound as.
#[derive(Clone, Copy, Debug, PartialEq, Eq, Structural)]
pub enum BufferType {
    ArrayBuffer,
    ElementArrayBuffer,
}

/// The upload that brings the device buffer up to date.
#[derive(Clone, Copy, Debug, PartialEq, Eq, Structural)]
pub enum Upload {
    /// The device is up to date.
    Nothing,
    /// Write the elements `start..end` of the host array to the same
    /// elements of the device buffer.
    Range { start: usize, end: usize },
    /// Allocate the device buffer anew with room for `capacity` elements and
    /// write the whole host array to its start.
    Full { capacity: usize },
}

/// A run of bytes in the device buffer.
#[derive(Clone, Copy, Debug, PartialEq, Eq, Structural)]
pub struct ByteSpan {
    pub offset: usize,
    pub length: usize,
}

/// The device buffer after elements `start..end` of `items` were written to it.
pub open spec fn write_range<T>(mirror: Seq<T>, items: Seq<T>, start: int, end: int) -> Seq<T> {
    Seq::new(
        if mirror.len() < end {
            end as nat
        } else {
            mirror.len()
        },
        |i: int|
            if start <= i < end {
                items[i]
            } else {
                mirror[i]
            },
    )
}

impl Upload {
    /// What the device holds once this upload was carried out with `items`
    /// as the host array.
    pub open spec fn apply<T>(self, mirror: Seq<T>, items: Seq<T>) -> Seq<T> {
        match self {
            Upload::Nothing => mirror,
            Upload::Range { start, end } => write_range(mirror, items, start as int, end as int),
            Upload::Full { capacity } => items,
        }
    }

    /// The bytes that the device has to provide for this upload: for a range
    /// the bytes that are written, for a full upload the whole allocation.
    pub open spec fn span(self, element_size: int) -> (int, int) {
        match self {
            Upload::Nothing => (0, 0),
            Upload::Range { start, end } => (start * element_size, (end - start) * element_size),
            Upload::Full { capacity } => (0, capacity * element_size),
        }
    }

    /// Whether offset and length of the span are defined and its end fits
    /// the signed machine word that device interfaces take.
    pub open spec fn span_fits(self, element_size: int) -> bool {
        &&& self matches Upload::Range { start, end } ==> start <= end
        &&& self.span(element_size).0 + self.span(element_size).1 <= usize::MAX / 2
    }

    /// The span of this upload in bytes, for elements of `element_size`
    /// bytes; `None` if the span does not fit.
    pub fn byte_span(&self, element_size: usize) -> (r: Option<ByteSpan>)
        ensures
            r is Some <==> self.span_fits(element_size as int),
            r matches Some(s) ==> s.offset == self.span(element_size as int).0 && s.length
                == self.span(element_size as int).1,
    {
        let limit: usize = usize::MAX / 2;
        match *self {
            Upload::Nothing => Some(ByteSpan { offset: 0, length: 0 }),
            Upload::Range { start, end } => {
                if start > end {
                    return None;
                }
                assert(start * element_size + (end - start) * element_size == end * element_size)
                    by (nonlinear_arith);
                assert(0 <= start * element_size <= end * element_size) by (nonlinear_arith)
                    requires
                        0 <= start <= end,
                        0 <= element_size,
                ;
                match end.checked_mul(element_size) {
                    Some(last) => {
                        if last > limit {
                            None
                        } else {
                            let offset: usize = start * element_size;
                            Some(ByteSpan { offset, length: last - offset })
                        }
                    },
                    None => None,
                }
            },
            Upload::Full { capacity } => {
                match capacity.checked_mul(element_size) {
                    Some(length) => {
                        if length > limit {
                            None
                        } else {
                            Some(ByteSpan { offset: 0, length })
                        }
                    },
                    None => None,
                }
            },
        }
    }
}

/// Host array and device buffer as mathematical values.
pub struct BufferState<T> {
    /// The host array.
    pub items: Seq<T>,
    /// The elements that the device buffer holds.
    pub mirror: Seq<T>,
    /// Whether anything changed since the last synchronisation.
    pub dirty: bool,
    /// If dirty: every element that changed lies in `min..max`.
    pub min: nat,
    pub max: nat,
    /// The number of elements that the device buffer has room for.
    pub device_capacity: nat,
}

impl<T> BufferState<T> {
    /// Whether element `i` lies outside the range that is marked as changed.
    pub open spec fn clean_at(self, i: int) -> bool {
        !self.dirty || i < self.min || self.max <= i
    }

    /// The number of leading elements of the host array up to the last one
    /// that lies outside the range that is marked as changed.
    pub open spec fn clean_len(self) -> nat {
        if self.dirty && self.max >= self.items.len() {
            self.min
        } else {
            self.items.len()
        }
    }

    /// The dirty range lies within the host array, the device holds every
    /// element outside of it, and has room for what it holds. Both arrays
    /// can be addressed with a machine word.
    pub open spec fn wf(self) -> bool {
        &&& self.items.len() <= usize::MAX
        &&& self.dirty ==> self.min < self.max <= self.items.len()
        &&& self.clean_len() <= self.mirror.len() <= self.device_capacity <= usize::MAX
        &&& forall|i: int|
            #![trigger self.items[i]]
            0 <= i < self.items.len() && self.clean_at(i) ==> self.mirror[i] == self.items[i]
    }

    /// The device holds the whole host array.
    pub open spec fn in_sync(self) -> bool {
        &&& self.items.len() <= self.mirror.len()
        &&& forall|i: int|
            #![trigger self.items[i]]
            0 <= i < self.items.len() ==> self.mirror[i] == self.items[i]
    }

    /// The state after `item` was appended.
    pub open spec fn append(self, item: T) -> Self {
        let at = self.items.len();
        BufferState {
            items: self.items.push(item),
            dirty: true,
            min: if self.dirty && self.min < at {
                self.min
            } else {
                at
            },
            max: if self.dirty && self.max > at + 1 {
                self.max
            } else {
                at + 1
            },
            ..self
        }
    }

    /// The state after `added` was appended, element by element.
    pub open spec fn append_all(self, added: Seq<T>) -> Self
        decreases added.len(),
    {
        if added.len() == 0 {
            self
        } else {
            self.append(added[0]).append_all(added.drop_first())
        }
    }

    /// The room that the device needs, given how many elements the host
    /// array has allocated room for.
    pub open spec fn needed(self, host_capacity: nat) -> nat {
        if host_capacity < self.items.len() {
            self.items.len()
        } else {
            host_capacity
        }
    }

    /// The upload that a synchronisation asks for.
    pub open spec fn upload(self, host_capacity: nat) -> Upload {
        if !self.dirty {
            Upload::Nothing
        } else if self.device_capacity < self.needed(host_capacity) {
            Upload::Full { capacity: self.needed(host_capacity) as usize }
        } else {
            Upload::Range { start: self.min as usize, end: self.max as usize }
        }
    }

    /// The state after a synchronisation whose upload was carried out.
    pub open spec fn synced(self, host_capacity: nat) -> Self {
        if !self.dirty {
            self
        } else {
            BufferState {
                mirror: self.upload(host_capacity).apply(self.mirror, self.items),
                dirty: false,
                device_capacity: if self.device_capacity < self.needed(host_capacity) {
                    self.needed(host_capacity)
                } else {
                    self.device_capacity
                },
                ..self
            }
        }
    }

    /// Appending keeps the state well-formed, leaves the device untouched
    /// and marks the new element as changed.
    pub proof fn lemma_append(self, item: T)
        requires
            self.wf(),
            self.items.len() < usize::MAX,
        ensures
            self.append(item).wf(),
            self.append(item).mirror == self.mirror,
            self.append(item).dirty,
            !self.append(item).clean_at(self.items.len() as int),
            self.dirty ==> self.append(item).min == self.min,
            !self.dirty ==> self.append(item).min == self.items.len(),
            self.append(item).max == self.items.len() + 1,
    {
        let after = self.append(item);
        assert forall|i: int|
            #![trigger after.items[i]]
            0 <= i < after.items.len() && after.clean_at(i) implies after.mirror[i]
            == after.items[i] by {
            assert(self.clean_at(i));
            assert(self.items[i] == after.items[i]);
        }
    }

    /// After any run of appends the dirty range covers every index that was
    /// touched: it starts at or before the first appended element and ends
    /// behind the last one. A range that was dirty before is still covered.
    pub proof fn lemma_appends_covered(self, added: Seq<T>)
        requires
            self.wf(),
            added.len() > 0,
            self.items.len() + added.len() <= usize::MAX,
        ensures
            self.append_all(added).wf(),
            self.append_all(added).items == self.items + added,
            self.append_all(added).mirror == self.mirror,
            self.append_all(added).dirty,
            self.append_all(added).min <= self.items.len(),
            self.append_all(added).max == self.items.len() + added.len(),
            self.dirty ==> self.append_all(added).min == self.min && self.append_all(added).max
                >= self.max,
            forall|i: int|
                self.items.len() <= i < self.items.len() + added.len()
                    ==> !#[trigger] self.append_all(added).clean_at(i),
        decreases added.len(),
    {
        let next = self.append(added[0]);
        self.lemma_append(added[0]);
        if added.len() == 1 {
            assert(added.drop_first().len() == 0);
            assert(next.append_all(added.drop_first()) == next);
            assert(self.items + added =~= next.items);
        } else {
            next.lemma_appends_covered(added.drop_first());
            assert(next.items + added.drop_first() =~= self.items + added);
        }
    }

    /// A synchronisation leaves the host array as it is, clears the dirty
    /// flag, and after its upload the device holds the whole host array.
    pub proof fn lemma_sync_mirrors(self, host_capacity: nat)
        requires
            self.wf(),
            host_capacity <= usize::MAX,
        ensures
            self.synced(host_capacity).wf(),
            self.synced(host_capacity).items == self.items,
            !self.synced(host_capacity).dirty,
            self.synced(host_capacity).in_sync(),
            self.synced(host_capacity).items.len() <= self.synced(host_capacity).device_capacity,
    {
        let after = self.synced(host_capacity);
        if self.dirty {
            assert forall|i: int|
                #![trigger self.items[i]]
                0 <= i < self.items.len() implies after.mirror[i] == self.items[i] by {
                if self.device_capacity >= self.needed(host_capacity) && self.clean_at(i) {
                    assert(self.mirror[i] == self.items[i]);
                }
            }
        }
    }
}

/// The number of elements that a new device buffer has room for.
pub const DEFAULT_CAPACITY: usize = 16;

/// A host array of `T` and what is known of the device buffer that mirrors
/// it.
pub struct Buffer<T> {
    id: u32,
    dirty: bool,
    buffer_min: usize,
    buffer_max: usize,
    buffer_capacity: usize,
    buffer_type: BufferType,
    items: Vec<T>,
    mirror: Ghost<Seq<T>>,
}

/// `Vec::capacity`: the number of elements that the vector has allocated
/// room for. The standard library promises that it is never less than the
/// vector's length; how much more it is depends on the allocator.
#[verifier::external_body]
fn allocated_capacity<T>(items: &Vec<T>) -> (capacity: usize)
    ensures
        capacity >= items@.len(),
{
    items.capacity()
}

impl<T> View for Buffer<T> {
    type V = BufferState<T>;

    closed spec fn view(&self) -> BufferState<T> {
        BufferState {
            items: self.items@,
            mirror: self.mirror@,
            dirty: self.dirty,
            min: self.buffer_min as nat,
            max: self.buffer_max as nat,
            device_capacity: self.buffer_capacity as nat,
        }
    }
}

impl<T> Buffer<T> {
    /// The name of the device buffer.
    pub closed spec fn spec_id(&self) -> u32 {
        self.id
    }

    /// What the device buffer is bound as.
    pub closed spec fn spec_buffer_type(&self) -> BufferType {
        self.buffer_type
    }

    /// The state of the buffer is well-formed.
    pub open spec fn wf(&self) -> bool {
        self@.wf()
    }

    /// An empty buffer for the device buffer `id`, which was allocated with
    /// room for `DEFAULT_CAPACITY` elements.
    pub fn new(id: u32, buffer_type: BufferType) -> (buffer: Buffer<T>)
        ensures
            buffer.wf(),
            buffer.spec_id() == id,
            buffer.spec_buffer_type() == buffer_type,
            buffer@ == (BufferState {
                items: Seq::<T>::empty(),
                mirror: Seq::<T>::empty(),
                dirty: false,
                min: 0,
                max: 0,
                device_capacity: DEFAULT_CAPACITY as nat,
            }),
    {
        Buffer {
            id,
            dirty: false,
            buffer_min: 0,
            buffer_max: 0,
            buffer_capacity: DEFAULT_CAPACITY,
            buffer_type,
            items: Vec::with_capacity(DEFAULT_CAPACITY),
            mirror: Ghost(Seq::empty()),
        }
    }

    #[verifier::when_used_as_spec(spec_id)]
    pub fn id(&self) -> (id: u32)
        ensures
            id == self.spec_id(),
    {
        self.id
    }

    #[verifier::when_used_as_spec(spec_buffer_type)]
    pub fn buffer_type(&self) -> (buffer_type: BufferType)
        ensures
            buffer_type == self.spec_buffer_type(),
    {
        self.buffer_type
    }

    /// The size of one element in bytes.
    pub fn element_size() -> (size: usize)
        ensures
            size == vstd::layout::size_of::<T>(),
    {
        core::mem::size_of::<T>()
    }

    /// The host array.
    pub fn items(&self) -> (items: &Vec<T>)
        ensures
            items@ == self@.items,
    {
        &self.items
    }

    pub fn is_dirty(&self) -> (dirty: bool)
        ensures
            dirty == self@.dirty,
    {
        self.dirty
    }

    /// The range of elements that is marked as changed, if any is.
    pub fn dirty_range(&self) -> (range: Option<(usize, usize)>)
        ensures
            range == if self@.dirty {
                Some((self@.min as usize, self@.max as usize))
            } else {
                None
            },
    {
        if self.dirty {
            Some((self.buffer_min, self.buffer_max))
        } else {
            None
        }
    }

    /// The number of elements that the device buffer has room for.
    pub fn device_capacity(&self) -> (capacity: usize)
        ensures
            capacity == self@.device_capacity,
    {
        self.buffer_capacity
    }

    /// Appends `item` to the host array and widens the dirty range to hold
    /// its index. The range of a buffer that was clean is that index alone.
    pub fn add(&mut self, item: T)
        requires
            old(self).wf(),
        ensures
            final(self).wf(),
            final(self)@ == old(self)@.append(item),
            final(self).spec_id() == old(self).spec_id(),
            final(self).spec_buffer_type() == old(self).spec_buffer_type(),
    {
        let start = self.items.len();
        self.items.push(item);
        let end = self.items.len();
        proof {
            old(self)@.lemma_append(item);
        }
        if self.dirty {
            if start < self.buffer_min {
                self.buffer_min = start;
            }
            if self.buffer_max < end {
                self.buffer_max = end;
            }
        } else {
            self.dirty = true;
            self.buffer_min = start;
            self.buffer_max = end;
        }
    }

    /// The number of elements in the host array.
    pub fn len(&self) -> (len: usize)
        ensures
            len == self@.items.len(),
    {
        self.items.len()
    }

    /// Decides the upload that brings the device up to date, for a host
    /// array that has allocated room for `host_capacity` elements, and
    /// records it as done.
    ///
    /// A clean buffer needs nothing. A dirty one needs its dirty range, unless
    /// the device buffer has less room than the host array: then it is
    /// allocated anew and takes the whole array.
    pub fn sync_with_capacity(&mut self, host_capacity: usize) -> (upload: Upload)
        requires
            old(self).wf(),
        ensures
            final(self).wf(),
            upload == old(self)@.upload(host_capacity as nat),
            final(self)@ == old(self)@.synced(host_capacity as nat),
            final(self)@.mirror == upload.apply(old(self)@.mirror, old(self)@.items),
            !final(self)@.dirty,
            final(self)@.in_sync(),
            final(self).spec_id() == old(self).spec_id(),
            final(self).spec_buffer_type() == old(self).spec_buffer_type(),
            !old(self)@.dirty ==> *final(self) == *old(self),
    {
        proof {
            self@.lemma_sync_mirrors(host_capacity as nat);
        }
        if !self.dirty {
            return Upload::Nothing;
        }
        self.dirty = false;
        let len = self.items.len();
        let needed = if host_capacity < len {
            len
        } else {
            host_capacity
        };
        let upload = if self.buffer_capacity < needed {
            self.buffer_capacity = needed;
            Upload::Full { capacity: needed }
        } else {
            Upload::Range { start: self.buffer_min, end: self.buffer_max }
        };
        self.mirror = Ghost(upload.apply(self.mirror@, self.items@));
        upload
    }

    /// Decides the upload that brings the device up to date and records it
    /// as done.
    ///
    /// Which upload it is depends on how much room the allocator gave the
    /// host array: the result is that of `sync_with_capacity` for some
    /// capacity that is at least the length of the array.
    pub fn sync(&mut self) -> (upload: Upload)
        requires
            old(self).wf(),
        ensures
            final(self).wf(),
            exists|host_capacity: nat|
                host_capacity >= old(self)@.items.len() && upload == #[trigger] old(self)@.upload(
                    host_capacity,
                ) && final(self)@ == old(self)@.synced(host_capacity),
            final(self)@.items == old(self)@.items,
            final(self)@.mirror == upload.apply(old(self)@.mirror, old(self)@.items),
            !final(self)@.dirty,
            final(self)@.in_sync(),
            upload is Nothing <==> !old(self)@.dirty,
            upload matches Upload::Range { start, end } ==> start == old(self)@.min && end == old(
                self,
            )@.max,
            upload matches Upload::Full { capacity } ==> capacity > old(self)@.device_capacity
                && capacity >= old(self)@.items.len(),
            final(self).spec_id() == old(self).spec_id(),
            final(self).spec_buffer_type() == old(self).spec_buffer_type(),
    {
        let host_capacity = allocated_capacity(&self.items);
        self.sync_with_capacity(host_capacity)
    }
}

} // verus!
