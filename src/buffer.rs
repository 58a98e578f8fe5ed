use vstd::prelude::*;
use vstd::rwlock::{ReadHandle, RwLock, RwLockPredicate, WriteHandle};
use crate::format::{frame_bytes, PixelFormat};
use crate::roles::RoleTable;

verus! {

/// What every slot lock of a buffer holds: a frame of exactly `len` bytes.
pub struct SlotLen {
    pub len: nat,
}

impl RwLockPredicate<Vec<u8>> for SlotLen {
    open spec fn inv(self, v: Vec<u8>) -> bool {
        v@.len() == self.len
    }
}

/// What the role lock of a triple buffer holds: a permutation of its three slots.
pub struct ValidRoles;

impl RwLockPredicate<RoleTable> for ValidRoles {
    open spec fn inv(self, t: RoleTable) -> bool {
        t.is_permutation()
    }
}

/// Three frame slots shared by one producer and one consumer, whose roles rotate
/// without copying bytes.
pub struct TripleBuffer {
    slots: Vec<RwLock<Vec<u8>, SlotLen>>,
    roles: RwLock<RoleTable, ValidRoles>,
    width: u32,
    height: u32,
    format: PixelFormat,
}

/// Exclusive access to the slot that was playing "render" when it was taken.
pub struct SlotWriter<'a> {
    bytes: Vec<u8>,
    slot: usize,
    table: Ghost<RoleTable>,
    handle: WriteHandle<'a, Vec<u8>, SlotLen>,
}

/// Shared access to the slot that was playing "present" when it was taken.
pub struct SlotReader<'a> {
    slot: usize,
    table: Ghost<RoleTable>,
    handle: ReadHandle<'a, Vec<u8>, SlotLen>,
}

impl TripleBuffer {
    #[verifier::type_invariant]
    spec fn well_formed(self) -> bool {
        &&& self.slots@.len() == 3
        &&& forall|i: int| 0 <= i < 3 ==> (#[trigger] self.slots@[i]).pred() == (SlotLen {
            len: self.frame_len(),
        })
        &&& self.roles.pred() == ValidRoles
    }

    /// Width in pixels of every slot.
    pub closed spec fn spec_width(&self) -> u32 {
        self.width
    }

    /// Height in pixels of every slot.
    pub closed spec fn spec_height(&self) -> u32 {
        self.height
    }

    /// Layout of the bytes in every slot.
    pub closed spec fn spec_format(&self) -> PixelFormat {
        self.format
    }

    /// Number of bytes in every slot.
    pub open spec fn frame_len(&self) -> nat {
        frame_bytes(self.spec_width() as int, self.spec_height() as int) as nat
    }

    /// Allocates three zeroed slots for frames of `width` by `height` pixels in `format`.
    pub fn new(width: u32, height: u32, format: PixelFormat) -> (r: TripleBuffer)
        requires
            width > 0,
            height > 0,
            frame_bytes(width as int, height as int) <= usize::MAX,
        ensures
            r.spec_width() == width,
            r.spec_height() == height,
            r.spec_format() == format,
    {
        proof {
            assert(4 * width <= 4 * (width * height)) by (nonlinear_arith)
                requires
                    height > 0,
            ;
        }
        let size = format.buffer_size(width, height);
        let pred = Ghost(SlotLen { len: size as nat });
        let mut slots: Vec<RwLock<Vec<u8>, SlotLen>> = Vec::new();
        slots.push(RwLock::new(vec![0u8; size], pred));
        slots.push(RwLock::new(vec![0u8; size], pred));
        slots.push(RwLock::new(vec![0u8; size], pred));
        let roles = RwLock::new(RoleTable::initial(), Ghost(ValidRoles));
        TripleBuffer { slots, roles, width, height, format }
    }

    /// Width in pixels of every slot.
    pub fn width(&self) -> (r: u32)
        ensures
            r == self.spec_width(),
    {
        self.width
    }

    /// Height in pixels of every slot.
    pub fn height(&self) -> (r: u32)
        ensures
            r == self.spec_height(),
    {
        self.height
    }

    /// Layout of the bytes in every slot.
    pub fn format(&self) -> (r: PixelFormat)
        ensures
            r == self.spec_format(),
    {
        self.format
    }

    /// A copy of the role table as it stands now.
    pub fn roles(&self) -> (r: RoleTable)
        ensures
            r.is_permutation(),
    {
        let h = self.roles.acquire_read();
        let t = *h.borrow();
        h.release_read();
        t
    }

    /// Exclusive access to the slot now playing "render", for the producer to fill.
    pub fn render_buffer(&self) -> (w: SlotWriter<'_>)
        ensures
            w.wf(),
            w@.len() == self.frame_len(),
            w.table().is_permutation(),
            w.slot() == w.table().render,
    {
        proof {
            use_type_invariant(self);
        }
        let t = self.roles();
        let idx = t.render;
        let (bytes, handle) = self.slots[idx].acquire_write();
        SlotWriter { bytes, slot: idx, table: Ghost(t), handle }
    }

    /// Shared access to the slot now playing "present", for the consumer to read.
    pub fn present_buffer(&self) -> (rd: SlotReader<'_>)
        ensures
            rd@.len() == self.frame_len(),
            rd.table().is_permutation(),
            rd.slot() == rd.table().present,
    {
        proof {
            use_type_invariant(self);
        }
        let t = self.roles();
        let idx = t.present;
        let handle = self.slots[idx].acquire_read();
        SlotReader { slot: idx, table: Ghost(t), handle }
    }

    /// Publishes the filled render slot as "ready" and recycles the previous "ready"
    /// slot as the next render target, as one step on the whole role table.
    /// Returns the table before and after the step.
    pub fn commit_render(&self) -> (r: (RoleTable, RoleTable))
        ensures
            r.0.is_permutation(),
            r.1 == r.0.rendered(),
    {
        proof {
            use_type_invariant(self);
        }
        let (t, handle) = self.roles.acquire_write();
        let next = t.commit_render();
        handle.release_write(next);
        (t, next)
    }

    /// Promotes the newest completed frame to "present" and returns the previous
    /// present slot to the pool, as one step on the whole role table.
    /// Returns the table before and after the step.
    pub fn commit_present(&self) -> (r: (RoleTable, RoleTable))
        ensures
            r.0.is_permutation(),
            r.1 == r.0.presented(),
    {
        proof {
            use_type_invariant(self);
        }
        let (t, handle) = self.roles.acquire_write();
        let next = t.commit_present();
        handle.release_write(next);
        (t, next)
    }
}

/// Two frame slots: the producer writes "back", the consumer reads "front", and a
/// swap exchanges which slot each name denotes without copying bytes.
pub struct DoubleBuffer {
    front: Vec<u8>,
    back: Vec<u8>,
    width: u32,
    height: u32,
    format: PixelFormat,
}

impl DoubleBuffer {
    /// The slot the consumer reads.
    pub closed spec fn spec_front(&self) -> Vec<u8> {
        self.front
    }

    /// The slot the producer writes.
    pub closed spec fn spec_back(&self) -> Vec<u8> {
        self.back
    }

    /// Width in pixels of both slots.
    pub closed spec fn spec_width(&self) -> u32 {
        self.width
    }

    /// Height in pixels of both slots.
    pub closed spec fn spec_height(&self) -> u32 {
        self.height
    }

    /// Layout of the bytes in both slots.
    pub closed spec fn spec_format(&self) -> PixelFormat {
        self.format
    }

    /// Allocates two zeroed slots for frames of `width` by `height` pixels in `format`.
    pub fn new(width: u32, height: u32, format: PixelFormat) -> (r: DoubleBuffer)
        requires
            width > 0,
            height > 0,
            frame_bytes(width as int, height as int) <= usize::MAX,
        ensures
            r.spec_width() == width,
            r.spec_height() == height,
            r.spec_format() == format,
            r.spec_front()@ == Seq::new(frame_bytes(width as int, height as int) as nat, |i: int| 0u8),
            r.spec_back()@ == Seq::new(frame_bytes(width as int, height as int) as nat, |i: int| 0u8),
    {
        proof {
            assert(4 * width <= 4 * (width * height)) by (nonlinear_arith)
                requires
                    height > 0,
            ;
        }
        let size = format.buffer_size(width, height);
        let front = vec![0u8; size];
        let back = vec![0u8; size];
        proof {
            assert(front@ =~= Seq::new(size as nat, |i: int| 0u8));
            assert(back@ =~= Seq::new(size as nat, |i: int| 0u8));
        }
        DoubleBuffer { front, back, width, height, format }
    }

    /// Width in pixels of both slots.
    pub fn width(&self) -> (r: u32)
        ensures
            r == self.spec_width(),
    {
        self.width
    }

    /// Height in pixels of both slots.
    pub fn height(&self) -> (r: u32)
        ensures
            r == self.spec_height(),
    {
        self.height
    }

    /// Layout of the bytes in both slots.
    pub fn format(&self) -> (r: PixelFormat)
        ensures
            r == self.spec_format(),
    {
        self.format
    }

    /// The consumer's slot.
    pub fn front(&self) -> (r: &[u8])
        ensures
            r@ == self.spec_front()@,
    {
        self.front.as_slice()
    }

    /// The producer's slot, to write; the front slot is left alone.
    pub fn back_mut(&mut self) -> (r: &mut [u8])
        ensures
            r@ == old(self).spec_back()@,
            final(self).spec_back()@ == final(r)@,
            final(self).spec_front() == old(self).spec_front(),
            final(self).spec_width() == old(self).spec_width(),
            final(self).spec_height() == old(self).spec_height(),
            final(self).spec_format() == old(self).spec_format(),
    {
        self.back.as_mut_slice()
    }

    /// Exchanges the two slots: the old back becomes the front and the old front the back.
    pub fn swap(&mut self)
        ensures
            final(self).spec_front() == old(self).spec_back(),
            final(self).spec_back() == old(self).spec_front(),
            final(self).spec_width() == old(self).spec_width(),
            final(self).spec_height() == old(self).spec_height(),
            final(self).spec_format() == old(self).spec_format(),
    {
        std::mem::swap(&mut self.front, &mut self.back);
    }
}

impl<'a> SlotWriter<'a> {
    /// The slot still holds a whole frame, so it may go back to its lock.
    pub closed spec fn wf(&self) -> bool {
        self.handle.rwlock().inv(self.bytes)
    }

    /// The bytes of the slot as the producer has left them so far.
    pub closed spec fn view(&self) -> Seq<u8> {
        self.bytes@
    }

    /// Physical index of the slot.
    pub closed spec fn slot(&self) -> usize {
        self.slot
    }

    /// The role table as it stood when the slot was taken.
    pub closed spec fn table(&self) -> RoleTable {
        self.table@
    }

    /// Physical index of the slot.
    pub fn index(&self) -> (r: usize)
        ensures
            r == self.slot(),
    {
        self.slot
    }

    /// Number of bytes in the slot.
    pub fn len(&self) -> (r: usize)
        ensures
            r == self@.len(),
    {
        self.bytes.len()
    }

    /// The byte at `i`.
    pub fn get(&self, i: usize) -> (r: u8)
        requires
            i < self@.len(),
        ensures
            r == self@[i as int],
    {
        self.bytes[i]
    }

    /// Sets the byte at `i` to `v`.
    pub fn set(&mut self, i: usize, v: u8)
        requires
            old(self).wf(),
            i < old(self)@.len(),
        ensures
            final(self).wf(),
            final(self)@ == old(self)@.update(i as int, v),
            final(self).slot() == old(self).slot(),
            final(self).table() == old(self).table(),
    {
        self.bytes.set(i, v);
    }

    /// Lets `renderer` fill the whole slot with one frame of `width` by `height` pixels.
    pub fn fill<R: crate::traits::Renderer>(&mut self, renderer: &mut R, width: u32, height: u32)
        requires
            old(self).wf(),
        ensures
            final(self).wf(),
            final(self)@.len() == old(self)@.len(),
            final(self).slot() == old(self).slot(),
            final(self).table() == old(self).table(),
    {
        renderer.render(self.bytes.as_mut_slice(), width, height);
    }

    /// Ends the producer's access; the slot keeps the bytes written.
    pub fn release(self)
        requires
            self.wf(),
    {
        let SlotWriter { bytes, slot: _, table: _, handle } = self;
        handle.release_write(bytes);
    }
}

impl<'a> SlotReader<'a> {
    #[verifier::type_invariant]
    spec fn holds_whole_frame(self) -> bool {
        self.handle.rwlock().inv(self.handle.view())
    }

    /// The bytes of the slot.
    pub closed spec fn view(&self) -> Seq<u8> {
        self.handle.view()@
    }

    /// Physical index of the slot.
    pub closed spec fn slot(&self) -> usize {
        self.slot
    }

    /// The role table as it stood when the slot was taken.
    pub closed spec fn table(&self) -> RoleTable {
        self.table@
    }

    /// Physical index of the slot.
    pub fn index(&self) -> (r: usize)
        ensures
            r == self.slot(),
    {
        self.slot
    }

    /// The bytes of the slot.
    pub fn bytes(&self) -> (r: &[u8])
        ensures
            r@ == self@,
    {
        self.handle.borrow().as_slice()
    }

    /// Number of bytes in the slot.
    pub fn len(&self) -> (r: usize)
        ensures
            r == self@.len(),
    {
        self.handle.borrow().len()
    }

    /// The byte at `i`.
    pub fn get(&self, i: usize) -> (r: u8)
        requires
            i < self@.len(),
        ensures
            r == self@[i as int],
    {
        self.handle.borrow()[i]
    }

    /// Ends the consumer's access.
    pub fn release(self) {
        self.handle.release_read();
    }
}

} // verus!
