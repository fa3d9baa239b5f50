//! A pool of sprite slots: the library's model of the pending sprite
//! attributes that the host hardware layer commits to the display each frame.
//!
//! The pool is the sole owner of the slots; entities refer to their slot by
//! index. Each slot carries the attributes the game mutates: screen position,
//! render priority and visibility. Committing the batched attributes to the
//! display is the host's job and stays outside the library.

use vstd::prelude::*;

verus! {

/// The pending attributes of one renderable sprite.
#[derive(Clone, Copy, Debug, PartialEq, Eq, Structural)]
pub struct SpriteSlot {
    /// Horizontal screen offset, in pixels.
    pub x: u16,
    /// Vertical screen offset, in pixels.
    pub y: u16,
    /// Render priority: lower values draw above higher ones.
    pub priority: u8,
    /// Whether the sprite is shown at all.
    pub visible: bool,
}

impl SpriteSlot {
    /// This slot with its horizontal offset replaced.
    pub open spec fn with_x(self, x: u16) -> SpriteSlot {
        SpriteSlot { x, y: self.y, priority: self.priority, visible: self.visible }
    }

    /// This slot with its vertical offset replaced.
    pub open spec fn with_y(self, y: u16) -> SpriteSlot {
        SpriteSlot { x: self.x, y, priority: self.priority, visible: self.visible }
    }

    /// This slot with its render priority replaced.
    pub open spec fn with_priority(self, priority: u8) -> SpriteSlot {
        SpriteSlot { x: self.x, y: self.y, priority, visible: self.visible }
    }

    /// This slot made visible.
    pub open spec fn shown(self) -> SpriteSlot {
        SpriteSlot { x: self.x, y: self.y, priority: self.priority, visible: true }
    }
}

/// The slot a freshly allocated sprite starts with: parked at the origin,
/// default priority, hidden until shown.
pub open spec fn fresh_slot() -> SpriteSlot {
    SpriteSlot { x: 0, y: 0, priority: 0, visible: false }
}

/// The owner of all sprite slots.
pub struct SpritePool {
    slots: Vec<SpriteSlot>,
}

impl View for SpritePool {
    type V = Seq<SpriteSlot>;

    closed spec fn view(&self) -> Seq<SpriteSlot> {
        self.slots@
    }
}

impl SpritePool {
    /// An empty pool with no sprites allocated.
    pub fn new() -> (p: SpritePool)
        ensures
            p@ == Seq::<SpriteSlot>::empty(),
    {
        SpritePool { slots: Vec::new() }
    }

    /// How many slots have been allocated.
    pub fn len(&self) -> (n: usize)
        ensures
            n == self@.len(),
    {
        self.slots.len()
    }

    /// A copy of the slot at `idx`.
    pub fn slot(&self, idx: usize) -> (s: SpriteSlot)
        requires
            idx < self@.len(),
        ensures
            s == self@[idx as int],
    {
        self.slots[idx]
    }

    /// Allocates a fresh, hidden slot and returns its index.
    pub fn allocate(&mut self) -> (idx: usize)
        ensures
            idx == old(self)@.len(),
            final(self)@ == old(self)@.push(fresh_slot()),
    {
        let idx = self.slots.len();
        self.slots.push(SpriteSlot { x: 0, y: 0, priority: 0, visible: false });
        idx
    }

    /// Sets the horizontal offset of the slot at `idx`.
    pub fn set_x(&mut self, idx: usize, x: u16)
        requires
            idx < old(self)@.len(),
        ensures
            final(self)@ == old(self)@.update(idx as int, old(self)@[idx as int].with_x(x)),
    {
        let mut s: SpriteSlot = self.slots[idx];
        s.x = x;
        self.slots.set(idx, s);
    }

    /// Sets the vertical offset of the slot at `idx`.
    pub fn set_y(&mut self, idx: usize, y: u16)
        requires
            idx < old(self)@.len(),
        ensures
            final(self)@ == old(self)@.update(idx as int, old(self)@[idx as int].with_y(y)),
    {
        let mut s: SpriteSlot = self.slots[idx];
        s.y = y;
        self.slots.set(idx, s);
    }

    /// Sets the render priority of the slot at `idx`.
    pub fn set_priority(&mut self, idx: usize, priority: u8)
        requires
            idx < old(self)@.len(),
        ensures
            final(self)@ == old(self)@.update(idx as int, old(self)@[idx as int].with_priority(priority)),
    {
        let mut s: SpriteSlot = self.slots[idx];
        s.priority = priority;
        self.slots.set(idx, s);
    }

    /// Makes the slot at `idx` visible.
    pub fn show(&mut self, idx: usize)
        requires
            idx < old(self)@.len(),
        ensures
            final(self)@ == old(self)@.update(idx as int, old(self)@[idx as int].shown()),
    {
        let mut s: SpriteSlot = self.slots[idx];
        s.visible = true;
        self.slots.set(idx, s);
    }
}

} // verus!
