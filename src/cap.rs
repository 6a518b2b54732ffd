use vstd::prelude::*;

use crate::PAGE_SIZE;

verus! {

/// Kind of object a capability refers to.
#[derive(PartialEq, Eq, Structural, Clone, Copy, Debug)]
pub enum CapType {
    Null,
    Thread,
    PageTable,
    Frame,
}

/// Capability to a thread control block: it holds the object's page-frame number, so the
/// object's byte address is that number times the page size.
#[derive(Clone, Copy, Debug)]
pub struct ThreadCap {
    base_ptr: usize,
}

impl ThreadCap {
    #[verifier::type_invariant]
    closed spec fn inv(self) -> bool {
        self.base_ptr <= usize::MAX / PAGE_SIZE
    }

    /// Page-frame number of the object.
    pub closed spec fn frame(self) -> usize {
        self.base_ptr
    }

    /// Mints a capability for the object at byte address `ptr`.
    pub fn new(ptr: usize) -> (r: Self)
        ensures
            r.frame() == ptr / PAGE_SIZE,
    {
        ThreadCap { base_ptr: ptr / PAGE_SIZE }
    }

    /// Page-frame number of the object; its byte address fits in `usize`.
    pub fn base_ptr(&self) -> (r: usize)
        ensures
            r == self.frame(),
            r * PAGE_SIZE <= usize::MAX,
    {
        proof {
            use_type_invariant(self);
        }
        self.base_ptr
    }

    pub fn into_cap(self) -> (r: Cap)
        ensures
            r == Cap::Thread(self),
    {
        Cap::Thread(self)
    }
}

/// Capability to an address-space root page table: it holds the object's page-frame number, so the
/// object's byte address is that number times the page size.
#[derive(Clone, Copy, Debug)]
pub struct PageTableCap {
    base_ptr: usize,
}

impl PageTableCap {
    #[verifier::type_invariant]
    closed spec fn inv(self) -> bool {
        self.base_ptr <= usize::MAX / PAGE_SIZE
    }

    /// Page-frame number of the object.
    pub closed spec fn frame(self) -> usize {
        self.base_ptr
    }

    /// Mints a capability for the object at byte address `ptr`.
    pub fn new(ptr: usize) -> (r: Self)
        ensures
            r.frame() == ptr / PAGE_SIZE,
    {
        PageTableCap { base_ptr: ptr / PAGE_SIZE }
    }

    /// Page-frame number of the object; its byte address fits in `usize`.
    pub fn base_ptr(&self) -> (r: usize)
        ensures
            r == self.frame(),
            r * PAGE_SIZE <= usize::MAX,
    {
        proof {
            use_type_invariant(self);
        }
        self.base_ptr
    }

    pub fn into_cap(self) -> (r: Cap)
        ensures
            r == Cap::PageTable(self),
    {
        Cap::PageTable(self)
    }
}

/// Capability to a physical frame: it holds the object's page-frame number, so the
/// object's byte address is that number times the page size.
#[derive(Clone, Copy, Debug)]
pub struct FrameCap {
    base_ptr: usize,
}

impl FrameCap {
    #[verifier::type_invariant]
    closed spec fn inv(self) -> bool {
        self.base_ptr <= usize::MAX / PAGE_SIZE
    }

    /// Page-frame number of the object.
    pub closed spec fn frame(self) -> usize {
        self.base_ptr
    }

    /// Mints a capability for the object at byte address `ptr`.
    pub fn new(ptr: usize) -> (r: Self)
        ensures
            r.frame() == ptr / PAGE_SIZE,
    {
        FrameCap { base_ptr: ptr / PAGE_SIZE }
    }

    /// Page-frame number of the object; its byte address fits in `usize`.
    pub fn base_ptr(&self) -> (r: usize)
        ensures
            r == self.frame(),
            r * PAGE_SIZE <= usize::MAX,
    {
        proof {
            use_type_invariant(self);
        }
        self.base_ptr
    }

    pub fn into_cap(self) -> (r: Cap)
        ensures
            r == Cap::Frame(self),
    {
        Cap::Frame(self)
    }
}

/// The content of one capability slot.
#[derive(Clone, Copy, Debug)]
pub enum Cap {
    Null,
    Thread(ThreadCap),
    PageTable(PageTableCap),
    Frame(FrameCap),
}

impl Cap {
    pub open spec fn spec_type(self) -> CapType {
        match self {
            Cap::Null => CapType::Null,
            Cap::Thread(_) => CapType::Thread,
            Cap::PageTable(_) => CapType::PageTable,
            Cap::Frame(_) => CapType::Frame,
        }
    }

    /// The empty capability.
    pub fn default() -> (r: Cap)
        ensures
            r == Cap::Null,
    {
        Cap::Null
    }

    pub fn get_type(&self) -> (r: CapType)
        ensures
            r == self.spec_type(),
    {
        match self {
            Cap::Null => CapType::Null,
            Cap::Thread(_) => CapType::Thread,
            Cap::PageTable(_) => CapType::PageTable,
            Cap::Frame(_) => CapType::Frame,
        }
    }
}

/// Number of slots in a capability node.
pub const CNODE_SLOTS: usize = 256;

/// Well-known slot holding a thread's capability to itself.
pub const CAP_INIT_THREAD: usize = 1;

/// Well-known slot holding a thread's address-space root capability.
pub const CAP_INIT_VSPACE: usize = 3;

/// Index of a slot in a capability node.
pub type CapIndex = usize;

/// A capability node: a fixed number of slots, each holding a capability.
pub struct CapNode {
    slots: Vec<Cap>,
}

impl View for CapNode {
    type V = Seq<Cap>;

    closed spec fn view(&self) -> Seq<Cap> {
        self.slots@
    }
}

impl CapNode {
    #[verifier::type_invariant]
    closed spec fn inv(self) -> bool {
        self.slots@.len() == CNODE_SLOTS
    }

    /// A node whose slots are all empty.
    pub fn new() -> (r: Self)
        ensures
            r@ == Seq::new(CNODE_SLOTS as nat, |i: int| Cap::Null),
    {
        let mut slots: Vec<Cap> = Vec::new();
        while slots.len() < CNODE_SLOTS
            invariant
                slots@.len() <= CNODE_SLOTS,
                forall|i: int| 0 <= i < slots@.len() ==> slots@[i] == Cap::Null,
            decreases CNODE_SLOTS - slots@.len(),
        {
            slots.push(Cap::Null);
        }
        proof {
            assert(slots@ =~= Seq::new(CNODE_SLOTS as nat, |i: int| Cap::Null));
        }
        CapNode { slots }
    }

    /// The capability in slot `i`, empty where the node has no such slot.
    pub open spec fn spec_get(&self, i: int) -> Cap {
        if 0 <= i < self@.len() {
            self@[i]
        } else {
            Cap::Null
        }
    }

    /// The number of slots.
    pub fn len(&self) -> (r: usize)
        ensures
            r == self@.len(),
            r == CNODE_SLOTS,
    {
        proof {
            use_type_invariant(self);
        }
        self.slots.len()
    }

    /// The capability in slot `i`, or the empty capability where the node
    /// has no such slot.
    pub fn get(&self, i: CapIndex) -> (r: Cap)
        ensures
            r == self.spec_get(i as int),
    {
        if i < self.slots.len() {
            self.slots[i]
        } else {
            Cap::Null
        }
    }

    /// Puts `cap` into slot `i`.
    pub fn set(&mut self, i: CapIndex, cap: Cap)
        requires
            i < CNODE_SLOTS,
        ensures
            final(self)@ == old(self)@.update(i as int, cap),
        no_unwind
    {
        proof {
            use_type_invariant(&*self);
        }
        self.slots[i] = cap;
    }
}

} // verus!
