use vstd::prelude::*;

use crate::cap::{Cap, CapIndex, CapType, CapNode, PageTableCap, ThreadCap, CAP_INIT_THREAD, CAP_INIT_VSPACE, CNODE_SLOTS};
use crate::hal::HALContext;
use crate::page_table::PageTable;
use crate::task_state::{legal_transition, ThreadStateEnum};
use crate::{MAX_THREAD_PIRO, PAGE_SIZE, TIME_SLICE};

verus! {

/// Why a thread's address space could not be installed.
#[derive(PartialEq, Eq, Structural, Clone, Copy, Debug)]
pub enum TaskError {
    /// The thread has no capability space yet.
    CSpaceUninitialized,
}

/// Thread control block. It lives at the byte address `addr`, which is what
/// a thread capability encodes as a page-frame number; a well-formed one
/// (`wf`) starts on a page boundary.
pub struct TaskContext {
    pub hal_context: HALContext,
    pub prio: usize,
    pub cspace: Option<Box<CapNode>>,
    pub ipc_buffer: Option<CapIndex>,
    pub is_queued: bool,
    pub time_slice: usize,
    pub state: ThreadStateEnum,
    pub addr: usize,
}

/// The page-table capability in the address-space root slot of `cspace`, if
/// that slot holds one.
pub open spec fn vspace_cap_of(cspace: Option<Box<CapNode>>) -> Option<PageTableCap> {
    match cspace {
        Some(node) => match node.spec_get(CAP_INIT_VSPACE as int) {
            Cap::PageTable(c) => Some(c),
            _ => None,
        },
        None => None,
    }
}

/// Byte address of the frame that slot `index` of `cspace` refers to, if
/// both are set and the slot holds a frame capability.
pub open spec fn ipc_buffer_addr_of(cspace: Option<Box<CapNode>>, index: Option<CapIndex>) -> Option<
    usize,
> {
    match (cspace, index) {
        (Some(node), Some(i)) => match node.spec_get(i as int) {
            Cap::Frame(f) => Some((f.frame() * PAGE_SIZE) as usize),
            _ => None,
        },
        _ => None,
    }
}

/// `node` is a fresh capability space of the thread at `addr`: every slot
/// empty but the thread slot, which holds a capability to that thread.
pub open spec fn fresh_cspace(node: Seq<Cap>, addr: usize) -> bool {
    &&& node.len() == CNODE_SLOTS
    &&& forall|i: int|
        0 <= i < CNODE_SLOTS && i != CAP_INIT_THREAD ==> #[trigger] node[i] == Cap::Null
    &&& node[CAP_INIT_THREAD as int] matches Cap::Thread(t) && t.frame() == addr / PAGE_SIZE
        && t.frame() * PAGE_SIZE == addr
}

/// `after` is `before` with the address-space root slot holding a
/// capability to the page table at `table_addr`.
pub open spec fn vspace_installed(before: Seq<Cap>, after: Seq<Cap>, table_addr: usize) -> bool {
    exists|c: PageTableCap|
        c.frame() == table_addr / PAGE_SIZE && after == before.update(
            CAP_INIT_VSPACE as int,
            Cap::PageTable(c),
        )
}

/// The address-space root is absent without a capability space, absent where
/// the root slot holds anything but a page-table capability, and that
/// capability where it holds one.
pub proof fn lemma_vspace_slot_gating(node: CapNode)
    ensures
        vspace_cap_of(None) is None,
        (vspace_cap_of(Some(Box::new(node))) is Some) <==> node.spec_get(
            CAP_INIT_VSPACE as int,
        ).spec_type() == CapType::PageTable,
        node.spec_get(CAP_INIT_VSPACE as int) matches Cap::PageTable(c) ==> vspace_cap_of(
            Some(Box::new(node)),
        ) == Some(c),
{
}

/// The IPC buffer is absent without a capability space or an index, absent
/// where the indexed slot holds anything but a frame capability, and that
/// frame's byte address where it holds one.
pub proof fn lemma_ipc_buffer_slot_gating(cspace: Option<Box<CapNode>>, index: Option<CapIndex>)
    ensures
        cspace is None || index is None ==> ipc_buffer_addr_of(cspace, index) is None,
        cspace is Some && index is Some ==> ((ipc_buffer_addr_of(cspace, index) is Some) <==> cspace->0.spec_get(
            index->0 as int,
        ).spec_type() == CapType::Frame),
        cspace is Some && index is Some ==> (cspace->0.spec_get(index->0 as int) matches Cap::Frame(
            f,
        ) ==> ipc_buffer_addr_of(cspace, index) == Some((f.frame() * PAGE_SIZE) as usize)),
{
}

impl TaskContext {
    /// The record starts on a page boundary.
    pub open spec fn wf(&self) -> bool {
        self.addr % PAGE_SIZE == 0
    }

    /// An inactive user thread at `addr`, one level above the idle priority,
    /// with no capability space and no IPC buffer.
    pub fn new_user_thread(addr: usize) -> (r: Self)
        requires
            addr % PAGE_SIZE == 0,
        ensures
            r.hal_context == (HALContext { sp: 0, next_ip: 0, interrupt_enable: true, user_flag: true }),
            r.prio == MAX_THREAD_PIRO - 1,
            r.cspace.is_none(),
            r.ipc_buffer.is_none(),
            !r.is_queued,
            r.time_slice == TIME_SLICE,
            r.state == ThreadStateEnum::ThreadStateInactive,
            r.addr == addr,
            r.wf(),
    {
        let mut hal_context = HALContext::new();
        hal_context.set_user_flag(true);
        hal_context.set_interrupt_enable(true);
        TaskContext {
            hal_context,
            prio: MAX_THREAD_PIRO - 1,
            cspace: None,
            ipc_buffer: None,
            is_queued: false,
            time_slice: TIME_SLICE,
            state: ThreadStateEnum::ThreadStateInactive,
            addr,
        }
    }

    /// Gives the thread a fresh capability space holding a capability to
    /// the thread itself and an empty address-space root slot.
    pub fn init_cspace(&mut self)
        requires
            old(self).wf(),
        ensures
            final(self).wf(),
            final(self).cspace is Some,
            fresh_cspace(final(self).cspace->0@, old(self).addr),
            final(self).hal_context == old(self).hal_context,
            final(self).prio == old(self).prio,
            final(self).ipc_buffer == old(self).ipc_buffer,
            final(self).is_queued == old(self).is_queued,
            final(self).time_slice == old(self).time_slice,
            final(self).state == old(self).state,
            final(self).addr == old(self).addr,
    {
        let mut node = CapNode::new();
        let thread_cap = ThreadCap::new(self.get_ptr());
        proof {
            lemma_cap_address_round_trip(self.addr, thread_cap);
        }
        node.set(CAP_INIT_THREAD, thread_cap.into_cap());
        node.set(CAP_INIT_VSPACE, Cap::default());
        self.cspace = Some(Box::new(node));
    }

    /// Installs a capability to `page_table` in the address-space root slot;
    /// the table is from then on owned through that capability.
    pub fn init_vspace(&mut self, page_table: Box<PageTable>) -> (r: Result<(), TaskError>)
        ensures
            old(self).cspace.is_none() <==> r == Err::<(), TaskError>(TaskError::CSpaceUninitialized),
            old(self).cspace is Some ==> r == Ok::<(), TaskError>(()),
            old(self).cspace.is_none() ==> final(self).cspace == old(self).cspace,
            old(self).cspace is Some ==> final(self).cspace is Some && vspace_installed(
                old(self).cspace->0@,
                final(self).cspace->0@,
                page_table.addr,
            ),
            final(self).hal_context == old(self).hal_context,
            final(self).prio == old(self).prio,
            final(self).ipc_buffer == old(self).ipc_buffer,
            final(self).is_queued == old(self).is_queued,
            final(self).time_slice == old(self).time_slice,
            final(self).state == old(self).state,
            final(self).addr == old(self).addr,
    {
        match self.cspace.as_mut() {
            None => Err(TaskError::CSpaceUninitialized),
            Some(node) => {
                let vspace_cap = PageTableCap::new(page_table.get_ptr());
                node.set(CAP_INIT_VSPACE, vspace_cap.into_cap());
                Ok(())
            },
        }
    }

    /// The page-table capability in the address-space root slot, if the
    /// thread has a capability space and that slot holds one.
    fn get_page_table_cap(&self) -> (r: Option<PageTableCap>)
        ensures
            r == vspace_cap_of(self.cspace),
    {
        match self.cspace.as_ref() {
            None => None,
            Some(node) => match node.get(CAP_INIT_VSPACE) {
                Cap::PageTable(c) => Some(c),
                _ => None,
            },
        }
    }

    /// The thread's address-space root page table, absent where the root
    /// slot is missing, empty or holds a capability of another kind.
    pub fn get_vspace(&self) -> (r: Option<PageTable>)
        ensures
            r == match vspace_cap_of(self.cspace) {
                Some(c) => Some(PageTable { addr: (c.frame() * PAGE_SIZE) as usize }),
                None => None,
            },
    {
        match self.get_page_table_cap() {
            Some(cap) => Some(PageTable::from_cap(&cap)),
            None => None,
        }
    }

    /// As `get_vspace`, for a caller that holds the thread exclusively.
    pub fn get_vspace_mut(&mut self) -> (r: Option<PageTable>)
        ensures
            *final(self) == *old(self),
            r == match vspace_cap_of(old(self).cspace) {
                Some(c) => Some(PageTable { addr: (c.frame() * PAGE_SIZE) as usize }),
                None => None,
            },
    {
        self.get_vspace()
    }

    /// Byte address of the IPC buffer frame: the slot named by `ipc_buffer`
    /// in the thread's own capability space must hold a frame capability.
    fn get_ipc_buffer_ptr(&self) -> (r: Option<usize>)
        ensures
            r == ipc_buffer_addr_of(self.cspace, self.ipc_buffer),
    {
        let node = match self.cspace.as_ref() {
            Some(node) => node,
            None => return None,
        };
        let index = match self.ipc_buffer {
            Some(index) => index,
            None => return None,
        };
        match node.get(index) {
            Cap::Frame(f) => Some(f.base_ptr() * PAGE_SIZE),
            _ => None,
        }
    }

    /// Byte address of the thread's IPC buffer, absent where the index is
    /// unset, the thread has no capability space, or the slot does not hold
    /// a frame capability.
    pub fn get_ipc_buffer(&self) -> (r: Option<usize>)
        ensures
            r == ipc_buffer_addr_of(self.cspace, self.ipc_buffer),
    {
        self.get_ipc_buffer_ptr()
    }

    /// As `get_ipc_buffer`, for a caller that holds the thread exclusively.
    pub fn get_ipc_buffer_mut(&mut self) -> (r: Option<usize>)
        ensures
            *final(self) == *old(self),
            r == ipc_buffer_addr_of(old(self).cspace, old(self).ipc_buffer),
    {
        self.get_ipc_buffer_ptr()
    }

    /// The idle thread at `addr`: it runs the idle loop at `idle_entry` on
    /// the stack `stack_ptr` in kernel mode with interrupts enabled, at the
    /// priority that no run queue holds.
    pub fn new_idle_thread(addr: usize, stack_ptr: usize, idle_entry: usize) -> (r: Self)
        requires
            addr % PAGE_SIZE == 0,
        ensures
            r.hal_context == (HALContext {
                sp: stack_ptr,
                next_ip: idle_entry,
                interrupt_enable: true,
                user_flag: false,
            }),
            r.prio == MAX_THREAD_PIRO,
            r.cspace.is_none(),
            r.ipc_buffer.is_none(),
            !r.is_queued,
            r.time_slice == TIME_SLICE,
            r.state == ThreadStateEnum::ThreadStateIdleThreadState,
            r.addr == addr,
            r.wf(),
    {
        let mut hal_context = HALContext::new();
        hal_context.set_stack(stack_ptr);
        hal_context.set_next_ip(idle_entry);
        hal_context.set_interrupt_enable(true);
        hal_context.set_user_flag(false);
        TaskContext {
            hal_context,
            prio: MAX_THREAD_PIRO,
            cspace: None,
            ipc_buffer: None,
            is_queued: false,
            time_slice: TIME_SLICE,
            state: ThreadStateEnum::ThreadStateIdleThreadState,
            addr,
        }
    }

    /// Byte address of the thread control block that a thread capability
    /// refers to: its page-frame number shifted into a byte address.
    pub fn from_cap(cap: &ThreadCap) -> (r: usize)
        ensures
            r == cap.frame() * PAGE_SIZE,
    {
        cap.base_ptr() * PAGE_SIZE
    }

    /// Moves the thread to state `to` where the lifecycle allows that move;
    /// returns whether it did. Nothing else changes.
    pub fn set_state(&mut self, to: ThreadStateEnum) -> (r: bool)
        ensures
            r == legal_transition(old(self).state, to),
            final(self).state == (if r { to } else { old(self).state }),
            final(self).hal_context == old(self).hal_context,
            final(self).prio == old(self).prio,
            final(self).cspace == old(self).cspace,
            final(self).ipc_buffer == old(self).ipc_buffer,
            final(self).is_queued == old(self).is_queued,
            final(self).time_slice == old(self).time_slice,
            final(self).addr == old(self).addr,
    {
        if self.state.can_transition_to(to) {
            self.state = to;
            true
        } else {
            false
        }
    }

    /// Byte address of this thread control block.
    pub fn get_ptr(&self) -> (r: usize)
        requires
            self.wf(),
        ensures
            r == self.addr,
            r % PAGE_SIZE == 0,
    {
        self.addr
    }
}

/// A thread capability minted from a page-aligned address resolves back to
/// exactly that address.
pub proof fn lemma_cap_address_round_trip(addr: usize, cap: ThreadCap)
    requires
        addr % PAGE_SIZE == 0,
        cap.frame() == addr / PAGE_SIZE,
    ensures
        cap.frame() * PAGE_SIZE == addr,
{
    assert((addr / 4096) * 4096 + addr % 4096 == addr) by (nonlinear_arith);
}

} // verus!
