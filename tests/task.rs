use mork_task::cap::{Cap, CapNode, CapType, FrameCap, PageTableCap, ThreadCap, CAP_INIT_THREAD, CAP_INIT_VSPACE, CNODE_SLOTS};
use mork_task::hal::HALContext;
use mork_task::page_table::PageTable;
use mork_task::task::{TaskContext, TaskError};
use mork_task::task_state::ThreadStateEnum;
use mork_task::{MAX_THREAD_PIRO, TIME_SLICE};

#[test]
fn user_thread_defaults() {
    let t = TaskContext::new_user_thread(0x8000_0000);
    assert_eq!(t.prio, MAX_THREAD_PIRO - 1);
    assert!(t.cspace.is_none());
    assert!(t.ipc_buffer.is_none());
    assert!(!t.is_queued);
    assert_eq!(t.time_slice, TIME_SLICE);
    assert_eq!(t.state, ThreadStateEnum::ThreadStateInactive);
    assert!(t.hal_context.user_flag);
    assert!(t.hal_context.interrupt_enable);
    assert_eq!(t.get_ptr(), 0x8000_0000);
}

#[test]
fn idle_thread_defaults() {
    let t = TaskContext::new_idle_thread(0x4000, 0x9000, 0x1234);
    assert_eq!(t.prio, MAX_THREAD_PIRO);
    assert_eq!(t.state, ThreadStateEnum::ThreadStateIdleThreadState);
    assert_eq!(t.hal_context.sp, 0x9000);
    assert_eq!(t.hal_context.next_ip, 0x1234);
    assert!(t.hal_context.interrupt_enable);
    assert!(!t.hal_context.user_flag);
    assert_eq!(t.time_slice, TIME_SLICE);
    assert!(!t.is_queued);
}

#[test]
fn hal_context_setters() {
    let mut h = HALContext::new();
    assert_eq!((h.sp, h.next_ip, h.interrupt_enable, h.user_flag), (0, 0, false, false));
    h.set_stack(0x100);
    h.set_next_ip(0x200);
    h.set_interrupt_enable(true);
    h.set_user_flag(true);
    assert_eq!((h.sp, h.next_ip, h.interrupt_enable, h.user_flag), (0x100, 0x200, true, true));
}

#[test]
fn capability_address_round_trip() {
    let t = TaskContext::new_user_thread(0x8020_3000);
    let cap = ThreadCap::new(t.get_ptr());
    assert_eq!(cap.base_ptr(), 0x80203);
    assert_eq!(TaskContext::from_cap(&cap), t.get_ptr());
}

#[test]
fn init_cspace_installs_self_capability() {
    let mut t = TaskContext::new_user_thread(0x5000);
    t.init_cspace();
    let node = t.cspace.as_ref().unwrap();
    assert_eq!(node.len(), CNODE_SLOTS);
    match node.get(CAP_INIT_THREAD) {
        Cap::Thread(c) => assert_eq!(TaskContext::from_cap(&c), 0x5000),
        _ => panic!("thread slot does not hold a thread capability"),
    }
    assert_eq!(node.get(CAP_INIT_VSPACE).get_type(), CapType::Null);
    assert_eq!(node.get(0).get_type(), CapType::Null);
}

#[test]
fn vspace_absent_until_installed() {
    let mut t = TaskContext::new_user_thread(0x5000);
    assert!(t.get_vspace().is_none());
    t.init_cspace();
    assert!(t.get_vspace().is_none());
    assert!(t.get_vspace_mut().is_none());
    assert_eq!(t.init_vspace(Box::new(PageTable::new(0x7_0000))), Ok(()));
    assert_eq!(t.get_vspace(), Some(PageTable::new(0x7_0000)));
    assert_eq!(t.get_vspace_mut().map(|p| p.get_ptr()), Some(0x7_0000));
}

#[test]
fn init_vspace_without_cspace_is_an_error() {
    let mut t = TaskContext::new_user_thread(0x5000);
    assert_eq!(
        t.init_vspace(Box::new(PageTable::new(0x7_0000))),
        Err(TaskError::CSpaceUninitialized)
    );
    assert!(t.cspace.is_none());
}

#[test]
fn vspace_slot_of_wrong_type_is_absent() {
    let mut t = TaskContext::new_user_thread(0x5000);
    t.init_cspace();
    t.cspace.as_mut().unwrap().set(CAP_INIT_VSPACE, FrameCap::new(0x7_0000).into_cap());
    assert!(t.get_vspace().is_none());
    t.cspace.as_mut().unwrap().set(CAP_INIT_VSPACE, PageTableCap::new(0x6_0000).into_cap());
    assert_eq!(t.get_vspace().map(|p| p.addr), Some(0x6_0000));
}

#[test]
fn ipc_buffer_gating() {
    let mut t = TaskContext::new_user_thread(0x5000);
    assert!(t.get_ipc_buffer().is_none());
    t.ipc_buffer = Some(10);
    assert!(t.get_ipc_buffer().is_none());
    t.init_cspace();
    assert!(t.get_ipc_buffer().is_none());
    t.cspace.as_mut().unwrap().set(10, ThreadCap::new(0x9000).into_cap());
    assert!(t.get_ipc_buffer().is_none());
    t.cspace.as_mut().unwrap().set(10, FrameCap::new(0x9000).into_cap());
    assert_eq!(t.get_ipc_buffer(), Some(0x9000));
    assert_eq!(t.get_ipc_buffer_mut(), Some(0x9000));
    t.ipc_buffer = Some(CNODE_SLOTS + 3);
    assert!(t.get_ipc_buffer().is_none());
    t.ipc_buffer = None;
    assert!(t.get_ipc_buffer_mut().is_none());
}

#[test]
fn page_table_from_cap() {
    let cap = PageTableCap::new(0x12_3000);
    assert_eq!(PageTable::from_cap(&cap).get_ptr(), 0x12_3000);
}

#[test]
fn cap_node_lookup() {
    let mut n = CapNode::new();
    assert_eq!(n.get(CNODE_SLOTS).get_type(), CapType::Null);
    n.set(CNODE_SLOTS - 1, FrameCap::new(0x2000).into_cap());
    assert_eq!(n.get(CNODE_SLOTS - 1).get_type(), CapType::Frame);
    assert_eq!(Cap::default().get_type(), CapType::Null);
}

#[test]
fn thread_state_transitions() {
    let mut t = TaskContext::new_user_thread(0x5000);
    assert!(!t.set_state(ThreadStateEnum::ThreadStateRestart));
    assert_eq!(t.state, ThreadStateEnum::ThreadStateInactive);
    assert!(t.set_state(ThreadStateEnum::ThreadStateRunning));
    assert!(t.set_state(ThreadStateEnum::ThreadStateBlockedOnReceive));
    assert!(!t.set_state(ThreadStateEnum::ThreadStateBlockedOnSend));
    assert!(t.set_state(ThreadStateEnum::ThreadStateRunning));
    assert!(t.set_state(ThreadStateEnum::ThreadStateRestart));
    assert!(t.set_state(ThreadStateEnum::ThreadStateRunning));
    assert!(ThreadStateEnum::ThreadStateBlockedOnNotification.is_blocked());
    assert!(!ThreadStateEnum::ThreadStateRunning.is_blocked());
    let mut idle = TaskContext::new_idle_thread(0x4000, 0, 0);
    assert!(!idle.set_state(ThreadStateEnum::ThreadStateRunning));
    assert_eq!(idle.state, ThreadStateEnum::ThreadStateIdleThreadState);
}
