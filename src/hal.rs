use vstd::prelude::*;

verus! {

/// Saved register and control state of a thread, reduced to the values that
/// thread construction sets: stack pointer, next instruction, interrupt
/// enable and user-mode flag.
#[derive(Clone, Copy, Debug)]
pub struct HALContext {
    pub sp: usize,
    pub next_ip: usize,
    pub interrupt_enable: bool,
    pub user_flag: bool,
}

impl HALContext {
    /// A cleared context: zero registers, interrupts off, kernel mode.
    pub fn new() -> (r: Self)
        ensures
            r.sp == 0,
            r.next_ip == 0,
            !r.interrupt_enable,
            !r.user_flag,
    {
        HALContext { sp: 0, next_ip: 0, interrupt_enable: false, user_flag: false }
    }

    pub fn set_stack(&mut self, sp: usize)
        ensures
            *final(self) == (HALContext { sp, ..*old(self) }),
    {
        self.sp = sp;
    }

    pub fn set_next_ip(&mut self, ip: usize)
        ensures
            *final(self) == (HALContext { next_ip: ip, ..*old(self) }),
    {
        self.next_ip = ip;
    }

    pub fn set_interrupt_enable(&mut self, enable: bool)
        ensures
            *final(self) == (HALContext { interrupt_enable: enable, ..*old(self) }),
    {
        self.interrupt_enable = enable;
    }

    pub fn set_user_flag(&mut self, user: bool)
        ensures
            *final(self) == (HALContext { user_flag: user, ..*old(self) }),
    {
        self.user_flag = user;
    }
}

} // verus!
