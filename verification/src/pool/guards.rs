//! Nesting depths of the two scopes that govern allocation from the host's global
//! allocator while a pool is active: the guard (such allocation is refused) and the
//! allowance (it is permitted again). Entering a scope counts up, saturating; leaving
//! it counts down, never below zero.
use vstd::prelude::*;

verus! {

/// The nesting depths of the guard and the allowance scopes.
#[derive(Clone, Copy, Debug, PartialEq, Eq, Structural)]
pub struct GuardDepths {
    pub guard: u32,
    pub allow: u32,
}

/// `d + 1`, saturating at the largest `u32`.
pub open spec fn inc_sat(d: u32) -> u32 {
    if d == u32::MAX { d } else { (d + 1) as u32 }
}

/// `d - 1`, stopping at zero.
pub open spec fn dec_floor(d: u32) -> u32 {
    if d > 0 { (d - 1) as u32 } else { 0 }
}

impl GuardDepths {
    /// No scope entered.
    pub fn new() -> (r: GuardDepths)
        ensures
            r.guard == 0,
            r.allow == 0,
    {
        GuardDepths { guard: 0, allow: 0 }
    }

    /// Depth of the guard scope.
    pub fn guard_depth(&self) -> (r: u32)
        ensures
            r == self.guard,
    {
        self.guard
    }

    /// Depth of the allowance scope.
    pub fn allow_depth(&self) -> (r: u32)
        ensures
            r == self.allow,
    {
        self.allow
    }

    /// Some guard scope is open.
    pub fn global_alloc_guard_active(&self) -> (r: bool)
        ensures
            r == (self.guard > 0),
    {
        self.guard > 0
    }

    /// Some allowance scope is open.
    pub fn global_alloc_allowance_active(&self) -> (r: bool)
        ensures
            r == (self.allow > 0),
    {
        self.allow > 0
    }

    /// Enter a guard scope.
    pub fn enter_global_alloc_guard(&mut self)
        ensures
            final(self).guard == inc_sat(old(self).guard),
            final(self).allow == old(self).allow,
    {
        self.guard = self.guard.saturating_add(1);
    }

    /// Leave a guard scope.
    pub fn exit_global_alloc_guard(&mut self)
        ensures
            final(self).guard == dec_floor(old(self).guard),
            final(self).allow == old(self).allow,
    {
        if self.guard > 0 {
            self.guard = self.guard - 1;
        }
    }

    /// Enter an allowance scope.
    pub fn enter_global_alloc_allowance(&mut self)
        ensures
            final(self).allow == inc_sat(old(self).allow),
            final(self).guard == old(self).guard,
    {
        self.allow = self.allow.saturating_add(1);
    }

    /// Leave an allowance scope.
    pub fn exit_global_alloc_allowance(&mut self)
        ensures
            final(self).allow == dec_floor(old(self).allow),
            final(self).guard == old(self).guard,
    {
        if self.allow > 0 {
            self.allow = self.allow - 1;
        }
    }

    /// Close every scope.
    pub fn force_clear_global_alloc_guard(&mut self)
        ensures
            final(self).guard == 0,
            final(self).allow == 0,
    {
        self.guard = 0;
        self.allow = 0;
    }
}

/// Leaving a scope undoes entering it, below the saturation limit.
pub proof fn lemma_enter_then_exit(d: u32)
    requires
        d < u32::MAX,
    ensures
        dec_floor(inc_sat(d)) == d,
{
}

/// A scope is open after it is entered.
pub proof fn lemma_entered_is_active(d: u32)
    ensures
        inc_sat(d) > 0,
{
}

} // verus!
