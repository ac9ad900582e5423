//! Hands a stateful callback to a timer facility that only understands a
//! plain function pointer plus one opaque context value.
//!
//! The captured value is passed back to the callback by copy on every firing.
//! The facility-side adapter ("trampoline") is chosen by the captured value's
//! byte size alone: two types of equal size are indistinguishable to it, so the
//! callback must read its captured value as the type it was registered with.
use std::rc::Rc;
use vstd::layout::size_of;
use vstd::prelude::*;

use crate::error::BridgeError;
use crate::facility::{is_active, step, FacilityEvent, ScheduledTimer};

verus! {

/// A captured-value byte size for which a trampoline exists.
#[derive(Debug, Clone, Copy, PartialEq, Eq, Structural)]
pub enum SizeClass {
    Bytes1,
    Bytes2,
    Bytes4,
    Bytes6,
    Bytes8,
    Bytes16,
    Bytes32,
}

/// The byte sizes of captured values that registration accepts.
pub open spec fn is_supported_size(n: nat) -> bool {
    n == 1 || n == 2 || n == 4 || n == 6 || n == 8 || n == 16 || n == 32
}

impl SizeClass {
    pub open spec fn spec_bytes(self) -> nat {
        match self {
            SizeClass::Bytes1 => 1,
            SizeClass::Bytes2 => 2,
            SizeClass::Bytes4 => 4,
            SizeClass::Bytes6 => 6,
            SizeClass::Bytes8 => 8,
            SizeClass::Bytes16 => 16,
            SizeClass::Bytes32 => 32,
        }
    }

    /// The byte size that this class stands for.
    pub fn bytes(&self) -> (n: usize)
        ensures
            n == self.spec_bytes(),
    {
        match self {
            SizeClass::Bytes1 => 1,
            SizeClass::Bytes2 => 2,
            SizeClass::Bytes4 => 4,
            SizeClass::Bytes6 => 6,
            SizeClass::Bytes8 => 8,
            SizeClass::Bytes16 => 16,
            SizeClass::Bytes32 => 32,
        }
    }

    /// Looks up the trampoline class for a captured value of `size` bytes.
    pub fn for_size(size: usize) -> (r: Result<SizeClass, BridgeError>)
        ensures
            r is Ok <==> is_supported_size(size as nat),
            r matches Ok(c) ==> c.spec_bytes() == size,
            r is Err ==> r == Err::<SizeClass, BridgeError>(BridgeError::UnsupportedCaptureSize),
    {
        match size {
            1 => Ok(SizeClass::Bytes1),
            2 => Ok(SizeClass::Bytes2),
            4 => Ok(SizeClass::Bytes4),
            6 => Ok(SizeClass::Bytes6),
            8 => Ok(SizeClass::Bytes8),
            16 => Ok(SizeClass::Bytes16),
            32 => Ok(SizeClass::Bytes32),
            _ => Err(BridgeError::UnsupportedCaptureSize),
        }
    }

    /// The trampoline class for captured values of type `T`.
    pub fn of<T>() -> (r: Result<SizeClass, BridgeError>)
        ensures
            r is Ok <==> is_supported_size(size_of::<T>()),
            r matches Ok(c) ==> c.spec_bytes() == size_of::<T>(),
            r is Err ==> r == Err::<SizeClass, BridgeError>(BridgeError::UnsupportedCaptureSize),
    {
        SizeClass::for_size(core::mem::size_of::<T>())
    }
}

/// The heap cell that one registration shares with the timer facility: the
/// callback and the value it captured.
pub struct CallbackParam<F, T> {
    cb: F,
    param: T,
}

impl<F: Fn(u32, T) -> u32, T: Copy> CallbackParam<F, T> {
    pub closed spec fn callback(&self) -> F {
        self.cb
    }

    pub closed spec fn captured(&self) -> T {
        self.param
    }

    pub fn new(cb: F, param: T) -> (c: CallbackParam<F, T>)
        ensures
            c.callback() == cb,
            c.captured() == param,
    {
        CallbackParam { cb, param }
    }

    /// What a trampoline does when the facility fires: calls the callback
    /// with the elapsed interval and the captured value, and returns its
    /// answer, the next interval in milliseconds (zero stops the timer).
    pub fn invoke(&self, interval: u32) -> (next: u32)
        requires
            self.callback().requires((interval, self.captured())),
        ensures
            self.callback().ensures((interval, self.captured()), next),
    {
        (self.cb)(interval, self.param)
    }
}

/// The timer facility that fires registered callbacks.
///
/// Its bookkeeping is `timers()`: timer `id` is entry `id - 1`, active until
/// it is cancelled or its callback returns zero. `add_timer` asks for
/// `cell.invoke` to run after `interval` milliseconds, through the trampoline
/// of `class`, and again after each nonzero interval that it returns; the
/// facility borrows `cell` and never owns it. It returns the new timer's
/// identifier, or zero where the facility refused and registered nothing.
/// `remove_timer` cancels a timer and tells whether it was still active.
///
/// `class` is the size class of `T`, so that the trampoline reads the cell as
/// the type it was built with. `ManualTimerFacility` implements this trait
/// and is verified against it. A facility whose bookkeeping lives outside
/// verified code is driven instead through the parts of the bridge:
/// `SizeClass::of`, `CallbackParam::new`, `Timer::from_registration` and
/// `removal_outcome`.
pub trait TimerFacility {
    spec fn timers(&self) -> Seq<ScheduledTimer>;

    fn add_timer<F: Fn(u32, T) -> u32, T: Copy>(
        &mut self,
        interval: u32,
        class: SizeClass,
        cell: &Rc<CallbackParam<F, T>>,
    ) -> (id: i32)
        requires
            class.spec_bytes() == size_of::<T>(),
        ensures
            id == 0 ==> final(self).timers() == old(self).timers(),
            id != 0 ==> final(self).timers() == old(self).timers().push(
                ScheduledTimer { interval, active: true },
            ) && id == final(self).timers().len(),
    ;

    fn remove_timer(&mut self, id: i32) -> (was_active: bool)
        ensures
            was_active == is_active(old(self).timers(), id as int),
            final(self).timers() == step(old(self).timers(), FacilityEvent::Cancel(id)),
    ;
}

/// One registered timer: the facility's identifier, the interval first asked
/// for, and the strong reference that keeps the callback cell alive.
///
/// The facility only borrows the cell, so a handle must be given to `remove`,
/// which cancels the timer before the cell is released; dropping a handle
/// whose timer may still fire leaves the facility a dangling context.
pub struct Timer<F, T> {
    delay: u32,
    raw: i32,
    closure: Rc<CallbackParam<F, T>>,
}

impl<F: Fn(u32, T) -> u32, T: Copy> Timer<F, T> {
    pub closed spec fn spec_id(&self) -> i32 {
        self.raw
    }

    pub closed spec fn spec_delay(&self) -> u32 {
        self.delay
    }

    pub closed spec fn cell(&self) -> CallbackParam<F, T> {
        *self.closure
    }

    /// The facility's identifier of this timer.
    pub fn id(&self) -> (r: i32)
        ensures
            r == self.spec_id(),
    {
        self.raw
    }

    /// The interval that the timer was registered with.
    pub fn delay(&self) -> (r: u32)
        ensures
            r == self.spec_delay(),
    {
        self.delay
    }

    /// The callback cell, for a trampoline to invoke.
    pub fn callback_param(&self) -> (r: &Rc<CallbackParam<F, T>>)
        ensures
            **r == self.cell(),
    {
        &self.closure
    }

    /// Wraps the facility's answer to a registration: zero means refusal, and
    /// then the cell is released before the error is returned.
    pub fn from_registration(delay: u32, id: i32, closure: Rc<CallbackParam<F, T>>) -> (r: Result<
        Timer<F, T>,
        BridgeError,
    >)
        ensures
            r is Err <==> id == 0,
            r is Err ==> r == Err::<Timer<F, T>, BridgeError>(BridgeError::RegistrationFailed),
            r matches Ok(t) ==> t.spec_id() == id && t.spec_delay() == delay && t.cell()
                == *closure,
    {
        if id == 0 {
            Err(BridgeError::RegistrationFailed)
        } else {
            Ok(Timer { delay, raw: id, closure })
        }
    }

    /// Registers `callback` with the facility, to be called with the elapsed
    /// interval and a copy of `cbparam` after `delay` milliseconds.
    ///
    /// A captured value whose byte size has no trampoline is refused before
    /// the facility is asked anything.
    pub fn new<Fac: TimerFacility>(delay: u32, callback: F, cbparam: T, facility: &mut Fac) -> (r:
        Result<Timer<F, T>, BridgeError>)
        ensures
            !is_supported_size(size_of::<T>()) ==> r == Err::<Timer<F, T>, BridgeError>(
                BridgeError::UnsupportedCaptureSize,
            ) && *final(facility) == *old(facility),
            is_supported_size(size_of::<T>()) ==> r is Ok || r == Err::<Timer<F, T>, BridgeError>(
                BridgeError::RegistrationFailed,
            ),
            r matches Ok(t) ==> t.spec_id() != 0 && t.spec_delay() == delay && t.cell().callback()
                == callback && t.cell().captured() == cbparam,
            r matches Ok(t) ==> final(facility).timers() == old(facility).timers().push(
                ScheduledTimer { interval: delay, active: true },
            ) && t.spec_id() == final(facility).timers().len(),
            r is Err ==> final(facility).timers() == old(facility).timers(),
    {
        let class = match SizeClass::of::<T>() {
            Ok(c) => c,
            Err(e) => {
                return Err(e);
            },
        };
        let cell = Rc::new(CallbackParam::new(callback, cbparam));
        let id = facility.add_timer(delay, class, &cell);
        Timer::from_registration(delay, id, cell)
    }

    /// Cancels the timer with the facility, and only then releases the
    /// callback cell.
    pub fn remove<Fac: TimerFacility>(self, facility: &mut Fac) -> (r: Result<(), BridgeError>)
        ensures
            r is Ok <==> is_active(old(facility).timers(), self.spec_id() as int),
            r is Err ==> r == Err::<(), BridgeError>(BridgeError::RemovalFailed),
            final(facility).timers() == step(
                old(facility).timers(),
                FacilityEvent::Cancel(self.spec_id()),
            ),
    {
        let Timer { raw, closure: _cell, .. } = self;
        let cancelled = facility.remove_timer(raw);
        // `_cell`, the last strong reference, is released on return: after
        // the facility has forgotten the timer.
        removal_outcome(cancelled)
    }
}

/// What a removal reports, given whether the facility still knew the timer.
pub fn removal_outcome(cancelled: bool) -> (r: Result<(), BridgeError>)
    ensures
        cancelled ==> r is Ok,
        !cancelled ==> r == Err::<(), BridgeError>(BridgeError::RemovalFailed),
{
    if cancelled {
        Ok(())
    } else {
        Err(BridgeError::RemovalFailed)
    }
}

} // verus!
