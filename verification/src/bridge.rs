//! The bridge's decisions: what one raw message means for the registration,
//! for the window's slot, and for the caller.
use crate::message::{AppEvent, WM_DESTROY, WM_USER_CREATE};
use crate::registration::{Phase, Registration};
use crate::slot::ContextSlot;
use crate::wide::{encode_wide, utf16, wide};
use vstd::prelude::*;

verus! {

/// The name under which the shell announces that it has created its taskbar.
pub const TASKBAR_CREATED: &'static str = "TaskbarCreated";

/// What the bridge returns to the platform for a message that it has handled
/// itself.
pub const HANDLED: isize = 0;

/// What the caller of [`winproc`] has to do for one message.
#[derive(Debug, PartialEq, Eq)]
pub enum Action<P> {
    /// Hand the message to the next handler of the subclass chain and return
    /// what it returns.
    Delegate,
    /// Register [`TASKBAR_CREATED`] with the platform and pass the answer to
    /// [`Registration::record`].
    Register,
    /// Inject this event through the proxy of the window's slot. A failure to
    /// deliver it is ignored.
    Inject(AppEvent),
    /// Drop this proxy: it has been moved out of the window's slot.
    Release(P),
    /// Nothing is left to do.
    Handled,
}

/// The registration, the slot and the action after one message.
pub struct Reaction<P> {
    /// The registration's phase after the message.
    pub phase: Phase,
    /// What the window's slot holds after the message.
    pub slot: Option<P>,
    /// What is left to the caller.
    pub action: Action<P>,
}

/// The bridge's reaction to the message `msg`, from the registration's phase
/// and from what the window's slot holds.
///
/// A slot that has given up its proxy belongs to a window that is gone, and
/// every message is handed on. While the proxy is there:
/// - the bootstrap message asks for the registration if nobody has asked yet,
///   and is absorbed otherwise;
/// - the dynamic message, once its number is known, injects the event;
/// - the destruction message moves the proxy out of the slot;
/// - any other message is handed on.
pub open spec fn react<P>(phase: Phase, slot: Option<P>, msg: u32) -> Reaction<P> {
    match slot {
        None => Reaction { phase, slot, action: Action::Delegate },
        Some(proxy) => if msg == WM_USER_CREATE {
            Reaction {
                phase: phase.claimed(),
                slot,
                action: if phase is Unregistered {
                    Action::Register
                } else {
                    Action::Handled
                },
            }
        } else if phase == Phase::Armed(msg) {
            Reaction { phase, slot, action: Action::Inject(AppEvent::WindowsTaskbarCreated) }
        } else if msg == WM_DESTROY {
            Reaction { phase, slot: None, action: Action::Release(proxy) }
        } else {
            Reaction { phase, slot, action: Action::Delegate }
        },
    }
}

/// The bridge's window procedure, in typed form.
///
/// Decides what the message `msg` asks for, moves the registration and the
/// slot along, and returns the action that is left to the caller. It performs
/// no effect itself and never fails.
pub fn winproc<P>(registration: &mut Registration, slot: &mut ContextSlot<P>, msg: u32) -> (action:
    Action<P>)
    ensures
        final(registration)@ == react(old(registration)@, old(slot)@, msg).phase,
        final(slot)@ == react(old(registration)@, old(slot)@, msg).slot,
        action == react(old(registration)@, old(slot)@, msg).action,
    no_unwind
{
    if !slot.is_live() {
        Action::Delegate
    } else if msg == WM_USER_CREATE {
        if registration.claim() {
            Action::Register
        } else {
            Action::Handled
        }
    } else if registration.matches(msg) {
        Action::Inject(AppEvent::WindowsTaskbarCreated)
    } else if msg == WM_DESTROY {
        match slot.reclaim() {
            Some(proxy) => Action::Release(proxy),
            // An empty slot was answered above.
            None => Action::Delegate,
        }
    } else {
        Action::Delegate
    }
}

impl<P> Action<P> {
    /// The value that the bridge returns to the platform after this action,
    /// where `default_result` is what the default processing returned.
    pub open spec fn reply_of(self, default_result: isize) -> isize {
        if self is Delegate {
            default_result
        } else {
            HANDLED
        }
    }

    /// Whether the message has to go to the default processing.
    pub fn delegates(&self) -> (yes: bool)
        ensures
            yes == (*self is Delegate),
        no_unwind
    {
        match self {
            Action::Delegate => true,
            _ => false,
        }
    }

    /// The value to return to the platform: the default processing's result,
    /// unchanged, for a message that was handed on, and [`HANDLED`] for any
    /// other. `default_result` is read only where the action delegates.
    pub fn reply(&self, default_result: isize) -> (result: isize)
        ensures
            result == self.reply_of(default_result),
        no_unwind
    {
        if self.delegates() {
            default_result
        } else {
            HANDLED
        }
    }
}

/// The name to register, in the form that the platform reads: the UTF-16
/// units of [`TASKBAR_CREATED`] and a closing zero.
pub fn registered_name() -> (name: Vec<u16>)
    ensures
        name@ == wide(TASKBAR_CREATED@),
        name@ == taskbar_created_units(),
{
    proof {
        taskbar_created_is_plain();
    }
    encode_wide(TASKBAR_CREATED)
}

/// The units of the registered name: one for each of its fourteen letters,
/// and the terminator.
pub open spec fn taskbar_created_units() -> Seq<u16> {
    seq![
        0x54u16, 0x61u16, 0x73u16, 0x6Bu16, 0x62u16, 0x61u16, 0x72u16,
        0x43u16, 0x72u16, 0x65u16, 0x61u16, 0x74u16, 0x65u16, 0x64u16,
        0u16,
    ]
}

/// The registered name is made of letters of the basic alphabet: its wide
/// form holds one unit for each, and no zero before the terminator.
pub proof fn taskbar_created_is_plain()
    ensures
        wide(TASKBAR_CREATED@) == taskbar_created_units(),
        forall|i: int| 0 <= i < 14 ==> taskbar_created_units()[i] != 0,
{
    reveal_strlit("TaskbarCreated");
    let text = TASKBAR_CREATED@;
    assert(text.len() == 14);
    reveal_with_fuel(utf16, 15);
    assert(utf16(text) =~= taskbar_created_units().drop_last());
    assert(wide(text) =~= taskbar_created_units());
}

} // verus!
