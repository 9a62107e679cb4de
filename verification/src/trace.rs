//! The bridge over time: what holds of every sequence of inputs.
//!
//! One window's bridge is fed by two sources: the raw messages that reach
//! [`winproc`](crate::bridge::winproc), and the platform's answers that reach
//! [`Registration::record`](crate::registration::Registration::record). A
//! history is any sequence of such inputs, in any order.
use crate::bridge::{react, Action};
use crate::message::{AppEvent, WM_DESTROY, WM_USER_CREATE};
use crate::registration::{registration_is_one_way, Phase};
use vstd::prelude::*;

verus! {

/// One thing that happens to a bridge.
pub enum Input {
    /// A raw message with this number is delivered to the window.
    Message(u32),
    /// The platform answers the registration with this number.
    Registered(u32),
}

/// A bridge between two inputs: the registration's phase and what the window's
/// slot holds.
pub struct Bridge<P> {
    pub phase: Phase,
    pub slot: Option<P>,
}

impl<P> Bridge<P> {
    /// The bridge after one input.
    pub open spec fn step(self, input: Input) -> Bridge<P> {
        match input {
            Input::Message(msg) => Bridge {
                phase: react(self.phase, self.slot, msg).phase,
                slot: react(self.phase, self.slot, msg).slot,
            },
            Input::Registered(id) => Bridge { phase: self.phase.recorded(id), slot: self.slot },
        }
    }

    /// The action that one input asks of the caller. An answer of the platform
    /// asks for none.
    pub open spec fn action(self, input: Input) -> Option<Action<P>> {
        match input {
            Input::Message(msg) => Some(react(self.phase, self.slot, msg).action),
            Input::Registered(_) => None,
        }
    }

    /// The bridge after the first `n` of `inputs`.
    pub open spec fn after(self, inputs: Seq<Input>, n: nat) -> Bridge<P>
        recommends
            n <= inputs.len(),
        decreases n,
    {
        if n == 0 {
            self
        } else {
            self.after(inputs, (n - 1) as nat).step(inputs[n - 1])
        }
    }

    /// The action that the input at position `i` asks for.
    pub open spec fn action_at(self, inputs: Seq<Input>, i: int) -> Option<Action<P>>
        recommends
            0 <= i < inputs.len(),
    {
        self.after(inputs, i as nat).action(inputs[i])
    }

    /// Whether the input at position `i` is the dynamic message, arriving at a
    /// window that lives, under the number that the platform assigned.
    pub open spec fn arrives_at(self, inputs: Seq<Input>, i: int) -> bool
        recommends
            0 <= i < inputs.len(),
    {
        &&& inputs[i] matches Input::Message(msg)
        &&& msg != WM_USER_CREATE
        &&& self.after(inputs, i as nat).phase == Phase::Armed(msg)
        &&& self.after(inputs, i as nat).slot is Some
    }

    /// How often the first `n` of `inputs` ask for the registration.
    pub open spec fn registrations(self, inputs: Seq<Input>, n: nat) -> nat
        recommends
            n <= inputs.len(),
        decreases n,
    {
        if n == 0 {
            0
        } else if self.action_at(inputs, n - 1) == Some(Action::<P>::Register) {
            self.registrations(inputs, (n - 1) as nat) + 1
        } else {
            self.registrations(inputs, (n - 1) as nat)
        }
    }

    /// How often the first `n` of `inputs` ask for an injection.
    pub open spec fn injections(self, inputs: Seq<Input>, n: nat) -> nat
        recommends
            n <= inputs.len(),
        decreases n,
    {
        if n == 0 {
            0
        } else if self.action_at(inputs, n - 1) matches Some(action) && action is Inject {
            self.injections(inputs, (n - 1) as nat) + 1
        } else {
            self.injections(inputs, (n - 1) as nat)
        }
    }

    /// How often the first `n` of `inputs` move the proxy out of the slot.
    pub open spec fn releases(self, inputs: Seq<Input>, n: nat) -> nat
        recommends
            n <= inputs.len(),
        decreases n,
    {
        if n == 0 {
            0
        } else if self.action_at(inputs, n - 1) matches Some(action) && action is Release {
            self.releases(inputs, (n - 1) as nat) + 1
        } else {
            self.releases(inputs, (n - 1) as nat)
        }
    }

    /// How often the dynamic message arrives among the first `n` of `inputs`.
    pub open spec fn arrivals(self, inputs: Seq<Input>, n: nat) -> nat
        recommends
            n <= inputs.len(),
        decreases n,
    {
        if n == 0 {
            0
        } else if self.arrives_at(inputs, n - 1) {
            self.arrivals(inputs, (n - 1) as nat) + 1
        } else {
            self.arrivals(inputs, (n - 1) as nat)
        }
    }
}

/// A message that is neither the bootstrap message nor the dynamic message
/// passes through: the registration and the slot stay as they are, and the
/// bridge returns what the default processing returned. The destruction
/// message is handled by the bridge while the slot holds its proxy, and passes
/// through afterwards.
pub proof fn unrelated_messages_pass_through<P>(
    phase: Phase,
    slot: Option<P>,
    msg: u32,
    default_result: isize,
)
    requires
        msg != WM_USER_CREATE,
        phase.dynamic_id() != Some(msg),
        msg == WM_DESTROY ==> slot is None,
    ensures
        react(phase, slot, msg).action == Action::<P>::Delegate,
        react(phase, slot, msg).action.reply_of(default_result) == default_result,
        react(phase, slot, msg).phase == phase,
        react(phase, slot, msg).slot == slot,
{
}

/// Each arrival of the dynamic message at a live window injects exactly one
/// event and changes nothing, and no other message injects anything. The
/// bootstrap message takes precedence where the platform assigned its number
/// to the name.
pub proof fn each_dynamic_message_injects_once<P>(phase: Phase, slot: Option<P>, msg: u32)
    ensures
        react(phase, slot, msg).action is Inject <==> slot is Some && phase == Phase::Armed(msg)
            && msg != WM_USER_CREATE,
        react(phase, slot, msg).action is Inject ==> {
            &&& react(phase, slot, msg).action == Action::<P>::Inject(
                AppEvent::WindowsTaskbarCreated,
            )
            &&& react(phase, slot, msg).phase == phase
            &&& react(phase, slot, msg).slot == slot
        },
{
}

/// Only the bootstrap message asks for the registration, and only of a
/// registration that nothing has touched: the request moves it to `Pending`,
/// from where no window's bridge can ask again.
pub proof fn only_first_bootstrap_registers<P>(phase: Phase, slot: Option<P>, msg: u32)
    ensures
        react(phase, slot, msg).action is Register <==> slot is Some && msg == WM_USER_CREATE
            && phase is Unregistered,
        react(phase, slot, msg).action is Register ==> react(phase, slot, msg).phase
            is Pending && react(phase, slot, msg).slot == slot,
        !(react(phase, slot, msg).action is Register) ==> react(phase, slot, msg).phase == phase,
{
}

/// While the registration is degraded or not yet answered, no message injects
/// an event.
pub proof fn unarmed_bridge_never_injects<P>(phase: Phase, slot: Option<P>, msg: u32)
    requires
        !(phase is Armed),
    ensures
        !(react(phase, slot, msg).action is Inject),
        !(react(phase, slot, msg).phase is Armed),
{
}

/// The proxy leaves the slot on the destruction message and on no other, and
/// the action hands over the very proxy that the slot held.
pub proof fn only_destruction_releases<P>(phase: Phase, slot: Option<P>, msg: u32)
    ensures
        react(phase, slot, msg).action is Release <==> slot is Some && msg == WM_DESTROY && phase
            != Phase::Armed(msg),
        react(phase, slot, msg).action is Release ==> slot == Some(
            react(phase, slot, msg).action->Release_0,
        ) && react(phase, slot, msg).slot is None,
        !(react(phase, slot, msg).action is Release) ==> react(phase, slot, msg).slot == slot,
{
}

/// The registration never loses progress along a history, and stays well
/// formed.
pub proof fn progress_never_falls<P>(bridge: Bridge<P>, inputs: Seq<Input>, i: nat, j: nat)
    requires
        i <= j <= inputs.len(),
    ensures
        bridge.after(inputs, i).phase.progress() <= bridge.after(inputs, j).phase.progress(),
        bridge.phase.wf() ==> bridge.after(inputs, j).phase.wf(),
    decreases j,
{
    if j > 0 {
        let before = bridge.after(inputs, (j - 1) as nat);
        if i < j {
            progress_never_falls(bridge, inputs, i, (j - 1) as nat);
        } else {
            progress_never_falls(bridge, inputs, (j - 1) as nat, (j - 1) as nat);
        }
        if before.phase.wf() {
            match inputs[j - 1] {
                Input::Message(_) => registration_is_one_way(before.phase, 0),
                Input::Registered(id) => registration_is_one_way(before.phase, id),
            }
        }
    }
}

/// A slot that has given up its proxy stays empty along a history.
pub proof fn released_slot_stays_empty<P>(bridge: Bridge<P>, inputs: Seq<Input>, i: nat, j: nat)
    requires
        i <= j <= inputs.len(),
        bridge.after(inputs, i).slot is None,
    ensures
        bridge.after(inputs, j).slot is None,
    decreases j,
{
    if i < j {
        released_slot_stays_empty(bridge, inputs, i, (j - 1) as nat);
    }
}

/// The registration is asked for at most once, however many bootstrap messages
/// are delivered: no history holds two inputs that both ask for it.
pub proof fn registers_at_most_once<P>(bridge: Bridge<P>, inputs: Seq<Input>, i: int, j: int)
    requires
        0 <= i < j < inputs.len(),
        bridge.action_at(inputs, i) == Some(Action::<P>::Register),
    ensures
        bridge.action_at(inputs, j) != Some(Action::<P>::Register),
{
    let first = bridge.after(inputs, i as nat);
    assert(bridge.after(inputs, (i + 1) as nat) == first.step(inputs[i]));
    assert(first.phase is Unregistered);
    assert(first.step(inputs[i]).phase is Pending);
    progress_never_falls(bridge, inputs, (i + 1) as nat, j as nat);
}

/// Once the registration has been asked for, reached an answer or failed, no
/// later input asks for it again.
pub proof fn touched_registration_is_not_asked_again<P>(
    bridge: Bridge<P>,
    inputs: Seq<Input>,
    i: int,
)
    requires
        0 <= i < inputs.len(),
        !(bridge.phase is Unregistered),
    ensures
        bridge.action_at(inputs, i) != Some(Action::<P>::Register),
{
    progress_never_falls(bridge, inputs, 0, i as nat);
}

/// After the destruction of the window nothing reaches for its proxy again:
/// the slot stays empty, and every later message is handed on without an
/// injection or a second release.
pub proof fn nothing_follows_the_release<P>(bridge: Bridge<P>, inputs: Seq<Input>, i: int, j: int)
    requires
        0 <= i < j < inputs.len(),
        bridge.action_at(inputs, i) matches Some(action) && action is Release,
    ensures
        bridge.after(inputs, j as nat).slot is None,
        bridge.after(inputs, (j + 1) as nat).slot is None,
        inputs[j] is Message ==> bridge.action_at(inputs, j) == Some(Action::<P>::Delegate),
        inputs[j] is Registered ==> bridge.action_at(inputs, j) is None,
{
    let first = bridge.after(inputs, i as nat);
    assert(bridge.after(inputs, (i + 1) as nat) == first.step(inputs[i]));
    released_slot_stays_empty(bridge, inputs, (i + 1) as nat, j as nat);
    released_slot_stays_empty(bridge, inputs, (i + 1) as nat, (j + 1) as nat);
}

/// A bridge whose slot is empty hands every message on and keeps the slot
/// empty, whatever the history.
pub proof fn dead_bridge_is_transparent<P>(bridge: Bridge<P>, inputs: Seq<Input>, i: int)
    requires
        0 <= i < inputs.len(),
        bridge.slot is None,
    ensures
        bridge.after(inputs, i as nat).slot is None,
        inputs[i] is Message ==> bridge.action_at(inputs, i) == Some(Action::<P>::Delegate),
{
    released_slot_stays_empty(bridge, inputs, 0, i as nat);
}

/// A history asks for the registration once if it leads an untouched
/// registration out of that phase, and never otherwise: so at most once,
/// however many bootstrap messages it holds.
pub proof fn registrations_are_counted<P>(bridge: Bridge<P>, inputs: Seq<Input>, n: nat)
    requires
        n <= inputs.len(),
    ensures
        bridge.registrations(inputs, n) == if bridge.phase is Unregistered && !(bridge.after(
            inputs,
            n,
        ).phase is Unregistered) {
            1nat
        } else {
            0nat
        },
        bridge.registrations(inputs, n) <= 1,
    decreases n,
{
    if n > 0 {
        registrations_are_counted(bridge, inputs, (n - 1) as nat);
        progress_never_falls(bridge, inputs, 0, (n - 1) as nat);
    }
}

/// A history moves the proxy out of the slot once if it starts with the proxy
/// and ends without it, and never otherwise: so at most once.
pub proof fn releases_are_counted<P>(bridge: Bridge<P>, inputs: Seq<Input>, n: nat)
    requires
        n <= inputs.len(),
    ensures
        bridge.releases(inputs, n) == if bridge.slot is Some && bridge.after(inputs, n).slot
            is None {
            1nat
        } else {
            0nat
        },
        bridge.releases(inputs, n) <= 1,
    decreases n,
{
    if n > 0 {
        releases_are_counted(bridge, inputs, (n - 1) as nat);
        if bridge.slot is None {
            released_slot_stays_empty(bridge, inputs, 0, (n - 1) as nat);
        }
    }
}

/// A history asks for as many injections as it holds arrivals of the dynamic
/// message: one for each, and none besides.
pub proof fn injections_match_arrivals<P>(bridge: Bridge<P>, inputs: Seq<Input>, n: nat)
    requires
        n <= inputs.len(),
    ensures
        bridge.injections(inputs, n) == bridge.arrivals(inputs, n),
    decreases n,
{
    if n > 0 {
        injections_match_arrivals(bridge, inputs, (n - 1) as nat);
    }
}

} // verus!
