use vstd::prelude::*;

use crate::codec::{decode, decode_spec, DecodeError};
use crate::event::{ClickEvent, EventKind, NavigationEvent};
use crate::payload::Payload;

verus! {

/// A non-owning reference to a navigation control. It names the control's
/// place among its registry's controls and keeps nothing alive: once the
/// control is released, every use of the reference finds it gone.
#[derive(Clone, Copy, Debug, PartialEq, Eq, Structural)]
pub struct ControlRef {
    index: usize,
}

impl ControlRef {
    pub closed spec fn id(self) -> nat {
        self.index as nat
    }
}

/// The callbacks an application implements, one per event kind. Each does
/// nothing unless overridden. A callback may use `controls` freely, also to
/// deliver further events; those that reach the control whose callback is
/// running are refused as busy.
pub trait NavigationControlEventListener: Sized {
    fn on_click(&mut self, controls: &mut NavigationControls<Self>, control: ControlRef, e: ClickEvent) {
    }
}

/// The binding of one control: the back-reference that each event kind's
/// dispatch entry carries, and the dispatch cell holding the listener. The
/// cell is empty exactly while a callback of this listener runs.
pub struct NavigationControlHandle<L> {
    control: ControlRef,
    cell: Option<L>,
}

/// A navigation control facade: the owner of its binding.
pub struct NavigationControl<L> {
    handle: NavigationControlHandle<L>,
}

/// The registry that owns every bound control. Controls are released
/// explicitly; a released place is never reused, so a stale `ControlRef`
/// can never reach a later control.
pub struct NavigationControls<L> {
    slots: Vec<Option<NavigationControl<L>>>,
}

/// What became of one native event delivery.
#[derive(Clone, Copy, Debug, PartialEq, Eq)]
pub enum DispatchOutcome {
    /// The listener's callback for the event's kind ran once with this event.
    Delivered(NavigationEvent),
    /// The control had already been released; nothing ran.
    FacadeGone,
    /// The payload did not decode; nothing ran.
    DecodeFailed(DecodeError),
    /// A callback of the same listener was still running; the event is dropped.
    Busy,
}

/// The outcome of delivering an event to the control `id`, given the
/// registry's state (live controls, mapped to whether their listener is busy)
/// and what the payload decodes to. The checks come in this order: the
/// control is still there, the payload decodes, the listener is free.
pub open spec fn dispatch_outcome(
    state: Map<nat, bool>,
    id: nat,
    decoded: Result<NavigationEvent, DecodeError>,
) -> DispatchOutcome {
    if !state.dom().contains(id) {
        DispatchOutcome::FacadeGone
    } else {
        match decoded {
            Err(e) => DispatchOutcome::DecodeFailed(e),
            Ok(ev) => if state[id] {
                DispatchOutcome::Busy
            } else {
                DispatchOutcome::Delivered(ev)
            },
        }
    }
}

impl<L> View for NavigationControls<L> {
    /// The live controls, each mapped to whether its listener is busy.
    type V = Map<nat, bool>;

    closed spec fn view(&self) -> Map<nat, bool> {
        Map::new(
            |i: nat| i < self.slots@.len() && self.slots@[i as int] is Some,
            |i: nat| self.slots@[i as int]->0.handle.cell is None,
        )
    }
}

impl<L> NavigationControls<L> {
    /// Each bound control's binding refers back to the control's own place.
    #[verifier::type_invariant]
    spec fn back_references_match(&self) -> bool {
        forall|i: int|
            0 <= i < self.slots@.len() && #[trigger] self.slots@[i] is Some ==> self.slots@[i]->0.handle.control.index
                == i
    }

    /// A registry with no controls.
    pub fn new() -> (r: Self)
        ensures
            r@ == Map::<nat, bool>::empty(),
    {
        let r = NavigationControls { slots: Vec::new() };
        assert(r@ =~= Map::<nat, bool>::empty());
        r
    }

    /// Whether `control` is still bound.
    pub fn is_alive(&self, control: ControlRef) -> (r: bool)
        ensures
            r == self@.dom().contains(control.id()),
    {
        control.index < self.slots.len() && self.slots[control.index].is_some()
    }

    /// Whether a callback of `control`'s listener is running.
    pub fn is_busy(&self, control: ControlRef) -> (r: bool)
        ensures
            r == (self@.dom().contains(control.id()) && self@[control.id()]),
    {
        if control.index < self.slots.len() {
            match &self.slots[control.index] {
                Some(c) => c.handle.cell.is_none(),
                None => false,
            }
        } else {
            false
        }
    }

    /// Replaces the control in place `i`, handing out what was there.
    fn swap_slot(&mut self, i: usize, v: Option<NavigationControl<L>>) -> (r: Option<NavigationControl<L>>)
        requires
            i < old(self).slots@.len(),
            v matches Some(c) ==> c.handle.control.index == i,
        ensures
            r == old(self).slots@[i as int],
            final(self).slots@ == old(self).slots@.update(i as int, v),
            r matches Some(c) ==> c.handle.control.index == i,
    {
        proof {
            use_type_invariant(&*self);
        }
        let mut slots = Vec::new();
        std::mem::swap(&mut slots, &mut self.slots);
        let mut v = v;
        std::mem::swap(&mut v, &mut slots[i]);
        self.slots = slots;
        v
    }

    /// Releases `control`: its binding and listener are dropped, and every
    /// later delivery to it finds it gone. Releasing twice does nothing more.
    pub fn release(&mut self, control: ControlRef)
        ensures
            final(self)@ == old(self)@.remove(control.id()),
    {
        if control.index < self.slots.len() {
            self.swap_slot(control.index, None);
        }
        assert(final(self)@ =~= old(self)@.remove(control.id()));
    }

    /// Empties the dispatch cell of the control in place `i`, handing out
    /// what it held.
    fn take_listener(&mut self, i: usize) -> (r: Option<L>)
        requires
            i < old(self).slots@.len(),
            old(self).slots@[i as int] is Some,
        ensures
            r == old(self).slots@[i as int]->0.handle.cell,
            final(self)@ == old(self)@.insert(i as nat, true),
    {
        let ghost pre = *self;
        let mut slot = self.swap_slot(i, None);
        let r = match &mut slot {
            Some(c) => c.handle.cell.take(),
            None => None,
        };
        self.swap_slot(i, slot);
        assert(final(self)@ =~= pre@.insert(i as nat, true));
        r
    }

    /// Puts `listener` back into the dispatch cell of the control in place
    /// `i` if that control is still bound with an empty cell; drops it
    /// otherwise.
    fn return_listener(&mut self, i: usize, listener: L)
        ensures
            final(self)@.dom() == old(self)@.dom(),
            forall|j: nat| #[trigger] final(self)@.dom().contains(j) && j != i ==> final(self)@[j] == old(self)@[j],
            final(self)@.dom().contains(i as nat) ==> !final(self)@[i as nat],
    {
        let ghost pre = *self;
        if i < self.slots.len() {
            let mut slot = self.swap_slot(i, None);
            match &mut slot {
                Some(c) => {
                    if c.handle.cell.is_none() {
                        c.handle.cell = Some(listener);
                    }
                },
                None => {},
            }
            self.swap_slot(i, slot);
        }
        assert(final(self)@.dom() =~= pre@.dom());
    }
}

impl<L: NavigationControlEventListener> NavigationControls<L> {
    /// Delivers one native event of `kind` to `control`. When the control is
    /// still bound, the payload decodes and the listener is free, the
    /// listener's callback for the kind runs once with the decoded event and
    /// the listener is free again afterwards. In every other case nothing
    /// runs and nothing changes; the outcome says why.
    pub fn dispatch(&mut self, control: ControlRef, kind: EventKind, payload: &Payload) -> (r:
        DispatchOutcome)
        ensures
            r == dispatch_outcome(old(self)@, control.id(), decode_spec(kind, *payload)),
            !(r is Delivered) ==> *final(self) == *old(self),
            r is Delivered && final(self)@.dom().contains(control.id()) ==> !final(self)@[control.id()],
    {
        let i = control.index;
        if i >= self.slots.len() || self.slots[i].is_none() {
            return DispatchOutcome::FacadeGone;
        }
        let event = match decode(kind, payload) {
            Ok(e) => e,
            Err(e) => return DispatchOutcome::DecodeFailed(e),
        };
        if self.is_busy(control) {
            return DispatchOutcome::Busy;
        }
        let mut listener = self.take_listener(i).unwrap();
        match event {
            NavigationEvent::Click(e) => listener.on_click(self, control, e),
        }
        self.return_listener(i, listener);
        DispatchOutcome::Delivered(event)
    }
}

impl<L: NavigationControlEventListener> NavigationControl<L> {
    /// Binds `f` to a new control in `controls` and hands back the reference
    /// under which the native control's events are delivered. The new control
    /// is distinct from every other, live or released, and its listener is free.
    pub fn with_listener(controls: &mut NavigationControls<L>, f: L) -> (r: ControlRef)
        ensures
            !old(controls)@.dom().contains(r.id()),
            final(controls)@ == old(controls)@.insert(r.id(), false),
    {
        let control = ControlRef { index: controls.slots.len() };
        let handle = NavigationControlHandle { control, cell: Some(f) };
        proof {
            use_type_invariant(&*controls);
        }
        let mut slots = Vec::new();
        std::mem::swap(&mut slots, &mut controls.slots);
        slots.push(Some(NavigationControl { handle }));
        controls.slots = slots;
        assert(final(controls)@ =~= old(controls)@.insert(control.id(), false));
        control
    }
}

} // verus!
