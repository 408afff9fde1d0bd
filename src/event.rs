use vstd::prelude::*;

verus! {

/// The kinds of native event that a navigation control reports.
#[derive(Clone, Copy, Debug, PartialEq, Eq, Structural)]
pub enum EventKind {
    Click,
}

/// Pointer position of a click, in control pixels.
#[derive(Clone, Copy, Debug, PartialEq, Eq, Structural)]
pub struct ClickEvent {
    pub x: i64,
    pub y: i64,
}

/// A decoded event: its kind and the fields of that kind.
#[derive(Clone, Copy, Debug, PartialEq, Eq, Structural)]
pub enum NavigationEvent {
    Click(ClickEvent),
}

/// Every supported kind, in the order the subscriptions are made.
pub open spec fn all_kinds() -> Seq<EventKind> {
    seq![EventKind::Click]
}

pub open spec fn kind_of(e: NavigationEvent) -> EventKind {
    match e {
        NavigationEvent::Click(_) => EventKind::Click,
    }
}

impl EventKind {
    /// Every supported kind.
    pub fn all() -> (r: Vec<EventKind>)
        ensures
            r@ == all_kinds(),
    {
        let r = vec![EventKind::Click];
        assert(r@ =~= all_kinds());
        r
    }

    /// The name under which the native control reports this kind.
    pub fn name(&self) -> (r: &'static str)
        ensures
            *self == EventKind::Click ==> r@ == "click"@,
    {
        match self {
            EventKind::Click => "click",
        }
    }
}

impl NavigationEvent {
    pub fn kind(&self) -> (r: EventKind)
        ensures
            r == kind_of(*self),
    {
        match self {
            NavigationEvent::Click(_) => EventKind::Click,
        }
    }
}

} // verus!
