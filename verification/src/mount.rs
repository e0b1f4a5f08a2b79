//! What mounting the root wires up, and in which order.

use vstd::prelude::*;

verus! {

/// The events that the root listens for on behalf of everything below it.
#[derive(Debug, Clone, Copy, PartialEq, Eq, Structural)]
pub enum GlobalEvent {
    KeyDown,
    Click,
    MouseUp,
    Resize,
    Scroll,
}

/// Where an event is listened for.
#[derive(Debug, Clone, Copy, PartialEq, Eq, Structural)]
pub enum EventSource {
    Window,
    Document,
}

/// What the host offers to listen on.
#[derive(Debug, Clone, Copy, PartialEq, Eq, Structural)]
pub struct Host {
    /// Whether there is a window.
    pub window: bool,
    /// Whether there is a document.
    pub document: bool,
}

/// One thing that mounting the root does.
#[derive(Debug, Clone, Copy, PartialEq, Eq, Structural)]
pub enum MountStep {
    /// Warn that a root is already mounted higher up.
    WarnAlreadyMounted,
    /// Provide the context of `event`. With `listening` a handler on the
    /// event's source feeds it; without, the context stays silent.
    ProvideEvent { event: GlobalEvent, listening: bool },
    /// Publish the viewport height.
    UpdateViewportHeight,
    /// Publish the viewport height again whenever the window is resized.
    FollowResize,
    /// Provide the root context.
    ProvideRoot,
}

impl GlobalEvent {
    /// Where this event is listened for: resizing on the window, everything
    /// else on the document.
    pub open spec fn heard_on(self) -> EventSource {
        match self {
            GlobalEvent::Resize => EventSource::Window,
            _ => EventSource::Document,
        }
    }

    /// Where this event is listened for.
    pub fn source(self) -> (source: EventSource)
        ensures
            source == self.heard_on(),
    {
        match self {
            GlobalEvent::Resize => EventSource::Window,
            _ => EventSource::Document,
        }
    }
}

impl Host {
    /// Whether the host has `source`.
    pub open spec fn has(self, source: EventSource) -> bool {
        match source {
            EventSource::Window => self.window,
            EventSource::Document => self.document,
        }
    }

    /// Whether the host has `source`.
    pub fn offers(&self, source: EventSource) -> (offered: bool)
        ensures
            offered == self.has(source),
    {
        match source {
            EventSource::Window => self.window,
            EventSource::Document => self.document,
        }
    }
}

/// The global events, in the order in which their contexts are provided.
pub open spec fn events() -> Seq<GlobalEvent> {
    seq![
        GlobalEvent::KeyDown,
        GlobalEvent::Click,
        GlobalEvent::MouseUp,
        GlobalEvent::Resize,
        GlobalEvent::Scroll,
    ]
}

/// The step that provides the context of `event` on `host`: it listens
/// exactly when the host has the event's source.
pub open spec fn provide(event: GlobalEvent, host: Host) -> MountStep {
    MountStep::ProvideEvent { event, listening: host.has(event.heard_on()) }
}

/// What mounting the root does, in order.
///
/// Everything is wired once. The outermost root provides the context of
/// every global event, whether or not there is anything to listen on,
/// publishes the viewport height, and follows it if there is a window to
/// resize. A root below another one is warned about and wires nothing: it
/// installs no handler, adds no listener and provides no event context, so
/// that what the outer root set up stays in force and in sight below it. It
/// only publishes the height again. The root context comes last either way.
pub open spec fn plan(already_mounted: bool, host: Host) -> Seq<MountStep> {
    if already_mounted {
        seq![
            MountStep::WarnAlreadyMounted,
            MountStep::UpdateViewportHeight,
            MountStep::ProvideRoot,
        ]
    } else {
        let follow = if host.window {
            seq![MountStep::FollowResize]
        } else {
            Seq::empty()
        };
        Seq::new(events().len(), |i: int| provide(events()[i], host))
            + seq![MountStep::UpdateViewportHeight] + follow + seq![MountStep::ProvideRoot]
    }
}

/// Whether a step puts a handler or a listener on the window or the document.
pub open spec fn registers(step: MountStep) -> bool {
    step == MountStep::FollowResize || step matches MountStep::ProvideEvent { listening: true, .. }
}

/// A root below another one warns, and changes nothing in what is registered:
/// no step of its plan installs a handler or adds a listener, and none
/// provides an event context that would hide the outer root's.
pub proof fn second_mount_registers_nothing(host: Host)
    ensures
        plan(true, host).contains(MountStep::WarnAlreadyMounted),
        forall|i: int|
            0 <= i < plan(true, host).len() ==> plan(true, host)[i] != MountStep::FollowResize
                && !(plan(true, host)[i] matches MountStep::ProvideEvent { listening: true, .. }),
        forall|i: int|
            0 <= i < plan(true, host).len() ==> !registers(#[trigger] plan(true, host)[i])
                && !(plan(true, host)[i] is ProvideEvent),
{
    assert(plan(true, host)[0] == MountStep::WarnAlreadyMounted);
}

/// The outermost root provides the context of every global event once, in
/// the order of [`events`], each listening exactly when the host has the
/// event's source; and it follows resizes exactly when there is a window.
pub proof fn first_mount_provides_every_event(host: Host)
    ensures
        forall|k: int|
            0 <= k < events().len() ==> plan(false, host)[k] == #[trigger] provide(
                events()[k],
                host,
            ),
        forall|i: int|
            events().len() <= i < plan(false, host).len() ==> !(#[trigger] plan(false, host)[i]
                is ProvideEvent),
        plan(false, host).contains(MountStep::FollowResize) <==> host.window,
{
    let steps = plan(false, host);
    assert(events().len() == 5);
    if host.window {
        assert(steps[6] == MountStep::FollowResize);
    }
}

/// Whatever the host, and whether or not a root is mounted already: the
/// viewport height is published; the root context is provided last and only
/// then; and a warning is given exactly when a root is mounted already, and
/// then first.
pub proof fn plan_shape(already_mounted: bool, host: Host)
    ensures
        plan(already_mounted, host).contains(MountStep::UpdateViewportHeight),
        plan(already_mounted, host).last() == MountStep::ProvideRoot,
        forall|i: int|
            0 <= i < plan(already_mounted, host).len() - 1 ==> plan(already_mounted, host)[i]
                != MountStep::ProvideRoot,
        plan(already_mounted, host).contains(MountStep::WarnAlreadyMounted) <==> already_mounted,
        already_mounted ==> plan(already_mounted, host)[0] == MountStep::WarnAlreadyMounted,
{
    let steps = plan(already_mounted, host);
    assert(events().len() == 5);
    if already_mounted {
        assert(steps[0] == MountStep::WarnAlreadyMounted);
        assert(steps[1] == MountStep::UpdateViewportHeight);
    } else {
        assert(steps[5] == MountStep::UpdateViewportHeight);
        assert forall|i: int| 0 <= i < steps.len() implies steps[i]
            != MountStep::WarnAlreadyMounted && (steps[i] == MountStep::ProvideRoot ==> i
            == steps.len() - 1) by {
            if i < 5 {
                assert(steps[i] == provide(events()[i], host));
            }
        }
    }
}

/// What to do to mount the root on `host`, in order. `already_mounted` tells
/// whether a root context is already in reach.
pub fn mount_plan(already_mounted: bool, host: Host) -> (steps: Vec<MountStep>)
    ensures
        steps@ == plan(already_mounted, host),
{
    let mut steps: Vec<MountStep> = Vec::new();
    if already_mounted {
        steps.push(MountStep::WarnAlreadyMounted);
        steps.push(MountStep::UpdateViewportHeight);
        steps.push(MountStep::ProvideRoot);
        assert(steps@ =~= plan(already_mounted, host));
        return steps;
    }
    let order = [
        GlobalEvent::KeyDown,
        GlobalEvent::Click,
        GlobalEvent::MouseUp,
        GlobalEvent::Resize,
        GlobalEvent::Scroll,
    ];
    assert(order@ =~= events());
    for i in 0..5usize
        invariant
            order@ == events(),
            steps@ == Seq::new(i as nat, |k: int| provide(events()[k], host)),
    {
        let event = order[i];
        let listening = host.offers(event.source());
        steps.push(MountStep::ProvideEvent { event, listening });
        assert(steps@ =~= Seq::new((i + 1) as nat, |k: int| provide(events()[k], host)));
    }
    steps.push(MountStep::UpdateViewportHeight);
    if host.window {
        steps.push(MountStep::FollowResize);
    }
    steps.push(MountStep::ProvideRoot);
    assert(steps@ =~= plan(already_mounted, host));
    steps
}

} // verus!
