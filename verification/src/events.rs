//! The decisions of the window's event loop: what to do on each event, and
//! when to stop rendering.
use vstd::prelude::*;

verus! {

/// The window events that the application reacts to.
#[derive(Clone, Copy, Debug, PartialEq, Eq, Structural)]
pub enum AppEvent {
    /// All pending events were handled; the application may draw.
    MainEventsCleared,
    /// The user asked to close the window.
    CloseRequested,
    /// The window got a new size, in pixels.
    Resized { width: u32, height: u32 },
    /// The window system asked for the window to be drawn.
    RedrawRequested,
    /// Any other event.
    Other,
}

/// What the application does in answer to an event.
#[derive(Clone, Copy, Debug, PartialEq, Eq, Structural)]
pub enum AppAction {
    /// Render the model.
    Render,
    /// Leave the event loop, take the model off the GPU and shut the
    /// renderer down.
    Shutdown,
    /// Give the renderer the window's new size.
    Resize { width: u32, height: u32 },
    /// Ask the window system to draw the window.
    RequestRedraw,
    /// Nothing.
    Nothing,
}

/// The state of the event loop: whether the application is shutting down.
#[derive(Clone, Copy, Debug, PartialEq, Eq, Structural)]
pub struct EventLoopState {
    pub destroying: bool,
}

/// The answer to `event` in a loop that is (or is not) shutting down.
pub open spec fn event_action(destroying: bool, event: AppEvent) -> AppAction {
    match event {
        AppEvent::MainEventsCleared => if !destroying {
            AppAction::Render
        } else {
            AppAction::RequestRedraw
        },
        AppEvent::CloseRequested => AppAction::Shutdown,
        AppEvent::Resized { width, height } => AppAction::Resize { width, height },
        AppEvent::RedrawRequested => AppAction::Nothing,
        AppEvent::Other => AppAction::Nothing,
    }
}

/// Whether the loop is shutting down after `event`.
pub open spec fn next_destroying(destroying: bool, event: AppEvent) -> bool {
    destroying || event == AppEvent::CloseRequested
}

impl EventLoopState {
    /// A loop that is not shutting down.
    pub fn new() -> (s: EventLoopState)
        ensures
            !s.destroying,
    {
        EventLoopState { destroying: false }
    }

    /// Decides what to do on `event`: render when all events are handled
    /// (or, once shutting down, only ask for a redraw), shut down when the
    /// window is to close, pass a new size on, and ignore the rest.
    pub fn handle(&mut self, event: AppEvent) -> (action: AppAction)
        ensures
            action == event_action(old(self).destroying, event),
            final(self).destroying == next_destroying(old(self).destroying, event),
            final(self).destroying == (old(self).destroying || event == AppEvent::CloseRequested),
    {
        match event {
            AppEvent::MainEventsCleared => {
                if !self.destroying {
                    AppAction::Render
                } else {
                    AppAction::RequestRedraw
                }
            },
            AppEvent::CloseRequested => {
                self.destroying = true;
                AppAction::Shutdown
            },
            AppEvent::Resized { width, height } => AppAction::Resize { width, height },
            AppEvent::RedrawRequested => AppAction::Nothing,
            AppEvent::Other => AppAction::Nothing,
        }
    }
}

/// The state of the loop after each of `events`, starting from `destroying`.
pub open spec fn destroying_after(destroying: bool, events: Seq<AppEvent>) -> bool
    decreases events.len(),
{
    if events.len() == 0 {
        destroying
    } else {
        next_destroying(destroying_after(destroying, events.drop_last()), events.last())
    }
}

/// Once the loop is shutting down it stays so, whatever events follow, and
/// it never renders again.
pub proof fn lemma_no_render_after_close(events: Seq<AppEvent>, event: AppEvent)
    ensures
        destroying_after(true, events),
        event_action(destroying_after(true, events), event) != AppAction::Render,
    decreases events.len(),
{
    if events.len() > 0 {
        lemma_no_render_after_close(events.drop_last(), event);
    }
}

/// A close request starts the shutdown, from any state, and a loop that is
/// not shutting down renders on every `MainEventsCleared`.
pub proof fn lemma_close_starts_shutdown(destroying: bool)
    ensures
        next_destroying(destroying, AppEvent::CloseRequested),
        event_action(destroying, AppEvent::CloseRequested) == AppAction::Shutdown,
        !destroying ==> event_action(destroying, AppEvent::MainEventsCleared) == AppAction::Render,
{
}

/// Only a close request starts the shutdown: a loop that is not shutting
/// down stays so on every other event, and renders on every
/// `MainEventsCleared`.
pub proof fn lemma_only_close_starts_shutdown(destroying: bool, event: AppEvent)
    ensures
        next_destroying(destroying, event) == (destroying || event == AppEvent::CloseRequested),
        !destroying ==> event_action(destroying, AppEvent::MainEventsCleared) == AppAction::Render,
        destroying ==> event_action(destroying, AppEvent::MainEventsCleared)
            == AppAction::RequestRedraw,
{
}

/// A loop that receives no close request keeps rendering: after any events
/// none of which is `CloseRequested`, it is not shutting down and renders on
/// `MainEventsCleared`.
pub proof fn lemma_renders_until_close(events: Seq<AppEvent>)
    requires
        forall|i: int| 0 <= i < events.len() ==> #[trigger] events[i] != AppEvent::CloseRequested,
    ensures
        !destroying_after(false, events),
        event_action(destroying_after(false, events), AppEvent::MainEventsCleared)
            == AppAction::Render,
    decreases events.len(),
{
    if events.len() > 0 {
        let prefix = events.drop_last();
        assert forall|i: int| 0 <= i < prefix.len() implies #[trigger] prefix[i]
            != AppEvent::CloseRequested by {
            assert(prefix[i] == events[i]);
        }
        lemma_renders_until_close(prefix);
        assert(events.last() == events[events.len() - 1]);
    }
}

} // verus!
