//! The application: owner of the window registry and the shared capability
//! set, and the single-threaded event dispatcher.
//!
//! Each OS event is handled synchronously to completion: the dispatcher
//! looks the target window up by id, mutates the model state, and returns
//! the ordered list of actions the windowing layer must perform (resize a
//! swap surface, destroy a window, open one, repaint, request the next
//! redraw, leave the loop). An event for an id no longer registered is
//! silently dropped: a close may race with in-flight events for that
//! window, which is expected and not an error.
//!
//! The whole behavior of one dispatch step is pinned by the specification
//! function [`spec_dispatch`]; the executable dispatcher is proved to
//! produce exactly that state and those actions.

use crate::canvas::{spec_white, Color};
use crate::capability::CapabilitySet;
use crate::registry::{spec_has_window, spec_window_index, WindowRegistry};
use crate::text::{spec_window_title, window_title};
use crate::window::{
    spec_painted_window, spec_redraw_due, spec_resized_window, Window,
};
use vstd::prelude::*;

verus! {

/// The process-wide last-known keyboard modifier state, updated on
/// modifier-change events and read by shortcut handling.
#[derive(Clone, Copy, PartialEq, Eq, Structural, Debug)]
pub struct ModifierState {
    /// A shift key is held.
    pub shift: bool,
    /// A control key is held.
    pub control: bool,
    /// An alt key is held.
    pub alt: bool,
    /// A logo (super) key is held.
    pub logo: bool,
}

/// The modifier state with no key held, the initial assumption at startup.
pub open spec fn spec_no_modifiers() -> ModifierState {
    ModifierState { shift: false, control: false, alt: false, logo: false }
}

impl Default for ModifierState {
    /// The modifier state with no key held.
    fn default() -> (state: ModifierState)
        ensures
            state == spec_no_modifiers(),
    {
        ModifierState { shift: false, control: false, alt: false, logo: false }
    }
}

/// One OS window event, as the dispatcher sees it. Event kinds that exist
/// in the OS vocabulary but carry no behavior here arrive as `Ignored`.
#[derive(Clone, Copy, Debug)]
pub enum WindowEvent {
    /// The window's physical size changed.
    Resized {
        /// New width in physical pixels.
        width: u32,
        /// New height in physical pixels.
        height: u32,
    },
    /// The OS or the user asked to close the window.
    CloseRequested,
    /// A keyboard key changed state in the window.
    KeyInput {
        /// The character of the key, when it produces a single character.
        key: Option<char>,
        /// Whether the key was released (rather than pressed).
        released: bool,
        /// Whether this is an auto-repeat of a held key.
        repeat: bool,
    },
    /// The held keyboard modifiers changed.
    ModifiersChanged {
        /// The new modifier state.
        modifiers: ModifierState,
    },
    /// The window was asked to redraw, by the periodic tick or by the
    /// redraw cascade.
    RedrawRequested,
    /// Any event kind the shell accepts and ignores.
    Ignored,
}

/// An action the windowing layer must perform after a dispatch step, in
/// the order returned.
#[derive(Debug)]
pub enum Action {
    /// Resize the window's swap surface to the new physical size, then
    /// rebuild its drawing surface from the resized framebuffer.
    ResizeSurface {
        /// The target window's id.
        id: u64,
        /// New width in physical pixels.
        width: u32,
        /// New height in physical pixels.
        height: u32,
    },
    /// Release the window's OS handle and GPU resources; its context must
    /// be made current one final time immediately before they are freed.
    DestroyWindow {
        /// The id of the window to destroy.
        id: u64,
    },
    /// Leave the event loop: the registry has become empty.
    Exit,
    /// Create a new OS window with this title, then register it.
    OpenWindow {
        /// The new window's title.
        title: String,
    },
    /// Make the window's context current, reset its canvas to `background`,
    /// invoke the renderer callback for frame `frame`, flush, and present.
    Repaint {
        /// The target window's id.
        id: u64,
        /// The index of the frame to paint.
        frame: u64,
        /// The color the canvas was cleared to.
        background: Color,
    },
    /// Ask the OS to schedule a redraw of the window.
    RequestRedraw {
        /// The id of the window to redraw next.
        id: u64,
    },
}

/// The specification-level form of an [`Action`], with the title as a
/// character sequence.
pub enum ActionModel {
    /// Resize the window's swap surface and rebuild its drawing surface.
    ResizeSurface {
        /// The target window's id.
        id: u64,
        /// New width in physical pixels.
        width: u32,
        /// New height in physical pixels.
        height: u32,
    },
    /// Release the window's OS handle and GPU resources.
    DestroyWindow {
        /// The id of the window to destroy.
        id: u64,
    },
    /// Leave the event loop.
    Exit,
    /// Create and register a new OS window with this title.
    OpenWindow {
        /// The new window's title.
        title: Seq<char>,
    },
    /// Reset the canvas, paint frame `frame`, and present.
    Repaint {
        /// The target window's id.
        id: u64,
        /// The index of the frame to paint.
        frame: u64,
        /// The color the canvas was cleared to.
        background: Color,
    },
    /// Ask the OS to schedule a redraw of the window.
    RequestRedraw {
        /// The id of the window to redraw next.
        id: u64,
    },
}

impl View for Action {
    type V = ActionModel;

    open spec fn view(&self) -> ActionModel {
        match self {
            Action::ResizeSurface { id, width, height } => ActionModel::ResizeSurface {
                id: *id,
                width: *width,
                height: *height,
            },
            Action::DestroyWindow { id } => ActionModel::DestroyWindow { id: *id },
            Action::Exit => ActionModel::Exit,
            Action::OpenWindow { title } => ActionModel::OpenWindow { title: title@ },
            Action::Repaint { id, frame, background } => ActionModel::Repaint {
                id: *id,
                frame: *frame,
                background: *background,
            },
            Action::RequestRedraw { id } => ActionModel::RequestRedraw { id: *id },
        }
    }
}

/// The specification-level form of a batch of actions, in order.
pub open spec fn spec_action_models(actions: Seq<Action>) -> Seq<ActionModel> {
    actions.map(|i: int, a: Action| a@)
}

/// The specification-level state of the application: the live windows in
/// registry order, the shared immutable capability set, the last-known
/// modifier state, whether loop termination has been signalled, and which
/// window's graphics context is current on the dispatch thread, if any.
pub struct AppState {
    /// The live windows, in registry order.
    pub windows: Seq<Window>,
    /// The process-wide last-known keyboard modifier state.
    pub modifiers: ModifierState,
    /// The capability set negotiated once at startup, never renegotiated.
    pub capabilities: CapabilitySet,
    /// Whether loop termination has been signalled.
    pub exiting: bool,
    /// The window whose graphics context is current on the dispatch
    /// thread, if any: at most one context is ever current.
    pub current_context: Option<u64>,
}

/// Closing a window: the target is removed from the registry, every window
/// at a higher position shifts down by one, and the closing window's
/// context is made current for teardown. When the registry becomes empty,
/// loop termination is signalled.
pub open spec fn spec_close(state: AppState, target: u64) -> (AppState, Seq<ActionModel>)
    recommends
        spec_has_window(state.windows, target),
{
    let i = spec_window_index(state.windows, target);
    let remaining = state.windows.remove(i);
    let next = AppState {
        windows: remaining,
        exiting: state.exiting || remaining.len() == 0,
        current_context: Some(target),
        ..state
    };
    if remaining.len() == 0 {
        (next, seq![ActionModel::DestroyWindow { id: target }, ActionModel::Exit])
    } else {
        (next, seq![ActionModel::DestroyWindow { id: target }])
    }
}

/// Handling a redraw request: the target repaints only when more than the
/// target frame interval has elapsed since its previous frame started;
/// regardless of whether it repainted, the next window in registry order,
/// if one exists, is asked to redraw — the redraw cascade.
pub open spec fn spec_redraw(state: AppState, target: u64, now: u64) -> (AppState, Seq<ActionModel>)
    recommends
        spec_has_window(state.windows, target),
{
    let i = spec_window_index(state.windows, target);
    let w = state.windows[i];
    let due = spec_redraw_due(w, now);
    let painted = if due { spec_painted_window(w, now, spec_white()) } else { w };
    let next = AppState {
        windows: state.windows.update(i, painted),
        current_context: if due { Some(target) } else { state.current_context },
        ..state
    };
    let paint = if due {
        seq![ActionModel::Repaint { id: target, frame: painted.frame, background: spec_white() }]
    } else {
        Seq::<ActionModel>::empty()
    };
    let chain = if i + 1 < state.windows.len() {
        seq![ActionModel::RequestRedraw { id: state.windows[i + 1].id }]
    } else {
        Seq::<ActionModel>::empty()
    };
    (next, paint + chain)
}

/// One dispatch step: what handling `event` for the window with id
/// `target` at instant `now` does to the state, and which actions it asks
/// the windowing layer to perform, in order.
///
/// An event whose target is not registered is dropped without effect.
/// A released, non-repeated "q" closes the target window through the very
/// same path as an OS close request; a released, non-repeated "a" opens a
/// new window titled with the number of windows registered at the moment
/// of the event.
pub open spec fn spec_dispatch(
    state: AppState,
    target: u64,
    event: WindowEvent,
    now: u64,
) -> (AppState, Seq<ActionModel>) {
    if !spec_has_window(state.windows, target) {
        (state, Seq::<ActionModel>::empty())
    } else {
        match event {
            WindowEvent::Resized { width, height } => {
                let i = spec_window_index(state.windows, target);
                let resized = spec_resized_window(state.windows[i], width, height);
                (
                    AppState { windows: state.windows.update(i, resized), ..state },
                    seq![ActionModel::ResizeSurface { id: target, width, height }],
                )
            },
            WindowEvent::CloseRequested => spec_close(state, target),
            WindowEvent::KeyInput { key, released, repeat } => {
                if released && !repeat && key == Some('q') {
                    spec_close(state, target)
                } else if released && !repeat && key == Some('a') {
                    (
                        state,
                        seq![
                            ActionModel::OpenWindow {
                                title: spec_window_title(state.windows.len()),
                            },
                        ],
                    )
                } else {
                    (state, Seq::<ActionModel>::empty())
                }
            },
            WindowEvent::ModifiersChanged { modifiers } => (
                AppState { modifiers, ..state },
                Seq::<ActionModel>::empty(),
            ),
            WindowEvent::RedrawRequested => spec_redraw(state, target, now),
            WindowEvent::Ignored => (state, Seq::<ActionModel>::empty()),
        }
    }
}

/// Every window's frame counter has room to advance.
pub open spec fn spec_frames_in_range(windows: Seq<Window>) -> bool {
    forall|i: int| 0 <= i < windows.len() ==> windows[i].frame < u64::MAX
}

/// The application: the window registry, the shared capability set, the
/// modifier state, and the event dispatcher.
pub struct Application {
    /// The ordered registry of live windows.
    pub registry: WindowRegistry,
    /// The capability set negotiated once at startup.
    pub capabilities: CapabilitySet,
    /// The process-wide last-known keyboard modifier state.
    pub modifiers: ModifierState,
    /// Whether loop termination has been signalled.
    pub exiting: bool,
    /// The window whose graphics context is current on the dispatch
    /// thread, if any.
    pub current_context: Option<u64>,
}

impl View for Application {
    type V = AppState;

    open spec fn view(&self) -> AppState {
        AppState {
            windows: self.registry.windows@,
            modifiers: self.modifiers,
            capabilities: self.capabilities,
            exiting: self.exiting,
            current_context: self.current_context,
        }
    }
}

impl Application {
    /// Well-formedness: the registry's id-to-index map exactly reflects
    /// live positions.
    pub open spec fn wf(self) -> bool {
        self.registry.wf()
    }

    /// Creates the application around the negotiated capability set and
    /// the first window, which is constructed synchronously at startup
    /// before the loop runs; creating it left its context current.
    pub fn new(capabilities: CapabilitySet, first_window: Window) -> (app: Application)
        ensures
            app.wf(),
            app@ == (AppState {
                windows: seq![first_window],
                modifiers: spec_no_modifiers(),
                capabilities,
                exiting: false,
                current_context: Some(first_window.id),
            }),
    {
        let mut registry = WindowRegistry::new();
        registry.open(first_window);
        let app = Application {
            registry,
            capabilities,
            modifiers: ModifierState::default(),
            exiting: false,
            current_context: Some(first_window.id),
        };
        proof {
            assert(app@.windows =~= seq![first_window]);
        }
        app
    }

    /// Registers a window just created by the windowing layer in response
    /// to an [`Action::OpenWindow`]; creating it left its context current.
    /// The id is unique among currently registered windows, which the
    /// windowing layer guarantees for live handles.
    pub fn register_window(&mut self, window: Window)
        requires
            old(self).wf(),
            !spec_has_window(old(self)@.windows, window.id),
        ensures
            final(self).wf(),
            final(self)@ == (AppState {
                windows: old(self)@.windows.push(window),
                current_context: Some(window.id),
                ..old(self)@
            }),
    {
        self.registry.open(window);
        self.current_context = Some(window.id);
    }

    /// Whether every window's frame counter still has room to advance:
    /// the dispatcher's only numeric precondition, checkable by the
    /// caller before dispatching.
    pub fn frames_in_range(&self) -> (ok: bool)
        ensures
            ok == spec_frames_in_range(self@.windows),
    {
        let mut i: usize = 0;
        while i < self.registry.windows.len()
            invariant
                i <= self@.windows.len(),
                forall|k: int| 0 <= k < i ==> self@.windows[k].frame < u64::MAX,
            decreases self@.windows.len() - i,
        {
            if self.registry.windows[i].frame == u64::MAX {
                return false;
            }
            i = i + 1;
        }
        true
    }

    /// One periodic tick of the loop: when any window is live, the window
    /// at position 0 is asked to redraw, which starts one redraw cascade
    /// over the registry.
    pub fn tick(&self) -> (action: Option<Action>)
        ensures
            match action {
                Some(a) => self@.windows.len() > 0 && a@ == (ActionModel::RequestRedraw {
                    id: self@.windows[0].id,
                }),
                None => self@.windows.len() == 0,
            },
    {
        if self.registry.is_empty() {
            None
        } else {
            Some(Action::RequestRedraw { id: self.registry.window_at(0).id })
        }
    }

    /// Closes the window with id `target`: removes it from the registry
    /// (remapping every later window down by one), makes its context
    /// current for teardown, and signals loop termination when it was the
    /// last window.
    fn close_target(&mut self, target: u64) -> (actions: Vec<Action>)
        requires
            old(self).wf(),
            spec_has_window(old(self)@.windows, target),
        ensures
            final(self).wf(),
            final(self)@ == spec_close(old(self)@, target).0,
            spec_action_models(actions@) == spec_close(old(self)@, target).1,
    {
        let ghost prior = self@;
        self.registry.close(target);
        self.current_context = Some(target);
        let mut actions: Vec<Action> = Vec::new();
        actions.push(Action::DestroyWindow { id: target });
        if self.registry.is_empty() {
            self.exiting = true;
            actions.push(Action::Exit);
        }
        proof {
            assert(self@ == spec_close(prior, target).0);
            assert(spec_action_models(actions@) =~= spec_close(prior, target).1);
        }
        actions
    }

    /// Dispatches one OS event addressed to the window with id `target`,
    /// received at instant `now` of a monotonic clock, and returns the
    /// actions the windowing layer must perform, in order. The step's
    /// entire effect equals [`spec_dispatch`] on the prior state.
    pub fn handle_window_event(&mut self, target: u64, event: WindowEvent, now: u64) -> (actions:
        Vec<Action>)
        requires
            old(self).wf(),
            spec_frames_in_range(old(self)@.windows),
        ensures
            final(self).wf(),
            final(self)@ == spec_dispatch(old(self)@, target, event, now).0,
            spec_action_models(actions@) == spec_dispatch(old(self)@, target, event, now).1,
    {
        let ghost prior = self@;
        let window_count = self.registry.len();
        let index = match self.registry.index_of(target) {
            Some(i) => i,
            None => {
                let actions: Vec<Action> = Vec::new();
                proof {
                    assert(spec_action_models(actions@) =~= Seq::<ActionModel>::empty());
                }
                return actions;
            },
        };
        proof {
            self.registry.lemma_wf_index(target);
        }
        match event {
            WindowEvent::Resized { width, height } => {
                let mut w = self.registry.window_at(index);
                w.resize(width, height);
                self.registry.update_at(index, w);
                let mut actions: Vec<Action> = Vec::new();
                actions.push(Action::ResizeSurface { id: target, width, height });
                proof {
                    assert(spec_action_models(actions@) =~= spec_dispatch(
                        prior,
                        target,
                        event,
                        now,
                    ).1);
                }
                actions
            },
            WindowEvent::CloseRequested => self.close_target(target),
            WindowEvent::KeyInput { key, released, repeat } => {
                if released && !repeat {
                    match key {
                        Some(c) => {
                            if c == 'q' {
                                self.close_target(target)
                            } else if c == 'a' {
                                let title = window_title(window_count);
                                let mut actions: Vec<Action> = Vec::new();
                                actions.push(Action::OpenWindow { title });
                                proof {
                                    assert(spec_action_models(actions@) =~= spec_dispatch(
                                        prior,
                                        target,
                                        event,
                                        now,
                                    ).1);
                                }
                                actions
                            } else {
                                let actions: Vec<Action> = Vec::new();
                                proof {
                                    assert(spec_action_models(actions@) =~= Seq::<
                                        ActionModel,
                                    >::empty());
                                }
                                actions
                            }
                        },
                        None => {
                            let actions: Vec<Action> = Vec::new();
                            proof {
                                assert(spec_action_models(actions@) =~= Seq::<
                                    ActionModel,
                                >::empty());
                            }
                            actions
                        },
                    }
                } else {
                    let actions: Vec<Action> = Vec::new();
                    proof {
                        assert(spec_action_models(actions@) =~= Seq::<ActionModel>::empty());
                    }
                    actions
                }
            },
            WindowEvent::ModifiersChanged { modifiers } => {
                self.modifiers = modifiers;
                let actions: Vec<Action> = Vec::new();
                proof {
                    assert(spec_action_models(actions@) =~= Seq::<ActionModel>::empty());
                }
                actions
            },
            WindowEvent::RedrawRequested => {
                let mut w = self.registry.window_at(index);
                let mut actions: Vec<Action> = Vec::new();
                if w.redraw_due(now) {
                    w.begin_frame(now);
                    w.reset_canvas(Color::white());
                    self.registry.update_at(index, w);
                    self.current_context = Some(target);
                    actions.push(
                        Action::Repaint { id: target, frame: w.frame, background: Color::white() },
                    );
                } else {
                    proof {
                        assert(prior.windows.update(index as int, w) =~= prior.windows);
                    }
                }
                if index + 1 < window_count {
                    let next = self.registry.window_at(index + 1);
                    actions.push(Action::RequestRedraw { id: next.id });
                }
                proof {
                    assert(self@ == spec_redraw(prior, target, now).0);
                    assert(spec_action_models(actions@) =~= spec_redraw(prior, target, now).1);
                }
                actions
            },
            WindowEvent::Ignored => {
                let actions: Vec<Action> = Vec::new();
                proof {
                    assert(spec_action_models(actions@) =~= Seq::<ActionModel>::empty());
                }
                actions
            },
        }
    }
}

} // verus!
