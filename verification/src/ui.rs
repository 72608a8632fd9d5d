use vstd::prelude::*;

pub mod error;
pub mod logo;
pub mod surface;

verus! {

/// What the event loop knows of the devtool's interface: the width and
/// height of its logo, in pixels, and whether the first frame has been set up.
#[derive(Clone, Copy, Debug, PartialEq, Eq, Structural)]
pub struct UiStatus {
    pub width: u32,
    pub height: u32,
    pub loaded: bool,
}

/// The window events that the devtool tells apart.
#[derive(Clone, Copy, Debug, PartialEq, Eq, Structural)]
pub enum WindowEventKind {
    RedrawRequested,
    CloseRequested,
    Other,
}

/// What the event loop is to do in answer to an event.
#[derive(Clone, Copy, Debug, PartialEq, Eq)]
pub enum FrameAction {
    /// Set up the first frame: a logo texture of `width` by `height` pixels
    /// with `bytes_per_row` bytes to a row, its view, the vertex buffer and
    /// the bind group. `window` is the position, among the stored windows, of
    /// the one that asked, if it is stored: that one is asked to redraw and
    /// the interface is prepared for its size.
    LoadFrame { width: u32, height: u32, bytes_per_row: u32, window: Option<usize> },
    /// Draw a frame of the interface for the window at position
    /// `window_index` among the stored ones.
    RenderFrame { window_index: usize },
    /// Leave the event loop.
    Exit,
    /// Nothing to do.
    Ignore,
}

/// The bytes that one pixel of the logo takes.
pub const PIXEL_BYTES: u32 = 4;

/// The position of the first window with id `id` in `windows`.
pub open spec fn position_of(windows: Seq<usize>, id: usize) -> Option<usize> {
    match windows.index_of_first(id) {
        Some(i) => Some(i as usize),
        None => None,
    }
}

/// The state of the event loop, as plain values.
pub struct EventLoopModel {
    pub windows: Seq<usize>,
    pub graphics_ready: bool,
    pub ui: Option<UiStatus>,
}

impl EventLoopModel {
    /// Before any window exists.
    pub open spec fn initial() -> EventLoopModel {
        EventLoopModel { windows: Seq::empty(), graphics_ready: false, ui: None }
    }

    /// After a window `window` was opened, the graphics set up on it and an
    /// interface with a logo of `logo_size` started.
    pub open spec fn with_surfaces(self, window: usize, logo_size: (u32, u32)) -> EventLoopModel {
        EventLoopModel {
            windows: self.windows.push(window),
            graphics_ready: true,
            ui: Some(UiStatus { width: logo_size.0, height: logo_size.1, loaded: false }),
        }
    }

    /// A redraw that finds everything in place but the first frame.
    pub open spec fn loads_frame(self, event: WindowEventKind) -> bool {
        &&& event == WindowEventKind::RedrawRequested
        &&& self.graphics_ready
        &&& self.ui matches Some(ui) && !ui.loaded
    }

    /// A redraw that finds everything in place.
    pub open spec fn renders_frame(self, event: WindowEventKind) -> bool {
        &&& event == WindowEventKind::RedrawRequested
        &&& self.graphics_ready
        &&& self.ui matches Some(ui) && ui.loaded
    }

    /// A redraw of a set-up interface comes from a stored window: the answer
    /// names the window to draw for, and there is none for another.
    pub open spec fn event_allowed(self, window: usize, event: WindowEventKind) -> bool {
        &&& self.loads_frame(event) ==> PIXEL_BYTES * self.ui.unwrap().width <= u32::MAX
        &&& self.renders_frame(event) ==> self.windows.contains(window)
    }

    /// The answer to `event` on window `window`.
    pub open spec fn action(self, window: usize, event: WindowEventKind) -> FrameAction {
        if self.loads_frame(event) {
            let ui = self.ui.unwrap();
            FrameAction::LoadFrame {
                width: ui.width,
                height: ui.height,
                bytes_per_row: (PIXEL_BYTES * ui.width) as u32,
                window: position_of(self.windows, window),
            }
        } else if self.renders_frame(event) {
            FrameAction::RenderFrame { window_index: position_of(self.windows, window).unwrap() }
        } else if event == WindowEventKind::CloseRequested {
            FrameAction::Exit
        } else {
            FrameAction::Ignore
        }
    }

    /// The state after `event` on window `window`.
    pub open spec fn after(self, window: usize, event: WindowEventKind) -> EventLoopModel {
        if self.loads_frame(event) {
            EventLoopModel {
                ui: Some(UiStatus { loaded: true, ..self.ui.unwrap() }),
                ..self
            }
        } else {
            self
        }
    }
}

/// The decisions of the devtool's event loop: which windows it opened, in
/// order, whether the graphics are set up and what it knows of the interface.
pub struct EventLoopContext {
    windows: Vec<usize>,
    graphics_ready: bool,
    ui: Option<UiStatus>,
}

impl View for EventLoopContext {
    type V = EventLoopModel;

    closed spec fn view(&self) -> EventLoopModel {
        EventLoopModel { windows: self.windows@, graphics_ready: self.graphics_ready, ui: self.ui }
    }
}

impl EventLoopContext {
    /// No window, no graphics, no interface.
    pub fn new() -> (c: Self)
        ensures
            c@ == EventLoopModel::initial(),
            c@.windows.len() <= usize::MAX,
    {
        EventLoopContext { windows: Vec::new(), graphics_ready: false, ui: None }
    }

    /// Records that window `window` was opened, the graphics were set up on
    /// it and an interface whose logo is `logo_size` pixels was started.
    pub fn surfaces_created(&mut self, window: usize, logo_size: (u32, u32))
        ensures
            final(self)@ == old(self)@.with_surfaces(window, logo_size),
            final(self)@.windows.len() <= usize::MAX,
    {
        self.windows.push(window);
        self.ui = Some(UiStatus { width: logo_size.0, height: logo_size.1, loaded: false });
        self.graphics_ready = true;
        proof {
            assert(self.windows.len() == self.windows@.len());
        }
    }

    /// The position of the first stored window with id `id`.
    pub fn window_position(&self, id: usize) -> (r: Option<usize>)
        ensures
            r == position_of(self@.windows, id),
            self@.windows.len() <= usize::MAX,
            r matches Some(i) ==> i < self@.windows.len() && self@.windows[i as int] == id,
            r is None <==> !self@.windows.contains(id),
    {
        let mut i: usize = 0;
        while i < self.windows.len()
            invariant
                i <= self.windows@.len(),
                forall|j: int| 0 <= j < i ==> self.windows@[j] != id,
            decreases self.windows@.len() - i,
        {
            if self.windows[i] == id {
                proof {
                    self.windows@.index_of_first_ensures(id);
                    assert(self.windows@.contains(id));
                }
                return Some(i);
            }
            i += 1;
        }
        proof {
            self.windows@.index_of_first_ensures(id);
        }
        None
    }

    /// Decides the answer to `event` on window `window`, and notes that the
    /// first frame is set up when the answer is to set it up. The logo's row
    /// must fit in `u32` when the first frame is set up, and a redraw after
    /// that must come from a stored window.
    pub fn window_event(&mut self, window: usize, event: WindowEventKind) -> (a: FrameAction)
        requires
            old(self)@.event_allowed(window, event),
        ensures
            a == old(self)@.action(window, event),
            final(self)@ == old(self)@.after(window, event),
            final(self)@.windows.len() <= usize::MAX,
    {
        proof {
            assert(self.windows.len() == self.windows@.len());
        }
        let redraw = match event {
            WindowEventKind::RedrawRequested => true,
            _ => false,
        };
        if redraw && self.graphics_ready {
            match self.ui {
                Some(ui) => {
                    let position = self.window_position(window);
                    if !ui.loaded {
                        self.ui = Some(UiStatus { width: ui.width, height: ui.height, loaded: true });
                        return FrameAction::LoadFrame {
                            width: ui.width,
                            height: ui.height,
                            bytes_per_row: PIXEL_BYTES * ui.width,
                            window: position,
                        };
                    } else {
                        return match position {
                            Some(p) => FrameAction::RenderFrame { window_index: p },
                            None => vstd::pervasive::unreached(),
                        };
                    }
                },
                None => {},
            }
        }
        match event {
            WindowEventKind::CloseRequested => FrameAction::Exit,
            _ => FrameAction::Ignore,
        }
    }

    /// Whether the graphics are set up.
    pub fn graphics_ready(&self) -> (r: bool)
        ensures
            r == self@.graphics_ready,
    {
        self.graphics_ready
    }

    /// What is known of the interface, if it was started.
    pub fn ui(&self) -> (r: Option<UiStatus>)
        ensures
            r == self@.ui,
    {
        self.ui
    }

    /// The number of windows opened.
    pub fn window_count(&self) -> (r: usize)
        ensures
            r == self@.windows.len(),
    {
        self.windows.len()
    }
}

/// The state after `events`, one after the other, from `m`; each event is
/// the window it came from and its kind.
pub open spec fn run(m: EventLoopModel, events: Seq<(usize, WindowEventKind)>) -> EventLoopModel
    decreases events.len(),
{
    if events.len() == 0 {
        m
    } else {
        run(m.after(events[0].0, events[0].1), events.drop_first())
    }
}

/// How many of the answers to `events`, from `m`, set up the first frame.
pub open spec fn load_count(m: EventLoopModel, events: Seq<(usize, WindowEventKind)>) -> nat
    decreases events.len(),
{
    if events.len() == 0 {
        0
    } else {
        let rest = load_count(m.after(events[0].0, events[0].1), events.drop_first());
        if m.action(events[0].0, events[0].1) is LoadFrame {
            rest + 1
        } else {
            rest
        }
    }
}

/// A close request is answered by leaving the event loop, whatever the state,
/// and changes nothing.
pub proof fn lemma_close_exits(m: EventLoopModel, window: usize)
    ensures
        m.action(window, WindowEventKind::CloseRequested) == FrameAction::Exit,
        m.after(window, WindowEventKind::CloseRequested) == m,
{
}

/// Window events never change which windows are stored, whether the
/// graphics are set up, or the logo's size.
pub proof fn lemma_events_keep_windows(m: EventLoopModel, window: usize, event: WindowEventKind)
    ensures
        m.after(window, event).windows == m.windows,
        m.after(window, event).graphics_ready == m.graphics_ready,
        m.after(window, event).ui is Some <==> m.ui is Some,
        m.ui matches Some(ui) ==> m.after(window, event).ui.unwrap().width == ui.width
            && m.after(window, event).ui.unwrap().height == ui.height,
{
}

/// Once the first frame is set up, it stays set up, and no event asks to set
/// it up again.
pub proof fn lemma_loaded_stays_loaded(m: EventLoopModel, window: usize, event: WindowEventKind)
    requires
        m.ui matches Some(ui) && ui.loaded,
    ensures
        m.after(window, event) == m,
        !(m.action(window, event) is LoadFrame),
{
}

/// Between two starts of the interface, the first frame is set up at most
/// once, and not at all if it was set up before.
pub proof fn lemma_loads_at_most_once(m: EventLoopModel, events: Seq<(usize, WindowEventKind)>)
    ensures
        load_count(m, events) <= 1,
        (m.ui matches Some(ui) && ui.loaded) ==> load_count(m, events) == 0,
        (m.ui matches Some(ui) && ui.loaded) ==> run(m, events) == m,
    decreases events.len(),
{
    if events.len() > 0 {
        let next = m.after(events[0].0, events[0].1);
        lemma_loads_at_most_once(next, events.drop_first());
        if m.action(events[0].0, events[0].1) is LoadFrame {
            assert(next.ui matches Some(ui) && ui.loaded);
        }
    }
}

/// After a window is opened and the interface started, a redraw of that
/// window sets up the first frame at the logo's size and finds the window;
/// the next redraw of it draws a frame for the same window.
pub proof fn lemma_first_redraw_loads(m: EventLoopModel, window: usize, logo_size: (u32, u32))
    requires
        m.windows.len() < usize::MAX,
    ensures
        ({
            let s = m.with_surfaces(window, logo_size);
            let redraw = WindowEventKind::RedrawRequested;
            let found = position_of(s.windows, window);
            &&& found matches Some(p) && p < s.windows.len() && s.windows[p as int] == window
            &&& s.action(window, redraw) == (FrameAction::LoadFrame {
                width: logo_size.0,
                height: logo_size.1,
                bytes_per_row: (PIXEL_BYTES * logo_size.0) as u32,
                window: found,
            })
            &&& s.after(window, redraw).event_allowed(window, redraw)
            &&& s.after(window, redraw).action(window, redraw) == (FrameAction::RenderFrame {
                window_index: found.unwrap(),
            })
        }),
{
    let s = m.with_surfaces(window, logo_size);
    assert(s.windows[s.windows.len() - 1] == window);
    assert(s.windows.contains(window));
    s.windows.index_of_first_ensures(window);
}

/// Any window event but a redraw or a close request is ignored and changes
/// nothing; only a redraw is ever answered by setting up or drawing a frame.
pub proof fn lemma_other_events_ignored(m: EventLoopModel, window: usize, event: WindowEventKind)
    ensures
        m.action(window, WindowEventKind::Other) == FrameAction::Ignore,
        m.after(window, WindowEventKind::Other) == m,
        (m.action(window, event) is LoadFrame || m.action(window, event) is RenderFrame) ==> event
            == WindowEventKind::RedrawRequested,
        m.after(window, event) != m ==> event == WindowEventKind::RedrawRequested,
{
}

/// A redraw of a set-up interface from any stored window draws a frame for
/// that window: the answer's position is the first one holding it.
pub proof fn lemma_redraw_draws_for_asker(m: EventLoopModel, window: usize)
    requires
        m.graphics_ready,
        m.ui matches Some(ui) && ui.loaded,
        m.windows.contains(window),
        m.windows.len() <= usize::MAX,
    ensures
        m.action(window, WindowEventKind::RedrawRequested) matches FrameAction::RenderFrame {
            window_index,
        } && window_index < m.windows.len() && m.windows[window_index as int] == window && (
        forall|j: int| 0 <= j < window_index ==> m.windows[j] != window),
{
    m.windows.index_of_first_ensures(window);
}

/// The first redraw after the interface starts names the window that asked:
/// the first position holding it, or none when it is not stored.
pub proof fn lemma_load_names_asker(m: EventLoopModel, window: usize)
    requires
        m.graphics_ready,
        m.ui matches Some(ui) && !ui.loaded,
        m.windows.len() <= usize::MAX,
    ensures
        m.action(window, WindowEventKind::RedrawRequested) matches FrameAction::LoadFrame {
            width,
            height,
            window: found,
            ..
        } && width == m.ui.unwrap().width && height == m.ui.unwrap().height && (match found {
            Some(i) => i < m.windows.len() && m.windows[i as int] == window && (forall|j: int|
                0 <= j < i ==> m.windows[j] != window),
            None => !m.windows.contains(window),
        }),
{
    m.windows.index_of_first_ensures(window);
}

} // verus!
