//! The decisions of an interactive viewer that sits on the rendering layer:
//! what the window's events do to it, and which mesh of its queue is on
//! show.
//!
//! The viewer shows the meshes of a queue one after the other. A press of
//! `W`, `A`, `S` or `D` files the mesh on show under that key and moves on to
//! the next one.

use vstd::prelude::*;

use crate::buffer::{stride_of, BufferElementType, VertexBufferElement, VertexBufferLayout};

verus! {

/// The vertex record of a mesh: a position and a normal of three floats
/// each, 24 bytes in all.
pub open spec fn mesh_record() -> Seq<VertexBufferElement> {
    seq![
        VertexBufferElement { count: 3, ty: BufferElementType::Float, normalized: false },
        VertexBufferElement { count: 3, ty: BufferElementType::Float, normalized: false },
    ]
}

/// The layout of the vertex data of a mesh.
pub fn mesh_layout() -> (layout: VertexBufferLayout)
    ensures
        layout@ == mesh_record(),
        stride_of(layout@) == 24,
{
    let mut layout = VertexBufferLayout::new();
    layout.push(BufferElementType::Float, 3, false);
    layout.push(BufferElementType::Float, 3, false);
    assert(layout@ =~= mesh_record());
    layout
}

/// A key as far as the viewer tells keys apart.
#[derive(Debug, Clone, Copy, PartialEq, Eq, Structural)]
pub enum Key {
    Left,
    Right,
    Up,
    Down,
    P,
    Q,
    C,
    W,
    A,
    S,
    D,
    /// Any other key, or none that the platform could name.
    Other,
}

/// A window event, reduced to what the viewer reads of it.
#[derive(Debug, Clone, Copy, PartialEq, Eq, Structural)]
pub enum WindowInput {
    CloseRequested,
    /// The modifier keys changed; `ctrl` says whether a control key is down.
    ModifiersChanged { ctrl: bool },
    /// The window has a new inner size, in pixels.
    Resized { width: u32, height: u32 },
    Focused(bool),
    CursorEntered,
    CursorLeft,
    /// A mouse button went down (`pressed`) or up.
    MouseInput { pressed: bool },
    /// A key went down (`pressed`) or up.
    KeyboardInput { key: Key, pressed: bool },
    /// Any other event.
    Other,
}

/// The pile that a mesh is filed under.
#[derive(Debug, Clone, Copy, PartialEq, Eq, Structural)]
pub enum ScanKind {
    W,
    A,
    S,
    D,
}

/// A quarter of the compass to turn the model towards.
#[derive(Debug, Clone, Copy, PartialEq, Eq, Structural)]
pub enum Turn {
    Left,
    Right,
    Up,
    Down,
}

/// The shape of the mouse cursor.
#[derive(Debug, Clone, Copy, PartialEq, Eq, Structural)]
pub enum Cursor {
    Default,
    Grabbing,
}

/// What the host has to do about a window event.
#[derive(Debug, Clone, Copy, PartialEq, Eq, Structural)]
pub enum Reaction {
    Nothing,
    /// Leave the event loop.
    Exit,
    /// Fit the viewport to the new size and clear the frame.
    Resize { width: u32, height: u32 },
    /// Show this cursor.
    SetCursor(Cursor),
    /// Turn the model one step.
    Turn(Turn),
    /// File the mesh on show under this pile and show the next one.
    Label(ScanKind),
}

/// What the viewer remembers of its window.
#[derive(Debug, Clone, Copy, PartialEq, Eq, Structural)]
pub struct WindowState {
    pub is_paused: bool,
    pub is_window_focused: bool,
    pub is_window_hovered: bool,
    pub is_mouse_pressed: bool,
    /// Whether a control key is down.
    pub ctrl: bool,
}

impl WindowState {
    /// The reaction to a key that went down.
    pub open spec fn key_pressed(self, key: Key) -> (WindowState, Reaction) {
        match key {
            Key::Left => (self, Reaction::Turn(Turn::Left)),
            Key::Right => (self, Reaction::Turn(Turn::Right)),
            Key::Up => (self, Reaction::Turn(Turn::Up)),
            Key::Down => (self, Reaction::Turn(Turn::Down)),
            Key::P => (WindowState { is_paused: !self.is_paused, ..self }, Reaction::Nothing),
            Key::Q => (self, Reaction::Exit),
            Key::C => (
                self,
                if self.ctrl {
                    Reaction::Exit
                } else {
                    Reaction::Nothing
                },
            ),
            Key::W => (self, Reaction::Label(ScanKind::W)),
            Key::A => (self, Reaction::Label(ScanKind::A)),
            Key::S => (self, Reaction::Label(ScanKind::S)),
            Key::D => (self, Reaction::Label(ScanKind::D)),
            Key::Other => (self, Reaction::Nothing),
        }
    }

    /// The reaction to a window event: what the viewer remembers afterwards,
    /// and what the host has to do.
    pub open spec fn react(self, event: WindowInput) -> (WindowState, Reaction) {
        match event {
            WindowInput::CloseRequested => (self, Reaction::Exit),
            WindowInput::ModifiersChanged { ctrl } => (
                WindowState { ctrl, ..self },
                Reaction::Nothing,
            ),
            WindowInput::Resized { width, height } => (self, Reaction::Resize { width, height }),
            WindowInput::Focused(focused) => (
                WindowState { is_window_focused: focused, ..self },
                Reaction::Nothing,
            ),
            WindowInput::CursorEntered => (
                WindowState { is_window_hovered: true, ..self },
                Reaction::Nothing,
            ),
            WindowInput::CursorLeft => (
                WindowState { is_window_hovered: false, ..self },
                Reaction::Nothing,
            ),
            WindowInput::MouseInput { pressed } => (
                WindowState { is_mouse_pressed: pressed, ..self },
                Reaction::SetCursor(
                    if pressed {
                        Cursor::Grabbing
                    } else {
                        Cursor::Default
                    },
                ),
            ),
            WindowInput::KeyboardInput { key, pressed } => if pressed {
                self.key_pressed(key)
            } else {
                (self, Reaction::Nothing)
            },
            WindowInput::Other => (self, Reaction::Nothing),
        }
    }

    /// Whether moving the mouse turns the model: the viewer is not paused,
    /// its window has the focus, and a mouse button is down.
    pub open spec fn spec_drags(&self) -> bool {
        !self.is_paused && self.is_window_focused && self.is_mouse_pressed
    }

    /// The state of a viewer whose window has just opened.
    pub fn new() -> (state: Self)
        ensures
            state == (WindowState {
                is_paused: false,
                is_window_focused: false,
                is_window_hovered: false,
                is_mouse_pressed: false,
                ctrl: false,
            }),
    {
        WindowState {
            is_paused: false,
            is_window_focused: false,
            is_window_hovered: false,
            is_mouse_pressed: false,
            ctrl: false,
        }
    }

    /// Pauses a running viewer and resumes a paused one.
    pub fn toggle_paused(&mut self)
        ensures
            *final(self) == (WindowState { is_paused: !old(self).is_paused, ..*old(self) }),
    {
        self.is_paused = !self.is_paused;
    }

    /// Whether moving the mouse turns the model.
    #[verifier::when_used_as_spec(spec_drags)]
    pub fn drags(&self) -> (drags: bool)
        ensures
            drags == self.spec_drags(),
    {
        !self.is_paused && self.is_window_focused && self.is_mouse_pressed
    }

    /// Takes a window event and says what the host has to do about it.
    pub fn handle_window_event(&mut self, event: WindowInput) -> (reaction: Reaction)
        ensures
            (*final(self), reaction) == old(self).react(event),
    {
        match event {
            WindowInput::CloseRequested => Reaction::Exit,
            WindowInput::ModifiersChanged { ctrl } => {
                self.ctrl = ctrl;
                Reaction::Nothing
            },
            WindowInput::Resized { width, height } => Reaction::Resize { width, height },
            WindowInput::Focused(focused) => {
                self.is_window_focused = focused;
                Reaction::Nothing
            },
            WindowInput::CursorEntered => {
                self.is_window_hovered = true;
                Reaction::Nothing
            },
            WindowInput::CursorLeft => {
                self.is_window_hovered = false;
                Reaction::Nothing
            },
            WindowInput::MouseInput { pressed: true } => {
                self.is_mouse_pressed = true;
                Reaction::SetCursor(Cursor::Grabbing)
            },
            WindowInput::MouseInput { pressed: false } => {
                self.is_mouse_pressed = false;
                Reaction::SetCursor(Cursor::Default)
            },
            WindowInput::KeyboardInput { key, pressed } => {
                match (key, pressed) {
                    (Key::Left, true) => Reaction::Turn(Turn::Left),
                    (Key::Right, true) => Reaction::Turn(Turn::Right),
                    (Key::Up, true) => Reaction::Turn(Turn::Up),
                    (Key::Down, true) => Reaction::Turn(Turn::Down),
                    (Key::P, true) => {
                        self.toggle_paused();
                        Reaction::Nothing
                    },
                    (Key::Q, true) => Reaction::Exit,
                    (Key::C, true) => if self.ctrl {
                        Reaction::Exit
                    } else {
                        Reaction::Nothing
                    },
                    (Key::W, true) => Reaction::Label(ScanKind::W),
                    (Key::A, true) => Reaction::Label(ScanKind::A),
                    (Key::S, true) => Reaction::Label(ScanKind::S),
                    (Key::D, true) => Reaction::Label(ScanKind::D),
                    _ => Reaction::Nothing,
                }
            },
            WindowInput::Other => Reaction::Nothing,
        }
    }
}

/// The viewer is left in three ways only: the window is closed, `Q` goes
/// down, or `C` goes down while a control key is held.
pub proof fn lemma_ways_out(state: WindowState, event: WindowInput)
    ensures
        state.react(event).1 == Reaction::Exit <==> {
            ||| event == WindowInput::CloseRequested
            ||| event == (WindowInput::KeyboardInput { key: Key::Q, pressed: true })
            ||| (event == (WindowInput::KeyboardInput { key: Key::C, pressed: true })
                && state.ctrl)
        },
{
}

/// A key that goes up changes nothing and asks for nothing, and pausing
/// twice leaves the viewer as it was.
pub proof fn lemma_keys(state: WindowState, key: Key)
    ensures
        state.react(WindowInput::KeyboardInput { key, pressed: false }) == (
            state,
            Reaction::Nothing,
        ),
        state.react(WindowInput::KeyboardInput { key: Key::P, pressed: true }).0.react(
            WindowInput::KeyboardInput { key: Key::P, pressed: true },
        ).0 == state,
{
}

/// The queue of meshes to show, and how far the viewer has got in it.
pub struct StlContext {
    queue: Vec<String>,
    cursor: usize,
    loaded: bool,
}

/// Mathematical value of an [`StlContext`].
pub struct StlContextView {
    /// The paths of the meshes, in the order in which they are shown.
    pub queue: Seq<Seq<char>>,
    /// How many meshes have been taken from the queue.
    pub cursor: nat,
    /// Whether a mesh is on show.
    pub loaded: bool,
}

impl StlContextView {
    /// The path that a label is filed with: that of the mesh on show, which
    /// is the last one taken from the queue.
    pub open spec fn label(self) -> Option<Seq<char>> {
        if self.loaded && 1 <= self.cursor <= self.queue.len() {
            Some(self.queue[self.cursor - 1])
        } else {
            None
        }
    }

    /// Taking the next mesh from the queue: its path, if there is one left,
    /// and the queue afterwards.
    pub open spec fn load_next(self) -> (StlContextView, Option<Seq<char>>) {
        if self.cursor < self.queue.len() {
            (
                StlContextView {
                    queue: self.queue,
                    cursor: self.cursor + 1,
                    loaded: true,
                },
                Some(self.queue[self.cursor as int]),
            )
        } else {
            (self, None)
        }
    }
}

impl View for StlContext {
    type V = StlContextView;

    closed spec fn view(&self) -> StlContextView {
        StlContextView {
            queue: Seq::new(self.queue@.len(), |i: int| self.queue@[i]@),
            cursor: self.cursor as nat,
            loaded: self.loaded,
        }
    }
}

impl StlContext {
    #[verifier::type_invariant]
    spec fn well_formed(&self) -> bool {
        &&& self.cursor <= self.queue@.len()
        &&& self.loaded ==> self.cursor >= 1
    }

    /// A viewer that has not shown any mesh of `queue` yet.
    pub fn new(queue: Vec<String>) -> (context: Self)
        ensures
            context@ == (StlContextView {
                queue: Seq::new(queue@.len(), |i: int| queue@[i]@),
                cursor: 0,
                loaded: false,
            }),
    {
        StlContext { queue, cursor: 0, loaded: false }
    }

    /// How many meshes have been taken from the queue.
    pub fn cursor(&self) -> (cursor: usize)
        ensures
            cursor == self@.cursor,
    {
        self.cursor
    }

    /// The path to file under a pile when the user labels the mesh on show;
    /// none while no mesh is on show.
    pub fn label(&self) -> (path: Option<&str>)
        ensures
            match path {
                Some(path) => self@.label() == Some(path@),
                None => self@.label() is None,
            },
    {
        proof {
            use_type_invariant(self);
        }
        if self.loaded {
            let last = self.cursor - 1;
            Some(self.queue[last].as_str())
        } else {
            None
        }
    }

    /// Takes the next mesh from the queue and puts it on show. Gives the
    /// mesh's path, or nothing when the queue is used up.
    pub fn load_next(&mut self) -> (path: Option<&str>)
        ensures
            final(self)@ == old(self)@.load_next().0,
            match path {
                Some(path) => old(self)@.load_next().1 == Some(path@),
                None => old(self)@.load_next().1 is None,
            },
    {
        proof {
            use_type_invariant(&*self);
        }
        if self.cursor < self.queue.len() {
            let taken = self.cursor;
            self.cursor = taken + 1;
            self.loaded = true;
            Some(self.queue[taken].as_str())
        } else {
            None
        }
    }
}

/// The label of a mesh is filed with the path that the mesh was taken from
/// the queue with.
pub proof fn lemma_label_names_the_mesh_on_show(context: StlContextView)
    requires
        context.cursor <= context.queue.len(),
    ensures
        context.load_next().1 is Some ==> context.load_next().0.label()
            == context.load_next().1,
        context.load_next().1 is None ==> context.load_next().0 == context,
{
}

} // verus!
