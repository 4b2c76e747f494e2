use vstd::prelude::*;

verus! {

/// The keys the renderer reacts to; every other key is `Other`.
#[derive(Clone, Copy, PartialEq, Eq, Structural, Debug)]
pub enum Key {
    W,
    A,
    S,
    D,
    Escape,
    Other,
}

/// What happened to a key in a window event.
#[derive(Clone, Copy, PartialEq, Eq, Structural, Debug)]
pub enum KeyAction {
    Press,
    Repeat,
    Release,
}

/// The window events the renderer reacts to; every other event is `Other`.
#[derive(Clone, Copy, PartialEq, Eq, Structural, Debug)]
pub enum WindowEvent {
    Key(Key, KeyAction),
    FramebufferSize(i32, i32),
    CursorPos,
    Other,
}

/// A movement the camera is asked to make this frame.
#[derive(Clone, Copy, PartialEq, Eq, Structural, Debug)]
pub enum CameraMove {
    Forward,
    Backwards,
    Left,
    Right,
}

/// Which movement keys are held down, and whether the window was asked to
/// close. The window, the camera and the projection themselves live outside
/// the library; this state decides what is done to them.
#[derive(Clone, Copy, PartialEq, Eq, Structural, Debug)]
pub struct InputState {
    pub w: bool,
    pub a: bool,
    pub s: bool,
    pub d: bool,
    pub should_close: bool,
}

impl InputState {
    /// The state after one key event: the escape key asks the window to
    /// close, releasing a movement key drops it, pressing or repeating one
    /// holds it, and any other key changes nothing.
    pub open spec fn after_key(self, key: Key, action: KeyAction) -> InputState {
        match key {
            Key::Escape => InputState { should_close: true, ..self },
            Key::W => if action is Release {
                InputState { w: false, ..self }
            } else {
                InputState { w: true, ..self }
            },
            Key::A => if action is Release {
                InputState { a: false, ..self }
            } else {
                InputState { a: true, ..self }
            },
            Key::S => if action is Release {
                InputState { s: false, ..self }
            } else {
                InputState { s: true, ..self }
            },
            Key::D => if action is Release {
                InputState { d: false, ..self }
            } else {
                InputState { d: true, ..self }
            },
            Key::Other => self,
        }
    }

    /// The moves owed for the keys held down, in the order they are
    /// applied: forward, backwards, left, right.
    pub open spec fn pending_moves(self) -> Seq<CameraMove> {
        (if self.w {
            seq![CameraMove::Forward]
        } else {
            Seq::empty()
        }) + (if self.s {
            seq![CameraMove::Backwards]
        } else {
            Seq::empty()
        }) + (if self.a {
            seq![CameraMove::Left]
        } else {
            Seq::empty()
        }) + (if self.d {
            seq![CameraMove::Right]
        } else {
            Seq::empty()
        })
    }

    /// The state after the held keys were turned into moves: a forward or
    /// backwards step is applied once per press, so those two keys are
    /// dropped; strafing repeats while the key is held.
    pub open spec fn after_presses(self) -> InputState {
        InputState { w: false, s: false, ..self }
    }

    /// No key held, no close requested.
    pub fn new() -> (s: InputState)
        ensures
            s == (InputState { w: false, a: false, s: false, d: false, should_close: false }),
    {
        InputState { w: false, a: false, s: false, d: false, should_close: false }
    }

    /// Whether the escape key asked the window to close.
    pub fn should_close(&self) -> (b: bool)
        ensures
            b == self.should_close,
    {
        self.should_close
    }

    /// Applies one key event to the held-key state.
    pub fn handle_key(&mut self, key: Key, action: KeyAction)
        ensures
            *final(self) == old(self).after_key(key, action),
    {
        match key {
            Key::Escape => {
                self.should_close = true;
            },
            Key::W => {
                self.w = !matches!(action, KeyAction::Release);
            },
            Key::A => {
                self.a = !matches!(action, KeyAction::Release);
            },
            Key::S => {
                self.s = !matches!(action, KeyAction::Release);
            },
            Key::D => {
                self.d = !matches!(action, KeyAction::Release);
            },
            Key::Other => {},
        }
    }

    /// Applies one window event. A key event updates the held-key state; a
    /// framebuffer resize asks the caller to reset the viewport and the
    /// projection to the returned width and height; everything else is
    /// ignored.
    pub fn handle_event(&mut self, event: WindowEvent) -> (resize: Option<(i32, i32)>)
        ensures
            match event {
                WindowEvent::Key(key, action) => {
                    &&& *final(self) == old(self).after_key(key, action)
                    &&& resize is None
                },
                WindowEvent::FramebufferSize(width, height) => {
                    &&& *final(self) == *old(self)
                    &&& resize == Some((width, height))
                },
                _ => {
                    &&& *final(self) == *old(self)
                    &&& resize is None
                },
            },
    {
        match event {
            WindowEvent::Key(key, action) => {
                self.handle_key(key, action);
                None
            },
            WindowEvent::FramebufferSize(width, height) => Some((width, height)),
            _ => None,
        }
    }

    /// Turns the held keys into this frame's camera moves and drops the
    /// one-shot keys.
    pub fn key_presses(&mut self) -> (moves: Vec<CameraMove>)
        ensures
            moves@ == old(self).pending_moves(),
            *final(self) == old(self).after_presses(),
    {
        let mut moves: Vec<CameraMove> = Vec::new();
        if self.w {
            moves.push(CameraMove::Forward);
            self.w = false;
        }
        if self.s {
            moves.push(CameraMove::Backwards);
            self.s = false;
        }
        if self.a {
            moves.push(CameraMove::Left);
        }
        if self.d {
            moves.push(CameraMove::Right);
        }
        proof {
            assert(moves@ =~= old(self).pending_moves());
        }
        moves
    }
}

} // verus!
