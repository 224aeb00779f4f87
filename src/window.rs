use vstd::prelude::*;

verus! {

/// A key that the demo programs tell apart.
#[derive(Clone, Copy, Debug, PartialEq, Eq, Structural)]
pub enum Key {
    Escape,
    Other,
}

/// Whether a key went down or up.
#[derive(Clone, Copy, Debug, PartialEq, Eq, Structural)]
pub enum KeyState {
    Pressed,
    Released,
}

/// What a window reports between two frames.
#[derive(Clone, Copy, Debug, PartialEq, Eq, Structural)]
pub enum WindowInput {
    /// The system asked for the window to close.
    CloseRequested,
    /// A key changed state.
    Keyboard { key: Key, state: KeyState },
    /// The window asked to be drawn again.
    RedrawRequested,
    /// Anything the programs do not react to.
    Other,
}

/// What the program does in answer to a window input.
#[derive(Clone, Copy, Debug, PartialEq, Eq, Structural)]
pub enum Response {
    /// Leave the event loop.
    Exit,
    /// Ask the window for another redraw.
    RequestRedraw,
    /// Nothing.
    Ignore,
}

/// An input asks the program to stop: the system's close request, or Escape
/// being pressed.
pub open spec fn requests_close(e: WindowInput) -> bool {
    e == WindowInput::CloseRequested || e == (WindowInput::Keyboard { key: Key::Escape, state: KeyState::Pressed })
}

pub open spec fn response_of(e: WindowInput) -> Response {
    if requests_close(e) {
        Response::Exit
    } else if e == WindowInput::RedrawRequested {
        Response::RequestRedraw
    } else {
        Response::Ignore
    }
}

/// Decides what an event loop does with one window input.
pub fn respond(e: &WindowInput) -> (r: Response)
    ensures
        r == response_of(*e),
        r == Response::Exit <==> requests_close(*e),
{
    match e {
        WindowInput::CloseRequested => Response::Exit,
        WindowInput::Keyboard { key: Key::Escape, state: KeyState::Pressed } => Response::Exit,
        WindowInput::RedrawRequested => Response::RequestRedraw,
        _ => Response::Ignore,
    }
}

/// Some input among `inputs` asked the program to stop.
pub open spec fn closed_after(inputs: Seq<WindowInput>) -> bool {
    exists|i: int| 0 <= i < inputs.len() && #[trigger] requests_close(inputs[i])
}

/// A window's close flag: clear when the window opens, set for good once
/// anything asks for the window to close.
#[derive(Debug)]
pub struct CloseFlag {
    set: bool,
}

impl CloseFlag {
    pub closed spec fn is_set(&self) -> bool {
        self.set
    }

    /// The flag of a window that was just opened.
    pub fn new() -> (r: CloseFlag)
        ensures
            !r.is_set(),
    {
        CloseFlag { set: false }
    }

    /// Whether the render loop should stop.
    pub fn should_close(&self) -> (r: bool)
        ensures
            r == self.is_set(),
    {
        self.set
    }

    /// Sets the flag when Escape is held down at the start of a frame.
    pub fn process_input(&mut self, escape: KeyState)
        ensures
            final(self).is_set() == (old(self).is_set() || escape == KeyState::Pressed),
    {
        if escape == KeyState::Pressed {
            self.set = true;
        }
    }

    /// Records one window input.
    pub fn observe(&mut self, e: &WindowInput)
        ensures
            final(self).is_set() == (old(self).is_set() || requests_close(*e)),
    {
        if respond(e) == Response::Exit {
            self.set = true;
        }
    }
}

/// The number of frames a render loop draws when `inputs[k]` is what the
/// window reports during frame `k`: the loop checks the close flag before
/// each frame, and stops once it is set or the inputs run out.
pub fn frames_drawn(inputs: &Vec<WindowInput>) -> (r: usize)
    ensures
        r <= inputs.len(),
        forall|k: int| 0 <= k < r ==> !closed_after(#[trigger] inputs@.take(k)),
        r < inputs.len() ==> closed_after(inputs@.take(r as int)),
{
    let mut flag = CloseFlag::new();
    let mut frames: usize = 0;
    while !flag.should_close() && frames < inputs.len()
        invariant
            frames <= inputs.len(),
            flag.is_set() == closed_after(inputs@.take(frames as int)),
            forall|k: int| 0 <= k < frames ==> !closed_after(#[trigger] inputs@.take(k)),
        decreases inputs.len() - frames,
    {
        proof {
            lemma_close_flag_step(inputs@, frames as int);
        }
        flag.observe(&inputs[frames]);
        frames = frames + 1;
    }
    frames
}

/// Reading one more input sets the close flag exactly when that input asks
/// to close, unless the flag was already set.
pub proof fn lemma_close_flag_step(inputs: Seq<WindowInput>, i: int)
    requires
        0 <= i < inputs.len(),
    ensures
        closed_after(inputs.take(i + 1)) == (closed_after(inputs.take(i)) || requests_close(inputs[i])),
{
    let a = inputs.take(i);
    let b = inputs.take(i + 1);
    if closed_after(a) {
        let j = choose|j: int| 0 <= j < a.len() && #[trigger] requests_close(a[j]);
        assert(b[j] == a[j]);
    }
    if requests_close(inputs[i]) {
        assert(b[i] == inputs[i]);
    }
    if closed_after(b) {
        let j = choose|j: int| 0 <= j < b.len() && #[trigger] requests_close(b[j]);
        if j < i {
            assert(a[j] == b[j]);
        }
    }
}

/// The close flag goes from clear to set exactly once over a run of inputs:
/// it is clear before any input, it is set at the first input that asks to
/// close, and it never clears again.
pub proof fn lemma_close_flag_set_once(inputs: Seq<WindowInput>, i: int, j: int)
    requires
        0 <= i <= j <= inputs.len(),
    ensures
        !closed_after(inputs.take(0)),
        closed_after(inputs.take(i)) ==> closed_after(inputs.take(j)),
        i < inputs.len() ==> (closed_after(inputs.take(i + 1)) && !closed_after(inputs.take(i))
            <==> requests_close(inputs[i]) && !closed_after(inputs.take(i))),
    decreases j - i,
{
    if i < inputs.len() {
        lemma_close_flag_step(inputs, i);
    }
    if i < j {
        lemma_close_flag_set_once(inputs, i + 1, j);
    }
}

} // verus!
