//! The window as the controller sees it: a few flags, the commands that
//! change them, and the options the window is created with.

use vstd::prelude::*;
use crate::geometry::Vector;

verus! {

/// The flags of the window that the chrome reads and changes.
///
/// No combination is ruled out: a window may be maximized and minimized at
/// once, and what that looks like is up to the window manager.
#[derive(Clone, Copy, Debug, PartialEq, Eq, Structural)]
pub struct WindowChromeState {
    pub maximized: bool,
    pub minimized: bool,
    /// A request to close has come in and waits for an answer.
    pub closing_requested: bool,
}

/// A command for the window manager. Commands cannot fail and are never
/// retried.
#[derive(Clone, Copy, Debug, PartialEq, Eq, Structural)]
pub enum WindowCommand {
    /// Move the window by the given displacement.
    Translate(Vector),
    /// Maximize the window (`true`) or restore it (`false`).
    SetMaximized(bool),
    /// Minimize the window.
    Minimize,
    /// Close the window.
    Close,
}

/// Width and height in units.
#[derive(Clone, Copy, Debug, PartialEq, Eq, Structural)]
pub struct Size {
    pub width: u32,
    pub height: u32,
}

/// How the window is created.
#[derive(Clone, Copy, Debug, PartialEq, Eq, Structural)]
pub struct WindowOptions {
    /// The window manager draws its own title bar and border.
    pub decorated: bool,
    /// The window's background lets the desktop show through.
    pub transparent: bool,
    pub min_size: Size,
    pub initial_size: Size,
}

impl WindowOptions {
    /// The options of the application's only window: no native decoration,
    /// a transparent background, at least 400 by 100 units, 1920 by 1080 at
    /// first.
    pub open spec fn spec_startup() -> WindowOptions {
        WindowOptions {
            decorated: false,
            transparent: true,
            min_size: Size { width: 400, height: 100 },
            initial_size: Size { width: 1920, height: 1080 },
        }
    }

    #[verifier::when_used_as_spec(spec_startup)]
    pub fn startup() -> (options: WindowOptions)
        ensures
            options == WindowOptions::spec_startup(),
    {
        WindowOptions {
            decorated: false,
            transparent: true,
            min_size: Size { width: 400, height: 100 },
            initial_size: Size { width: 1920, height: 1080 },
        }
    }
}

impl WindowChromeState {
    /// The flags of a window that was just created.
    pub open spec fn spec_initial() -> WindowChromeState {
        WindowChromeState { maximized: false, minimized: false, closing_requested: false }
    }

    /// The flags after the window manager carried out `command`.
    pub open spec fn after(self, command: WindowCommand) -> WindowChromeState {
        match command {
            WindowCommand::Translate(_) => self,
            WindowCommand::SetMaximized(on) => WindowChromeState { maximized: on, ..self },
            WindowCommand::Minimize => WindowChromeState { minimized: true, ..self },
            WindowCommand::Close => self,
        }
    }

    /// The flags after the window manager carried out `commands` from first
    /// to last.
    pub open spec fn after_all(self, commands: Seq<WindowCommand>) -> WindowChromeState
        decreases commands.len(),
    {
        if commands.len() == 0 {
            self
        } else {
            self.after_all(commands.drop_last()).after(commands.last())
        }
    }

    #[verifier::when_used_as_spec(spec_initial)]
    pub fn initial() -> (state: WindowChromeState)
        ensures
            state == WindowChromeState::spec_initial(),
    {
        WindowChromeState { maximized: false, minimized: false, closing_requested: false }
    }

    /// Records the effect of one command.
    pub fn apply(&mut self, command: WindowCommand)
        ensures
            *final(self) == old(self).after(command),
    {
        match command {
            WindowCommand::Translate(_) => {},
            WindowCommand::SetMaximized(on) => {
                self.maximized = on;
            },
            WindowCommand::Minimize => {
                self.minimized = true;
            },
            WindowCommand::Close => {},
        }
    }

    /// Records the effect of a frame's commands, in the order they were
    /// issued.
    pub fn apply_all(&mut self, commands: &Vec<WindowCommand>)
        ensures
            *final(self) == old(self).after_all(commands@),
    {
        let mut i: usize = 0;
        while i < commands.len()
            invariant
                i <= commands.len(),
                *self == old(self).after_all(commands@.take(i as int)),
            decreases commands.len() - i,
        {
            proof {
                assert(commands@.take(i + 1).drop_last() == commands@.take(i as int));
            }
            self.apply(commands[i]);
            i = i + 1;
        }
        proof {
            assert(commands@.take(i as int) == commands@);
        }
    }
}

/// How many of `commands` ask to close the window.
pub open spec fn count_close(commands: Seq<WindowCommand>) -> nat
    decreases commands.len(),
{
    if commands.len() == 0 {
        0
    } else {
        count_close(commands.drop_last()) + if commands.last() == WindowCommand::Close {
            1nat
        } else {
            0nat
        }
    }
}

/// The sum of all displacements that `commands` ask for, as a pair of
/// whole numbers.
pub open spec fn total_translation(commands: Seq<WindowCommand>) -> (int, int)
    decreases commands.len(),
{
    if commands.len() == 0 {
        (0, 0)
    } else {
        let rest = total_translation(commands.drop_last());
        match commands.last() {
            WindowCommand::Translate(v) => (rest.0 + v.dx, rest.1 + v.dy),
            _ => rest,
        }
    }
}

/// Carrying out two runs of commands one after the other is carrying out
/// their concatenation, and what is counted or summed over the
/// concatenation is the sum over the two runs.
pub proof fn lemma_commands_concat(
    window: WindowChromeState,
    first: Seq<WindowCommand>,
    second: Seq<WindowCommand>,
)
    ensures
        window.after_all(first + second) == window.after_all(first).after_all(second),
        count_close(first + second) == count_close(first) + count_close(second),
        total_translation(first + second).0 == total_translation(first).0 + total_translation(
            second,
        ).0,
        total_translation(first + second).1 == total_translation(first).1 + total_translation(
            second,
        ).1,
    decreases second.len(),
{
    if second.len() == 0 {
        assert(first + second == first);
    } else {
        assert((first + second).drop_last() == first + second.drop_last());
        assert((first + second).last() == second.last());
        lemma_commands_concat(window, first, second.drop_last());
    }
}

/// A run of one command does what the command does.
pub proof fn lemma_commands_single(window: WindowChromeState, command: WindowCommand)
    ensures
        window.after_all(seq![command]) == window.after(command),
        count_close(seq![command]) == if command == WindowCommand::Close {
            1nat
        } else {
            0nat
        },
        total_translation(seq![command]) == match command {
            WindowCommand::Translate(v) => (v.dx as int, v.dy as int),
            _ => (0int, 0int),
        },
{
    let run = seq![command];
    assert(run.drop_last().len() == 0);
    assert(run.last() == command);
    assert(window.after_all(run.drop_last()) == window);
    assert(count_close(run.drop_last()) == 0);
    assert(total_translation(run.drop_last()) == (0int, 0int));
}

} // verus!
