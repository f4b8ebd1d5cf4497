//! The per-frame decisions of the application window.
//!
//! Each frame the caller hands in the content rectangle, the pointer as it
//! sampled it and, while the quit dialog is open, the answer given there.
//! It gets back what to draw and the commands to pass on to the window
//! manager, in the order they were decided.

use vstd::prelude::*;
use crate::geometry::{Rect, Vector};
use crate::input::{DialogChoice, PointerSnapshot};
use crate::title_bar::{
    layout, lemma_buttons_apart, spec_layout, spec_title_bar_rect, title_bar_rect, ControlButton,
    TitleBarLayout,
};
use crate::window::{
    count_close, lemma_commands_concat, lemma_commands_single, total_translation,
    WindowChromeState, WindowCommand,
};

verus! {

/// Where a request to close the window stands.
#[derive(Clone, Copy, Debug, PartialEq, Eq, Structural)]
pub enum ClosePhase {
    /// Nothing is waiting for an answer.
    Idle,
    /// A request to close came in and the dialog is open.
    ConfirmPending,
}

/// What one frame decided.
pub struct FramePlan {
    /// Where the parts of the title bar are.
    pub title_bar: TitleBarLayout,
    /// The commands for the window manager, first to last.
    pub commands: Vec<WindowCommand>,
    /// The quit dialog is to be shown in the next frame.
    pub confirmation_open: bool,
}

/// The application's state, as plain values.
pub struct MruAppModel {
    pub window: WindowChromeState,
    /// The user has confirmed that the window may close.
    pub allowed_to_close: bool,
    /// Closing the window takes a confirmation.
    pub confirm_close: bool,
}

/// The application. It owns the window's flags and remembers whether the
/// user has agreed to close.
pub struct MruApp {
    window: WindowChromeState,
    allowed_to_close: bool,
    confirm_close: bool,
}

/// What the title bar's surface makes of the pointer: a double click on the
/// bar flips the maximized flag; failing that, a press that began on the bar
/// and is still held moves the window by the pointer's movement.
pub open spec fn surface_commands(
    window: WindowChromeState,
    bar: Rect,
    pointer: PointerSnapshot,
) -> Seq<WindowCommand> {
    if pointer.spec_double_clicked_on(bar) {
        seq![WindowCommand::SetMaximized(!window.maximized)]
    } else if pointer.spec_held_on(bar) {
        seq![WindowCommand::Translate(pointer.delta)]
    } else {
        Seq::empty()
    }
}

/// One command if `hit`, none otherwise.
pub open spec fn command_if(hit: bool, command: WindowCommand) -> Seq<WindowCommand> {
    if hit {
        seq![command]
    } else {
        Seq::empty()
    }
}

/// What the control buttons of `plan` make of the pointer: each button that
/// was clicked issues its command once, close first, then maximize or
/// restore as the button offers, then minimize.
pub open spec fn button_commands(plan: TitleBarLayout, pointer: PointerSnapshot) -> Seq<
    WindowCommand,
> {
    command_if(pointer.spec_clicked_on(plan.close_button), WindowCommand::Close) + command_if(
        pointer.spec_clicked_on(plan.maximize_button),
        WindowCommand::SetMaximized(plan.affordance.spec_target()),
    ) + command_if(pointer.spec_clicked_on(plan.minimize_button), WindowCommand::Minimize)
}

/// Everything the title bar issues in one frame.
pub open spec fn title_bar_commands(
    window: WindowChromeState,
    bar: Rect,
    pointer: PointerSnapshot,
) -> Seq<WindowCommand> {
    surface_commands(window, bar, pointer) + button_commands(
        spec_layout(bar, window.maximized),
        pointer,
    )
}

/// How far the title bar moves the window in one frame.
pub open spec fn drag_translation(bar: Rect, pointer: PointerSnapshot) -> Vector {
    if !pointer.spec_double_clicked_on(bar) && pointer.spec_held_on(bar) {
        pointer.delta
    } else {
        Vector::spec_zero()
    }
}

impl MruAppModel {
    /// An application that closes without asking has no request waiting and
    /// no confirmation stored.
    pub open spec fn wf(self) -> bool {
        !self.confirm_close ==> !self.window.closing_requested && !self.allowed_to_close
    }

    pub open spec fn phase(self) -> ClosePhase {
        if self.window.closing_requested {
            ClosePhase::ConfirmPending
        } else {
            ClosePhase::Idle
        }
    }

    /// The state after the window manager asked whether the window may
    /// close.
    pub open spec fn after_close_event(self) -> MruAppModel {
        if self.confirm_close {
            MruAppModel {
                window: WindowChromeState { closing_requested: true, ..self.window },
                ..self
            }
        } else {
            self
        }
    }

    /// Whether the window may close when the window manager asks.
    pub open spec fn may_close(self) -> bool {
        !self.confirm_close || self.allowed_to_close
    }

    /// The state after the dialog's answer was taken in.
    pub open spec fn after_choice(self, choice: Option<DialogChoice>) -> MruAppModel {
        if self.window.closing_requested {
            match choice {
                None => self,
                Some(DialogChoice::Cancel) => MruAppModel {
                    window: WindowChromeState { closing_requested: false, ..self.window },
                    ..self
                },
                Some(DialogChoice::Confirm) => MruAppModel {
                    window: WindowChromeState { closing_requested: false, ..self.window },
                    allowed_to_close: true,
                    ..self
                },
            }
        } else {
            self
        }
    }

    /// What the dialog's answer issues: a confirmation while the dialog is
    /// open closes the window, nothing else does anything.
    pub open spec fn choice_commands(self, choice: Option<DialogChoice>) -> Seq<WindowCommand> {
        command_if(
            self.window.closing_requested && choice == Some(DialogChoice::Confirm),
            WindowCommand::Close,
        )
    }

    /// The commands of one frame: those of the dialog, then those of the
    /// title bar, which are decided on the window's flags as they were when
    /// the frame began.
    pub open spec fn frame_commands(
        self,
        content: Rect,
        pointer: PointerSnapshot,
        choice: Option<DialogChoice>,
    ) -> Seq<WindowCommand> {
        self.choice_commands(choice) + title_bar_commands(
            self.window,
            spec_title_bar_rect(content),
            pointer,
        )
    }

    /// The state after one frame: the dialog's answer is taken in, then the
    /// title bar's commands take effect on the window's flags.
    pub open spec fn after_frame(
        self,
        content: Rect,
        pointer: PointerSnapshot,
        choice: Option<DialogChoice>,
    ) -> MruAppModel {
        let answered = self.after_choice(choice);
        MruAppModel {
            window: answered.window.after_all(
                title_bar_commands(self.window, spec_title_bar_rect(content), pointer),
            ),
            ..answered
        }
    }
}

/// Lets the control buttons react to the pointer. Each button that was
/// clicked appends its command to `commands`.
pub fn close_maximize_minimize(
    plan: &TitleBarLayout,
    pointer: &PointerSnapshot,
    commands: &mut Vec<WindowCommand>,
)
    ensures
        final(commands)@ == old(commands)@ + button_commands(*plan, *pointer),
{
    if pointer.clicked_on(plan.close_button) {
        commands.push(WindowCommand::Close);
    }
    if pointer.clicked_on(plan.maximize_button) {
        commands.push(WindowCommand::SetMaximized(plan.affordance.target()));
    }
    if pointer.clicked_on(plan.minimize_button) {
        commands.push(WindowCommand::Minimize);
    }
}

/// Lays out the title bar on `title_bar_rect` and lets it react to the
/// pointer: first the bar's surface, then the control buttons. The commands
/// are appended to `commands`; the layout says what to draw.
pub fn title_bar_ui(
    window: &WindowChromeState,
    title_bar_rect: Rect,
    pointer: &PointerSnapshot,
    commands: &mut Vec<WindowCommand>,
) -> (plan: TitleBarLayout)
    ensures
        plan == spec_layout(title_bar_rect, window.maximized),
        final(commands)@ == old(commands)@ + title_bar_commands(*window, title_bar_rect, *pointer),
{
    let plan = layout(title_bar_rect, window.maximized);
    if pointer.double_clicked_on(title_bar_rect) {
        commands.push(WindowCommand::SetMaximized(!window.maximized));
    } else if pointer.held_on(title_bar_rect) {
        commands.push(WindowCommand::Translate(pointer.delta));
    }
    close_maximize_minimize(&plan, pointer, commands);
    plan
}

impl MruAppModel {
    /// The state of an application that has just started.
    pub open spec fn initial(confirm_close: bool) -> MruAppModel {
        MruAppModel {
            window: WindowChromeState::spec_initial(),
            allowed_to_close: false,
            confirm_close,
        }
    }

    /// The state after the window manager reported the window's flags.
    pub open spec fn observing(self, maximized: bool, minimized: bool) -> MruAppModel {
        MruAppModel { window: WindowChromeState { maximized, minimized, ..self.window }, ..self }
    }
}

impl View for MruApp {
    type V = MruAppModel;

    closed spec fn view(&self) -> MruAppModel {
        MruAppModel {
            window: self.window,
            allowed_to_close: self.allowed_to_close,
            confirm_close: self.confirm_close,
        }
    }
}

impl Default for MruApp {
    /// An application that closes without asking.
    fn default() -> (app: MruApp)
        ensures
            app@ == MruAppModel::initial(false),
            app@.wf(),
    {
        MruApp::new(false)
    }
}

impl MruApp {
    #[verifier::type_invariant]
    spec fn inv(self) -> bool {
        self@.wf()
    }

    /// An application that has just started. With `confirm_close` the user
    /// has to confirm in a dialog before the window closes.
    pub fn new(confirm_close: bool) -> (app: MruApp)
        ensures
            app@ == MruAppModel::initial(confirm_close),
            app@.wf(),
    {
        MruApp { window: WindowChromeState::initial(), allowed_to_close: false, confirm_close }
    }

    /// The window's flags.
    pub fn window(&self) -> (window: WindowChromeState)
        ensures
            window == self@.window,
            self@.wf(),
    {
        proof {
            use_type_invariant(self);
        }
        self.window
    }

    /// Whether the user has confirmed that the window may close.
    pub fn allowed_to_close(&self) -> (allowed: bool)
        ensures
            allowed == self@.allowed_to_close,
    {
        self.allowed_to_close
    }

    /// Whether closing the window takes a confirmation.
    pub fn confirms_close(&self) -> (confirm: bool)
        ensures
            confirm == self@.confirm_close,
    {
        self.confirm_close
    }

    /// Where a request to close stands.
    pub fn close_phase(&self) -> (phase: ClosePhase)
        ensures
            phase == self@.phase(),
    {
        if self.window.closing_requested {
            ClosePhase::ConfirmPending
        } else {
            ClosePhase::Idle
        }
    }

    /// Takes over the flags that the window manager reports for the window.
    pub fn observe(&mut self, maximized: bool, minimized: bool)
        ensures
            final(self)@ == old(self)@.observing(maximized, minimized),
            final(self)@.wf(),
    {
        proof {
            use_type_invariant(&*self);
        }
        self.window.maximized = maximized;
        self.window.minimized = minimized;
    }

    /// The window manager asks whether the window may close. Without
    /// confirmation it may. With confirmation the request is noted, so that
    /// the dialog opens, and the window may close once the user has
    /// confirmed.
    pub fn on_close_event(&mut self) -> (allowed: bool)
        ensures
            final(self)@ == old(self)@.after_close_event(),
            allowed == old(self)@.may_close(),
            final(self)@.wf(),
    {
        proof {
            use_type_invariant(&*self);
        }
        if self.confirm_close {
            self.window.closing_requested = true;
            self.allowed_to_close
        } else {
            true
        }
    }

    /// Takes in the answer given in the quit dialog. While the dialog is
    /// open, a cancel closes the dialog, and a confirmation closes the
    /// dialog, stores the consent and appends the command to close the window.
    /// While no dialog is open nothing happens.
    pub fn on_close(&mut self, choice: Option<DialogChoice>, commands: &mut Vec<WindowCommand>)
        ensures
            final(self)@ == old(self)@.after_choice(choice),
            final(commands)@ == old(commands)@ + old(self)@.choice_commands(choice),
            final(self)@.wf(),
    {
        proof {
            use_type_invariant(&*self);
        }
        if self.window.closing_requested {
            match choice {
                None => {},
                Some(DialogChoice::Cancel) => {
                    self.window.closing_requested = false;
                },
                Some(DialogChoice::Confirm) => {
                    self.window.closing_requested = false;
                    self.allowed_to_close = true;
                    commands.push(WindowCommand::Close);
                },
            }
        }
    }

    /// Runs one frame: takes in the dialog's answer, lays out the title bar
    /// on the top strip of `content`, lets it react to the pointer, and
    /// records what the issued commands do to the window's flags.
    pub fn update(
        &mut self,
        content: Rect,
        pointer: &PointerSnapshot,
        choice: Option<DialogChoice>,
    ) -> (frame: FramePlan)
        ensures
            frame.title_bar == spec_layout(spec_title_bar_rect(content), old(self)@.window.maximized),
            frame.commands@ == old(self)@.frame_commands(content, *pointer, choice),
            frame.confirmation_open == (final(self)@.phase() == ClosePhase::ConfirmPending),
            final(self)@ == old(self)@.after_frame(content, *pointer, choice),
            final(self)@.wf(),
    {
        proof {
            use_type_invariant(&*self);
        }
        let at_start = self.window;
        let mut commands: Vec<WindowCommand> = Vec::new();
        self.on_close(choice, &mut commands);
        let bar = title_bar_rect(content);
        let mut issued: Vec<WindowCommand> = Vec::new();
        let title_bar = title_bar_ui(&at_start, bar, pointer, &mut issued);
        let mut window = self.window;
        window.apply_all(&issued);
        proof {
            lemma_closing_flag_kept(self.window, issued@);
        }
        self.window = window;
        commands.append(&mut issued);
        FramePlan { title_bar, commands, confirmation_open: self.window.closing_requested }
    }
}

/// No command touches the flag that says a request to close is waiting.
pub proof fn lemma_closing_flag_kept(window: WindowChromeState, commands: Seq<WindowCommand>)
    ensures
        window.after_all(commands).closing_requested == window.closing_requested,
    decreases commands.len(),
{
    if commands.len() > 0 {
        lemma_closing_flag_kept(window, commands.drop_last());
    }
}

/// What zero or one command does.
proof fn lemma_command_if(window: WindowChromeState, hit: bool, command: WindowCommand)
    ensures
        window.after_all(command_if(hit, command)) == if hit {
            window.after(command)
        } else {
            window
        },
        count_close(command_if(hit, command)) == if hit && command == WindowCommand::Close {
            1nat
        } else {
            0nat
        },
        total_translation(command_if(hit, command)) == match command {
            WindowCommand::Translate(v) if hit => (v.dx as int, v.dy as int),
            _ => (0int, 0int),
        },
{
    if hit {
        lemma_commands_single(window, command);
    }
}

/// What the title bar's commands of one frame come to.
///
/// The maximized flag is flipped exactly if the bar was double-clicked or
/// the middle button was clicked, and both in one frame flip it once. The
/// minimized flag is set by a click on the minimize button and is never
/// cleared. The close button issues one command to close per click and
/// nothing else issues any. The window moves by the pointer's movement
/// while a press that began on the bar is held and the bar was not
/// double-clicked, and does not move otherwise.
pub proof fn lemma_title_bar_effect(window: WindowChromeState, bar: Rect, pointer: PointerSnapshot)
    ensures
        ({
            let plan = spec_layout(bar, window.maximized);
            let issued = title_bar_commands(window, bar, pointer);
            let next = window.after_all(issued);
            &&& next.maximized == (window.maximized != (pointer.spec_double_clicked_on(bar)
                || pointer.spec_clicked_on(plan.maximize_button)))
            &&& next.minimized == (window.minimized || pointer.spec_clicked_on(
                plan.minimize_button,
            ))
            &&& next.closing_requested == window.closing_requested
            &&& count_close(issued) == if pointer.spec_clicked_on(plan.close_button) {
                1nat
            } else {
                0nat
            }
            &&& total_translation(issued) == (
                drag_translation(bar, pointer).dx as int,
                drag_translation(bar, pointer).dy as int,
            )
        }),
{
    let plan = spec_layout(bar, window.maximized);
    let surface = surface_commands(window, bar, pointer);
    let close = command_if(pointer.spec_clicked_on(plan.close_button), WindowCommand::Close);
    let maximize = command_if(
        pointer.spec_clicked_on(plan.maximize_button),
        WindowCommand::SetMaximized(plan.affordance.spec_target()),
    );
    let minimize = command_if(
        pointer.spec_clicked_on(plan.minimize_button),
        WindowCommand::Minimize,
    );
    let after_surface = window.after_all(surface);
    let after_close = after_surface.after_all(close);
    let after_maximize = after_close.after_all(maximize);
    if pointer.spec_double_clicked_on(bar) {
        lemma_commands_single(window, WindowCommand::SetMaximized(!window.maximized));
    } else if pointer.spec_held_on(bar) {
        lemma_commands_single(window, WindowCommand::Translate(pointer.delta));
    }
    lemma_command_if(after_surface, pointer.spec_clicked_on(plan.close_button), WindowCommand::Close);
    lemma_command_if(
        after_close,
        pointer.spec_clicked_on(plan.maximize_button),
        WindowCommand::SetMaximized(plan.affordance.spec_target()),
    );
    lemma_command_if(
        after_maximize,
        pointer.spec_clicked_on(plan.minimize_button),
        WindowCommand::Minimize,
    );
    lemma_commands_concat(after_surface, close, maximize);
    lemma_commands_concat(after_surface, close + maximize, minimize);
    lemma_commands_concat(window, surface, close + maximize + minimize);
}

/// The control buttons of a title bar share no unit, so one click reaches
/// at most one of them and the buttons issue at most one command per frame.
pub proof fn lemma_click_reaches_one_button(bar: Rect, maximized: bool, pointer: PointerSnapshot)
    ensures
        button_commands(spec_layout(bar, maximized), pointer).len() <= 1,
{
    lemma_buttons_apart(bar, ControlButton::Close, ControlButton::MaximizeRestore);
    lemma_buttons_apart(bar, ControlButton::Close, ControlButton::Minimize);
    lemma_buttons_apart(bar, ControlButton::MaximizeRestore, ControlButton::Minimize);
}

/// A double click on the title bar flips the maximized flag, whatever else
/// the frame holds, so a second one brings the flag back to where it was.
pub proof fn lemma_double_click_toggles_maximize(
    app: MruAppModel,
    content: Rect,
    first: PointerSnapshot,
    first_choice: Option<DialogChoice>,
    second: PointerSnapshot,
    second_choice: Option<DialogChoice>,
)
    requires
        first.spec_double_clicked_on(spec_title_bar_rect(content)),
        second.spec_double_clicked_on(spec_title_bar_rect(content)),
    ensures
        app.after_frame(content, first, first_choice).window.maximized == !app.window.maximized,
        app.after_frame(content, first, first_choice).after_frame(
            content,
            second,
            second_choice,
        ).window.maximized == app.window.maximized,
{
    let bar = spec_title_bar_rect(content);
    let once = app.after_frame(content, first, first_choice);
    lemma_title_bar_effect(app.window, bar, first);
    lemma_window_flags_after(app.after_choice(first_choice).window, app.window, bar, first);
    lemma_title_bar_effect(once.window, bar, second);
    lemma_window_flags_after(once.after_choice(second_choice).window, once.window, bar, second);
}

/// A click on the minimize button sets the minimized flag, whatever the
/// flag was and whatever else the frame holds; no frame clears it, so
/// another click leaves it set.
pub proof fn lemma_minimize_click_minimizes(
    app: MruAppModel,
    content: Rect,
    pointer: PointerSnapshot,
    choice: Option<DialogChoice>,
)
    ensures
        pointer.spec_clicked_on(
            spec_layout(spec_title_bar_rect(content), app.window.maximized).minimize_button,
        ) ==> app.after_frame(content, pointer, choice).window.minimized,
        app.window.minimized ==> app.after_frame(content, pointer, choice).window.minimized,
{
    let bar = spec_title_bar_rect(content);
    lemma_title_bar_effect(app.window, bar, pointer);
    lemma_window_flags_after(app.after_choice(choice).window, app.window, bar, pointer);
}

/// A frame issues one command to close for a click on the close button and
/// one for a confirmation given while the dialog is open, and no other.
pub proof fn lemma_one_close_per_click(
    app: MruAppModel,
    content: Rect,
    pointer: PointerSnapshot,
    choice: Option<DialogChoice>,
)
    ensures
        count_close(app.frame_commands(content, pointer, choice)) == (if pointer.spec_clicked_on(
            spec_layout(spec_title_bar_rect(content), app.window.maximized).close_button,
        ) {
            1nat
        } else {
            0nat
        }) + (if app.window.closing_requested && choice == Some(DialogChoice::Confirm) {
            1nat
        } else {
            0nat
        }),
{
    let bar = spec_title_bar_rect(content);
    lemma_title_bar_effect(app.window, bar, pointer);
    lemma_command_if(
        app.window,
        app.window.closing_requested && choice == Some(DialogChoice::Confirm),
        WindowCommand::Close,
    );
    lemma_commands_concat(
        app.window,
        app.choice_commands(choice),
        title_bar_commands(app.window, bar, pointer),
    );
}

/// A frame moves the window by exactly the pointer's movement while a press
/// of the primary button that began on the title bar is held and the bar
/// was not double-clicked in that frame. In every other frame, so when the
/// button is released or the press began off the bar, the window does not
/// move.
pub proof fn lemma_drag_moves_by_delta(
    app: MruAppModel,
    content: Rect,
    pointer: PointerSnapshot,
    choice: Option<DialogChoice>,
)
    ensures
        ({
            let bar = spec_title_bar_rect(content);
            let moved = total_translation(app.frame_commands(content, pointer, choice));
            let dragging = pointer.primary_down && (pointer.press_origin matches Some(origin)
                && bar.spec_contains(origin)) && !pointer.spec_double_clicked_on(bar);
            &&& dragging ==> moved == (pointer.delta.dx as int, pointer.delta.dy as int)
            &&& !dragging ==> moved == (0int, 0int)
        }),
{
    let bar = spec_title_bar_rect(content);
    lemma_title_bar_effect(app.window, bar, pointer);
    lemma_command_if(
        app.window,
        app.window.closing_requested && choice == Some(DialogChoice::Confirm),
        WindowCommand::Close,
    );
    lemma_commands_concat(
        app.window,
        app.choice_commands(choice),
        title_bar_commands(app.window, bar, pointer),
    );
}

/// Well-formedness is kept: an application that closes without
/// asking never has a request waiting nor a confirmation stored, whatever
/// happens to it.
pub proof fn lemma_stays_well_formed(
    app: MruAppModel,
    content: Rect,
    pointer: PointerSnapshot,
    choice: Option<DialogChoice>,
    maximized: bool,
    minimized: bool,
)
    requires
        app.wf(),
    ensures
        app.after_close_event().wf(),
        app.after_choice(choice).wf(),
        app.after_frame(content, pointer, choice).wf(),
        app.observing(maximized, minimized).wf(),
{
    lemma_closing_flag_kept(
        app.after_choice(choice).window,
        title_bar_commands(app.window, spec_title_bar_rect(content), pointer),
    );
}

/// The two steps of closing with confirmation. The first request to close
/// is put off and opens the dialog. A cancel closes the dialog and leaves
/// everything else as it was. A confirmation closes the dialog and issues
/// the command to close, and the request that follows is granted.
pub proof fn lemma_confirm_then_close(app: MruAppModel)
    requires
        app.confirm_close,
        !app.allowed_to_close,
    ensures
        !app.may_close(),
        app.after_close_event().phase() == ClosePhase::ConfirmPending,
        app.after_close_event().choice_commands(Some(DialogChoice::Cancel)) == Seq::<
            WindowCommand,
        >::empty(),
        app.after_close_event().after_choice(Some(DialogChoice::Cancel)) == (MruAppModel {
            window: WindowChromeState { closing_requested: false, ..app.window },
            ..app
        }),
        app.after_close_event().choice_commands(Some(DialogChoice::Confirm))
            == seq![WindowCommand::Close],
        app.after_close_event().after_choice(Some(DialogChoice::Confirm)).phase()
            == ClosePhase::Idle,
        app.after_close_event().after_choice(Some(DialogChoice::Confirm)).may_close(),
{
}

/// An application that closes without asking grants every request to
/// close and is not changed by one.
pub proof fn lemma_close_without_asking(app: MruAppModel)
    requires
        !app.confirm_close,
    ensures
        app.may_close(),
        app.after_close_event() == app,
{
}

/// The flags that the title bar's commands leave depend on the flags they
/// start from only flag by flag: the waiting request is carried through,
/// the other two come out as they do from the flags the frame began with.
proof fn lemma_window_flags_after(
    answered: WindowChromeState,
    at_start: WindowChromeState,
    bar: Rect,
    pointer: PointerSnapshot,
)
    requires
        answered.maximized == at_start.maximized,
        answered.minimized == at_start.minimized,
    ensures
        answered.after_all(title_bar_commands(at_start, bar, pointer)).maximized
            == at_start.after_all(title_bar_commands(at_start, bar, pointer)).maximized,
        answered.after_all(title_bar_commands(at_start, bar, pointer)).minimized
            == at_start.after_all(title_bar_commands(at_start, bar, pointer)).minimized,
{
    lemma_flags_run_alike(answered, at_start, title_bar_commands(at_start, bar, pointer));
}

proof fn lemma_flags_run_alike(a: WindowChromeState, b: WindowChromeState, commands: Seq<WindowCommand>)
    requires
        a.maximized == b.maximized,
        a.minimized == b.minimized,
    ensures
        a.after_all(commands).maximized == b.after_all(commands).maximized,
        a.after_all(commands).minimized == b.after_all(commands).minimized,
    decreases commands.len(),
{
    if commands.len() > 0 {
        lemma_flags_run_alike(a, b, commands.drop_last());
    }
}

} // verus!
