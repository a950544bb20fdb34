//! The drawing context: a buffer of commands and the session that replays
//! them onto a surface.

use crate::color::Color;
use crate::command::{AlignMode, Command, CommandView, LayoutMode};
use crate::error::{AcureError, AeResult};
use crate::surface::{painted, Surface, SurfaceCall, Traced};
use vstd::prelude::*;

verus! {

/// Whether a frame is open.
#[derive(Clone, Copy, Debug, PartialEq, Eq, Structural)]
enum ContextState {
    Begin,
    End,
}

/// Reserved for a step-by-step construction of a context.
pub struct AcureBuilder {}

/// One operation on a drawing context, as a mathematical value.
pub enum Operation {
    SetBackgroundColor(Color),
    SetAlignMode(AlignMode),
    SetLayoutMode(LayoutMode),
    Clear,
    Begin,
    Push(CommandView),
    Write,
}

/// The mathematical value of a drawing context.
pub struct AcureView {
    /// The pending commands, oldest first.
    pub buffer: Seq<CommandView>,
    /// The colour with which a frame is cleared before the commands run.
    pub background: Color,
    /// The alignment handed to the surface with each command.
    pub align: AlignMode,
    /// The layout handed to the surface with each command.
    pub layout: LayoutMode,
    /// Whether a frame is open.
    pub begun: bool,
}

impl AcureView {
    /// A new context: nothing pending, a transparent black background,
    /// flexible alignment, no layout policy, no frame open.
    pub open spec fn initial() -> AcureView {
        AcureView {
            buffer: Seq::empty(),
            background: Color::ARGB(0, 0, 0, 0),
            align: AlignMode::Flex,
            layout: LayoutMode::NoCare,
            begun: false,
        }
    }

    /// The context with another background colour.
    pub open spec fn set_background_color(self, color: Color) -> AcureView {
        AcureView { background: color, ..self }
    }

    /// The context with another alignment.
    pub open spec fn set_align_mode(self, mode: AlignMode) -> AcureView {
        AcureView { align: mode, ..self }
    }

    /// The context with another layout.
    pub open spec fn set_layout_mode(self, mode: LayoutMode) -> AcureView {
        AcureView { layout: mode, ..self }
    }

    /// The context after a frame was opened.
    pub open spec fn begin(self) -> AcureView {
        AcureView { begun: true, ..self }
    }

    /// The context after a command was appended.
    pub open spec fn push(self, command: CommandView) -> AcureView {
        AcureView { buffer: self.buffer.push(command), ..self }
    }

    /// The context after the commands in `commands` were appended, first to
    /// last.
    pub open spec fn push_all(self, commands: Seq<CommandView>) -> AcureView
        decreases commands.len(),
    {
        if commands.len() == 0 {
            self
        } else {
            self.push_all(commands.drop_last()).push(commands.last())
        }
    }

    /// The context after its buffer was emptied.
    pub open spec fn clear(self) -> AcureView {
        AcureView { buffer: Seq::empty(), ..self }
    }

    /// What a surface receives for one frame: the background, then each
    /// pending command in the order of the buffer, then the end of the frame.
    pub open spec fn frame(self) -> Seq<SurfaceCall> {
        seq![SurfaceCall::Clear(self.background)] + self.buffer.map_values(
            |command: CommandView| SurfaceCall::Command(command, self.align, self.layout),
        ) + seq![SurfaceCall::End]
    }

    /// What a surface receives from a write: a frame if one is open, else
    /// nothing.
    pub open spec fn write_calls(self) -> Seq<SurfaceCall> {
        if self.begun {
            self.frame()
        } else {
            Seq::empty()
        }
    }

    /// What a write returns: success if a frame is open, else the refusal.
    pub open spec fn write_result(self) -> AeResult<()> {
        if self.begun {
            Ok(())
        } else {
            Err(AcureError::UnauthorizedOperation)
        }
    }

    /// The context after a write: the frame is closed if one was open, and
    /// nothing else changes.
    pub open spec fn write(self) -> AcureView {
        if self.begun {
            AcureView { begun: false, ..self }
        } else {
            self
        }
    }

    /// The context after one operation.
    pub open spec fn apply(self, operation: Operation) -> AcureView {
        match operation {
            Operation::SetBackgroundColor(color) => self.set_background_color(color),
            Operation::SetAlignMode(mode) => self.set_align_mode(mode),
            Operation::SetLayoutMode(mode) => self.set_layout_mode(mode),
            Operation::Clear => self.clear(),
            Operation::Begin => self.begin(),
            Operation::Push(command) => self.push(command),
            Operation::Write => self.write(),
        }
    }

    /// The context after the operations in `operations`, first to last.
    pub open spec fn run(self, operations: Seq<Operation>) -> AcureView
        decreases operations.len(),
    {
        if operations.len() == 0 {
            self
        } else {
            self.run(operations.drop_last()).apply(operations.last())
        }
    }
}

/// A write with no frame open is refused, changes nothing of the context
/// and sends nothing to the surface.
pub proof fn lemma_write_needs_open_frame(context: AcureView)
    requires
        !context.begun,
    ensures
        context.write_result() == Err::<(), AcureError>(AcureError::UnauthorizedOperation),
        context.write() == context,
        context.write_calls() == Seq::<SurfaceCall>::empty(),
{
}

/// Only a begin opens a frame: after any operations on a new context, none
/// of them a begin, a write is refused and changes nothing of the context,
/// its buffer included.
pub proof fn lemma_write_before_begin(operations: Seq<Operation>)
    requires
        forall|i: int| 0 <= i < operations.len() ==> !(operations[i] is Begin),
    ensures
        !AcureView::initial().run(operations).begun,
        AcureView::initial().run(operations).write_result() == Err::<(), AcureError>(
            AcureError::UnauthorizedOperation,
        ),
        AcureView::initial().run(operations).write() == AcureView::initial().run(operations),
        AcureView::initial().run(operations).write_calls() == Seq::<SurfaceCall>::empty(),
    decreases operations.len(),
{
    if operations.len() > 0 {
        lemma_write_before_begin(operations.drop_last());
    }
}

/// A write right after a begin succeeds and closes the frame, so that the
/// context is as it was before the begin if no frame was open then; a second
/// write right after it is refused and changes nothing.
pub proof fn lemma_write_closes_frame(context: AcureView)
    ensures
        context.begin().write_result() == Ok::<(), AcureError>(()),
        context.begin().write() == (AcureView { begun: false, ..context }),
        !context.begun ==> context.begin().write() == context,
        context.begin().write().write_result() == Err::<(), AcureError>(
            AcureError::UnauthorizedOperation,
        ),
        context.begin().write().write() == context.begin().write(),
        context.begin().write().write_calls() == Seq::<SurfaceCall>::empty(),
{
}

/// A push followed by a clear leaves the buffer empty, whether or not a
/// frame is open, and changes nothing else.
pub proof fn lemma_push_then_clear(context: AcureView, command: CommandView)
    ensures
        context.push(command).clear().buffer == Seq::<CommandView>::empty(),
        context.push(command).clear() == context.clear(),
        context.push(command).clear().begun == context.begun,
{
}

/// Pushing a sequence of commands appends it to the buffer as it is, and
/// changes nothing else.
pub proof fn lemma_push_all_appends(context: AcureView, commands: Seq<CommandView>)
    ensures
        context.push_all(commands) == (AcureView {
            buffer: context.buffer + commands,
            ..context
        }),
    decreases commands.len(),
{
    if commands.len() == 0 {
        assert(context.buffer + commands =~= context.buffer);
    } else {
        lemma_push_all_appends(context, commands.drop_last());
        assert((context.buffer + commands.drop_last()).push(commands.last()) =~= context.buffer
            + commands);
    }
}

/// A frame replays the buffer first in, first out: after the background,
/// the surface receives the command at each position of the buffer at that
/// position of the frame, under the context's modes, and then the end of the
/// frame.
pub proof fn lemma_frame_in_buffer_order(context: AcureView)
    ensures
        context.frame().len() == context.buffer.len() + 2,
        context.frame()[0] == SurfaceCall::Clear(context.background),
        forall|i: int|
            0 <= i < context.buffer.len() ==> #[trigger] context.frame()[i + 1]
                == SurfaceCall::Command(context.buffer[i], context.align, context.layout),
        context.frame().last() == SurfaceCall::End,
{
}

/// Commands reach the surface in the order in which they were pushed: after
/// a begin and the pushes of `commands` onto an empty buffer, a write sends
/// the background, then `commands` from first to last, then the end of the
/// frame.
pub proof fn lemma_replay_in_push_order(context: AcureView, commands: Seq<CommandView>)
    ensures
        context.clear().begin().push_all(commands).write_calls() == seq![
            SurfaceCall::Clear(context.background),
        ] + commands.map_values(
            |command: CommandView| SurfaceCall::Command(command, context.align, context.layout),
        ) + seq![SurfaceCall::End],
{
    let started = context.clear().begin();
    lemma_push_all_appends(started, commands);
    assert(started.buffer + commands =~= commands);
}

/// A drawing context: an ordered buffer of commands, the settings sent along
/// with them, and the state of the current frame.
pub struct Acure {
    buffer: Vec<Command>,
    bgr: Color,
    align: AlignMode,
    layout: LayoutMode,
    state: ContextState,
}

impl View for Acure {
    type V = AcureView;

    closed spec fn view(&self) -> AcureView {
        AcureView {
            buffer: self.buffer@.map_values(|command: Command| command@),
            background: self.bgr,
            align: self.align,
            layout: self.layout,
            begun: self.state == ContextState::Begin,
        }
    }
}

impl Acure {
    /// A context in its initial state.
    pub fn new() -> (context: Self)
        ensures
            context@ == AcureView::initial(),
    {
        let context = Acure {
            buffer: Vec::new(),
            bgr: Color::ARGB(0, 0, 0, 0),
            align: AlignMode::Flex,
            layout: LayoutMode::NoCare,
            state: ContextState::End,
        };
        assert(context@.buffer =~= Seq::empty());
        context
    }

    /// Sets the colour with which each frame is cleared.
    pub fn set_background_color(&mut self, color: Color)
        ensures
            final(self)@ == old(self)@.set_background_color(color),
    {
        self.bgr = color;
    }

    /// Sets the alignment handed to the surface with each command.
    pub fn set_align_mode(&mut self, mode: AlignMode)
        ensures
            final(self)@ == old(self)@.set_align_mode(mode),
    {
        self.align = mode;
    }

    /// Sets the layout handed to the surface with each command.
    pub fn set_layout_mode(&mut self, mode: LayoutMode)
        ensures
            final(self)@ == old(self)@.set_layout_mode(mode),
    {
        self.layout = mode;
    }

    /// Empties the buffer, whether or not a frame is open.
    pub fn clear(&mut self)
        ensures
            final(self)@ == old(self)@.clear(),
    {
        if !self.buffer.is_empty() {
            self.buffer.clear();
        }
        assert(self@.buffer =~= Seq::empty());
    }

    /// Opens a frame and tells the surface so, by one call of its `begin`.
    pub fn begin<T: Surface>(&mut self, surface: &mut Traced<T>)
        ensures
            final(self)@ == old(self)@.begin(),
            final(surface).calls() == old(surface).calls().push(SurfaceCall::Begin),
            exists|device: &mut T|
                mut_ref_current(device) == old(surface).inner()
                    && mut_ref_future(device) == final(surface).inner()
                    && #[trigger] call_ensures(T::begin, (device,), ()),
    {
        self.state = ContextState::Begin;
        surface.begin();
    }

    /// Appends a command to the buffer, whether or not a frame is open.
    pub fn push(&mut self, command: Command)
        ensures
            final(self)@ == old(self)@.push(command@),
    {
        self.buffer.push(command);
        assert(self@.buffer =~= old(self)@.buffer.push(command@));
    }

    /// Replays the buffer onto the surface and closes the frame.
    ///
    /// With a frame open, the surface receives the background, every pending
    /// command in the order in which it was pushed, and the end of the frame;
    /// the buffer is kept. With no frame open, the call is refused, the
    /// context stays as it is and the surface receives nothing.
    ///
    /// Each call in the history is a call of the surface: the background and
    /// the commands are painted on the surface as it was handed in, which
    /// they take by shared reference, and `end` is then called on it and
    /// leaves it as it is handed back.
    pub fn write<T: Surface>(&mut self, surface: &mut Traced<T>) -> (result: AeResult<()>)
        ensures
            result == old(self)@.write_result(),
            final(self)@ == old(self)@.write(),
            final(surface).calls() == old(surface).calls() + old(self)@.write_calls(),
            old(self)@.begun ==> forall|i: int|
                0 <= i < old(self)@.frame().len() - 1 ==> painted(
                    old(surface).inner(),
                    #[trigger] old(self)@.frame()[i],
                ),
            old(self)@.begun ==> exists|device: &mut T|
                mut_ref_current(device) == old(surface).inner()
                    && mut_ref_future(device) == final(surface).inner()
                    && #[trigger] call_ensures(T::end, (device,), ()),
            !old(self)@.begun ==> final(surface).inner() == old(surface).inner(),
    {
        if self.state == ContextState::Begin {
            surface.clear(self.bgr);
            let count: usize = self.buffer.len();
            let mut done: usize = 0;
            while done < count
                invariant
                    done <= count,
                    count == self.buffer.len(),
                    *self == *old(self),
                    surface.calls() == old(surface).calls() + self@.frame().take(done + 1),
                    surface.inner() == old(surface).inner(),
                    forall|i: int|
                        0 <= i < done + 1 ==> painted(
                            old(surface).inner(),
                            #[trigger] self@.frame()[i],
                        ),
                decreases count - done,
            {
                surface.command(&self.buffer[done], self.align, self.layout);
                assert(self@.frame().take(done + 2) =~= self@.frame().take(done + 1).push(
                    SurfaceCall::Command(self.buffer[done as int]@, self.align, self.layout),
                ));
                assert(surface.calls() =~= old(surface).calls() + self@.frame().take(done + 2));
                done += 1;
            }
            surface.end();
            assert(self@.frame() =~= self@.frame().take(count + 1).push(SurfaceCall::End));
            assert(surface.calls() =~= old(surface).calls() + self@.frame());
            self.state = ContextState::End;
            Ok(())
        } else {
            assert(surface.calls() =~= old(surface).calls() + Seq::empty());
            Err(AcureError::UnauthorizedOperation)
        }
    }

    /// Whether the buffer holds no command.
    pub fn is_empty(&self) -> (empty: bool)
        ensures
            empty == (self@.buffer.len() == 0),
    {
        self.buffer.is_empty()
    }
}

} // verus!
