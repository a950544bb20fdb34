//! The contract between the command buffer and a rendering backend, and the
//! record of what a backend was asked to do.

use crate::color::Color;
use crate::command::{AlignMode, Command, CommandView, LayoutMode};
use vstd::prelude::*;

verus! {

/// A renderable target. A backend implements the five operations against its
/// own device; the command buffer only decides which of them are called, with
/// what arguments and in what order. Nothing is assumed of what an operation
/// does.
pub trait Surface {
    /// The target now has the given width and height.
    fn surface_resize(&mut self, width: u32, height: u32);

    /// A frame starts.
    fn begin(&mut self);

    /// Fill the whole target with a colour.
    fn clear(&self, color: Color);

    /// Carry out one command under the given modes.
    fn command(&self, command: &Command, align: AlignMode, layout: LayoutMode);

    /// The frame is complete: present it.
    fn end(&mut self);
}

/// One call of an operation of a surface, as a mathematical value.
pub enum SurfaceCall {
    Resize(u32, u32),
    Begin,
    Clear(Color),
    Command(CommandView, AlignMode, LayoutMode),
    End,
}

/// Whether the surface received `call` through one of the two operations
/// that take it by shared reference, `clear` and `command`: the operation
/// was called on the surface with the arguments that `call` holds, and
/// returned. A command is handed over as some `Command` whose value is the
/// one that `call` holds. Of a call of another operation this is false.
pub open spec fn painted<T: Surface>(surface: T, call: SurfaceCall) -> bool {
    match call {
        SurfaceCall::Clear(color) => call_ensures(T::clear, (&surface, color), ()),
        SurfaceCall::Command(view, align, layout) => exists|command: Command|
            command@ == view && #[trigger] call_ensures(
                T::command,
                (&surface, &command, align, layout),
                (),
            ),
        _ => false,
    }
}

/// A surface together with the history of the calls made to it.
///
/// While it is held here the surface can only be reached through the five
/// operations below. Each of them makes one call of the surface, with the
/// arguments it was given, and appends that call to the history, so the
/// history is what the surface received through this value, oldest first.
pub struct Traced<T: Surface> {
    surface: T,
    history: Ghost<Seq<SurfaceCall>>,
}

impl<T: Surface> Traced<T> {
    /// The calls made to the surface so far, oldest first.
    pub closed spec fn calls(&self) -> Seq<SurfaceCall> {
        self.history@
    }

    /// The surface as it is now.
    pub closed spec fn inner(&self) -> T {
        self.surface
    }

    /// Takes a surface, with an empty history.
    pub fn new(surface: T) -> (traced: Self)
        ensures
            traced.inner() == surface,
            traced.calls() == Seq::<SurfaceCall>::empty(),
    {
        Traced { surface, history: Ghost(Seq::empty()) }
    }

    /// Gives the surface back and ends the history.
    pub fn into_inner(self) -> (surface: T)
        ensures
            surface == self.inner(),
    {
        self.surface
    }

    /// Calls `surface_resize` on the surface with the given width and height.
    pub fn surface_resize(&mut self, width: u32, height: u32)
        ensures
            final(self).calls() == old(self).calls().push(SurfaceCall::Resize(width, height)),
            exists|surface: &mut T|
                mut_ref_current(surface) == old(self).inner()
                    && mut_ref_future(surface) == final(self).inner()
                    && #[trigger] call_ensures(
                    T::surface_resize,
                    (surface, width, height),
                    (),
                ),
    {
        self.surface.surface_resize(width, height);
        self.history = Ghost(self.history@.push(SurfaceCall::Resize(width, height)));
    }

    /// Calls `begin` on the surface.
    pub fn begin(&mut self)
        ensures
            final(self).calls() == old(self).calls().push(SurfaceCall::Begin),
            exists|surface: &mut T|
                mut_ref_current(surface) == old(self).inner()
                    && mut_ref_future(surface) == final(self).inner()
                    && #[trigger] call_ensures(T::begin, (surface,), ()),
    {
        self.surface.begin();
        self.history = Ghost(self.history@.push(SurfaceCall::Begin));
    }

    /// Calls `clear` on the surface with the given colour.
    pub fn clear(&mut self, color: Color)
        ensures
            final(self).calls() == old(self).calls().push(SurfaceCall::Clear(color)),
            call_ensures(T::clear, (&old(self).inner(), color), ()),
            final(self).inner() == old(self).inner(),
    {
        self.surface.clear(color);
        self.history = Ghost(self.history@.push(SurfaceCall::Clear(color)));
    }

    /// Calls `command` on the surface with the given command and modes.
    pub fn command(&mut self, command: &Command, align: AlignMode, layout: LayoutMode)
        ensures
            final(self).calls() == old(self).calls().push(
                SurfaceCall::Command(command@, align, layout),
            ),
            call_ensures(T::command, (&old(self).inner(), command, align, layout), ()),
            final(self).inner() == old(self).inner(),
    {
        self.surface.command(command, align, layout);
        self.history = Ghost(self.history@.push(SurfaceCall::Command(command@, align, layout)));
    }

    /// Calls `end` on the surface.
    pub fn end(&mut self)
        ensures
            final(self).calls() == old(self).calls().push(SurfaceCall::End),
            exists|surface: &mut T|
                mut_ref_current(surface) == old(self).inner()
                    && mut_ref_future(surface) == final(self).inner()
                    && #[trigger] call_ensures(T::end, (surface,), ()),
    {
        self.surface.end();
        self.history = Ghost(self.history@.push(SurfaceCall::End));
    }
}

} // verus!
