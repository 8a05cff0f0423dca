//! The owning handle of one rendering-engine instance.
use vstd::prelude::*;
use vstd::string::StringSliceAdditionalSpecFns;
use crate::ansi::{
    clear_bytes, clear_sequence, color_bytes, color_sequence, cursor_bytes, cursor_sequence,
    reset_bytes, reset_sequence,
};

verus! {

/// One call into the rendering engine, in the order it must be performed.
#[derive(Debug, PartialEq, Eq)]
pub enum EngineCommand {
    /// Hand these bytes to the engine's write entry point.
    Write(Vec<u8>),
    /// Switch immediate flushing after every write on or off.
    SetAutoflush(bool),
    /// Push buffered state to the display surface.
    Flush,
    /// Redraw every cell, changed or not.
    FullRefresh,
}

/// What an [`EngineCommand`] asks of the engine.
pub enum CommandView {
    Write(Seq<u8>),
    SetAutoflush(bool),
    Flush,
    FullRefresh,
}

impl View for EngineCommand {
    type V = CommandView;

    open spec fn view(&self) -> CommandView {
        match self {
            EngineCommand::Write(b) => CommandView::Write(b@),
            EngineCommand::SetAutoflush(e) => CommandView::SetAutoflush(*e),
            EngineCommand::Flush => CommandView::Flush,
            EngineCommand::FullRefresh => CommandView::FullRefresh,
        }
    }
}

/// The abstract state of a handle.
pub struct ContextView {
    /// The engine instance owned, by its address; `None` once it was given up.
    pub engine: Option<usize>,
    pub columns: usize,
    pub rows: usize,
    /// Engine calls issued and not yet handed to the engine.
    pub commands: Seq<CommandView>,
}

impl ContextView {
    /// The state after issuing `c`: recorded while an engine is owned, dropped otherwise.
    pub open spec fn issue(self, c: CommandView) -> ContextView {
        if self.engine.is_some() {
            ContextView { commands: self.commands.push(c), ..self }
        } else {
            self
        }
    }
}

/// A handle that owns no engine instance records no engine call, whatever is
/// asked of it: once torn down, it never reaches the engine again.
pub proof fn lemma_released_handle_is_inert(c: ContextView, cmd: CommandView)
    requires
        c.engine is None,
    ensures
        c.issue(cmd) == c,
{
}

/// Exclusive owner of one rendering-engine instance.
///
/// It cannot be copied. Each operation records the engine call it stands for;
/// [`FlantermContext::take_commands`] hands them out in order, and
/// [`FlantermContext::teardown`] gives up the instance exactly once.
pub struct FlantermContext {
    engine: Option<usize>,
    columns: usize,
    rows: usize,
    commands: Vec<EngineCommand>,
}

impl View for FlantermContext {
    type V = ContextView;

    closed spec fn view(&self) -> ContextView {
        ContextView {
            engine: self.engine,
            columns: self.columns,
            rows: self.rows,
            commands: self.commands@.map_values(|c: EngineCommand| c@),
        }
    }
}

impl FlantermContext {
    /// Takes ownership of the engine instance at address `engine`, as returned by
    /// the engine's initialisation, with its grid of `columns` by `rows` cells.
    /// A null address means that initialisation failed: no handle is made.
    pub fn from_engine(engine: usize, columns: usize, rows: usize) -> (r: Option<Self>)
        ensures
            r is None <==> engine == 0,
            r matches Some(c) ==> c@ == (ContextView {
                engine: Some(engine),
                columns,
                rows,
                commands: Seq::empty(),
            }),
    {
        if engine == 0 {
            None
        } else {
            let c = FlantermContext { engine: Some(engine), columns, rows, commands: Vec::new() };
            assert(c@.commands =~= Seq::empty());
            Some(c)
        }
    }

    /// The grid size as (columns, rows).
    pub fn get_dimensions(&self) -> (r: (usize, usize))
        ensures
            r == (self@.columns, self@.rows),
    {
        (self.columns, self.rows)
    }

    /// Address of the owned engine instance; 0 when none is owned.
    pub fn as_raw(&self) -> (r: usize)
        ensures
            r == match self@.engine {
                Some(a) => a,
                None => 0usize,
            },
    {
        match self.engine {
            Some(a) => a,
            None => 0,
        }
    }

    /// Records `c` while an engine is owned.
    fn issue(&mut self, c: EngineCommand)
        ensures
            final(self)@ == old(self)@.issue(c@),
    {
        if self.engine.is_some() {
            self.commands.push(c);
            assert(self@.commands =~= old(self)@.commands.push(c@));
        }
    }

    /// Switches flushing after every write on or off.
    pub fn set_autoflush(&mut self, enabled: bool)
        ensures
            final(self)@ == old(self)@.issue(CommandView::SetAutoflush(enabled)),
    {
        self.issue(EngineCommand::SetAutoflush(enabled));
    }

    /// Pushes buffered output to the display surface.
    pub fn flush(&mut self)
        ensures
            final(self)@ == old(self)@.issue(CommandView::Flush),
    {
        self.issue(EngineCommand::Flush);
    }

    /// Redraws every cell of the display surface.
    pub fn full_refresh(&mut self)
        ensures
            final(self)@ == old(self)@.issue(CommandView::FullRefresh),
    {
        self.issue(EngineCommand::FullRefresh);
    }

    /// Hands `bytes` to the engine verbatim, in one write.
    pub fn write_bytes(&mut self, bytes: &[u8])
        ensures
            final(self)@ == old(self)@.issue(CommandView::Write(bytes@)),
    {
        let v = vstd::slice::slice_to_vec(bytes);
        self.issue(EngineCommand::Write(v));
    }

    /// Writes the UTF-8 encoding of `s`, in one write.
    pub fn write_str(&mut self, s: &str)
        ensures
            final(self)@ == old(self)@.issue(CommandView::Write(s.spec_bytes())),
    {
        self.write_bytes(s.as_bytes());
    }

    /// Clears the screen and homes the cursor.
    pub fn clear(&mut self)
        ensures
            final(self)@ == old(self)@.issue(CommandView::Write(clear_sequence())),
    {
        self.issue(EngineCommand::Write(clear_bytes()));
    }

    /// Moves the cursor to 0-based column `x` and row `y`.
    pub fn move_cursor(&mut self, x: usize, y: usize)
        ensures
            final(self)@ == old(self)@.issue(
                CommandView::Write(cursor_sequence(x as nat, y as nat)),
            ),
    {
        self.issue(EngineCommand::Write(cursor_bytes(x, y)));
    }

    /// Selects 256-colour foreground `fg` and, when given, background `bg`.
    pub fn set_color(&mut self, fg: u8, bg: Option<u8>)
        ensures
            final(self)@ == old(self)@.issue(CommandView::Write(color_sequence(fg, bg))),
    {
        self.issue(EngineCommand::Write(color_bytes(fg, bg)));
    }

    /// Resets all text attributes.
    pub fn reset_format(&mut self)
        ensures
            final(self)@ == old(self)@.issue(CommandView::Write(reset_sequence())),
    {
        self.issue(EngineCommand::Write(reset_bytes()));
    }

    /// Hands out the recorded engine calls, oldest first, and forgets them.
    pub fn take_commands(&mut self) -> (r: Vec<EngineCommand>)
        ensures
            r@.map_values(|c: EngineCommand| c@) == old(self)@.commands,
            final(self)@ == (ContextView { commands: Seq::empty(), ..old(self)@ }),
    {
        let mut r: Vec<EngineCommand> = Vec::new();
        std::mem::swap(&mut r, &mut self.commands);
        assert(self@.commands =~= Seq::empty());
        r
    }

    /// Gives up the owned engine instance: returns its address, for the one
    /// teardown call, and `None` when no instance is owned any more.
    /// Later operations record nothing.
    pub fn teardown(&mut self) -> (r: Option<usize>)
        ensures
            r == old(self)@.engine,
            final(self)@ == (ContextView { engine: None, ..old(self)@ }),
    {
        let r = self.engine;
        self.engine = None;
        r
    }
}

} // verus!
