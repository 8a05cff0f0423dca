//! The process-wide holder of at most one handle, and the print path through it.
use vstd::prelude::*;
use vstd::string::StringSliceAdditionalSpecFns;
use crate::context::{CommandView, ContextView, FlantermContext};

verus! {

/// The registry's contents: the installed handle, if any.
///
/// "Initialised" is the presence of a handle, so the flag and the handle can
/// never disagree.
pub struct GlobalFlantermState {
    ctx: Option<FlantermContext>,
}

impl View for GlobalFlantermState {
    type V = Option<ContextView>;

    closed spec fn view(&self) -> Option<ContextView> {
        match self.ctx {
            Some(c) => Some(c@),
            None => None,
        }
    }
}

/// The registry after a print of `text`: the installed handle gains one write
/// of exactly those bytes; with nothing installed, nothing changes.
pub open spec fn print_step(s: Option<ContextView>, text: Seq<u8>) -> Option<ContextView> {
    match s {
        Some(c) => Some(c.issue(CommandView::Write(text))),
        None => None,
    }
}

impl GlobalFlantermState {
    /// An empty, uninitialised registry.
    pub fn new() -> (r: Self)
        ensures
            r@ is None,
    {
        GlobalFlantermState { ctx: None }
    }

    /// Whether a handle is installed.
    pub fn is_initialized(&self) -> (r: bool)
        ensures
            r == self@ is Some,
    {
        self.ctx.is_some()
    }
}

/// Installs `ctx` as the process-wide handle. A handle installed before is
/// replaced and handed back, so that its owner tears it down.
pub fn init_global_flanterm(state: &mut GlobalFlantermState, ctx: FlantermContext) -> (previous:
    Option<FlantermContext>)
    ensures
        final(state)@ == install_step(old(state)@, ctx@),
        match previous {
            Some(p) => old(state)@ == Some(p@),
            None => old(state)@ is None,
        },
{
    let mut slot = Some(ctx);
    std::mem::swap(&mut slot, &mut state.ctx);
    slot
}

/// Runs `f` on the installed handle itself and returns exactly what `f`
/// returned; the registry then holds the handle as `f` left it. `None`, without
/// running `f`, when nothing is installed.
pub fn with_global_flanterm<F, R>(state: &mut GlobalFlantermState, f: F) -> (r: Option<R>) where
    F: FnOnce(&mut FlantermContext) -> R,
    requires
        forall|c: &mut FlantermContext| f.requires((c,)),
    ensures
        old(state)@ is None ==> r is None && final(state)@ is None,
        old(state)@ is Some ==> exists|c: &mut FlantermContext, v: R|
            r == Some(v) && #[trigger] f.ensures((c,), v) && old(state)@ == Some((*c)@)
                && final(state)@ == Some((*final(c))@),
{
    let mut slot: Option<FlantermContext> = None;
    std::mem::swap(&mut slot, &mut state.ctx);
    match slot {
        Some(mut c) => {
            let handle = &mut c;
            let ghost before = handle;
            let v = f(handle);
            assert(old(state)@ == Some((*before)@));
            state.ctx = Some(c);
            assert(exists|h: &mut FlantermContext, w: R|
                Some(v) == Some(w) && #[trigger] f.ensures((h,), w) && old(state)@ == Some((*h)@)
                    && state@ == Some((*final(h))@));
            Some(v)
        },
        None => None,
    }
}

/// Prints `text` to the installed handle as one write of its UTF-8 bytes;
/// before installation the text is dropped. Returns whether a handle took it.
pub fn _print(state: &mut GlobalFlantermState, text: &str) -> (printed: bool)
    ensures
        printed == old(state)@ is Some,
        final(state)@ == print_step(old(state)@, text.spec_bytes()),
{
    match &mut state.ctx {
        Some(c) => {
            c.write_str(text);
            true
        },
        None => false,
    }
}

/// The registry after installing a handle whose state is `h`.
pub open spec fn install_step(s: Option<ContextView>, h: ContextView) -> Option<ContextView> {
    Some(h)
}

/// The registry after printing each of `texts` in turn.
pub open spec fn print_all(s: Option<ContextView>, texts: Seq<Seq<u8>>) -> Option<ContextView>
    decreases texts.len(),
{
    if texts.len() == 0 {
        s
    } else {
        print_all(print_step(s, texts[0]), texts.drop_first())
    }
}

/// Before installation, any sequence of prints leaves the registry empty:
/// no bytes reach any engine.
pub proof fn lemma_prints_before_install(texts: Seq<Seq<u8>>)
    ensures
        print_all(None, texts) is None,
    decreases texts.len(),
{
    if texts.len() > 0 {
        lemma_prints_before_install(texts.drop_first());
    }
}

/// Prints issued before installation are never replayed: a handle installed
/// after any sequence of them holds only what it held when installed.
pub proof fn lemma_install_after_prints(texts: Seq<Seq<u8>>, h: ContextView)
    ensures
        install_step(print_all(None, texts), h) == Some(h),
{
    lemma_prints_before_install(texts);
}

/// After installing a handle that owns its engine, one print issues exactly one
/// engine write, of exactly the printed bytes, and nothing else.
pub proof fn lemma_install_then_print(s: Option<ContextView>, h: ContextView, text: Seq<u8>)
    requires
        h.engine is Some,
    ensures
        print_step(install_step(s, h), text) == Some(
            ContextView { commands: h.commands.push(CommandView::Write(text)), ..h },
        ),
{
}

/// Installing a second handle leaves the registry initialised and holding the
/// second handle, whatever it held before.
pub proof fn lemma_reinstall(s: Option<ContextView>, first: ContextView, second: ContextView)
    ensures
        install_step(install_step(s, first), second) == Some(second),
{
}

} // verus!
