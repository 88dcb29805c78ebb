//! The commands carried by the bridge, and the rule by which the thread that owns
//! the graphics context runs them.

use vstd::prelude::*;

verus! {

/// One unit of work for the thread that owns the window and the graphics
/// context. `D` is what a draw call captures: vertex data and shader sources.
pub enum Command<D> {
    /// Create the window and context, make it current, load the entry points.
    Setup,
    /// Pump the window's event queue.
    PollEvents,
    /// Present the finished frame.
    SwapBuffers,
    /// Upload the captured data and issue a draw call.
    Draw(D),
}

/// What the context owner does with a command it took off the bridge.
#[derive(Clone, Copy, Debug, PartialEq, Eq, Structural)]
pub enum Dispatch {
    /// Create the window and the context.
    CreateContext,
    /// Run the command against the existing context.
    Run,
    /// Drop the command: a second setup, or work that arrived before the context.
    Skip,
}

/// Whether the context owner's window and context exist yet.
pub struct ContextGate {
    ready: bool,
}

/// What `cmd` is turned into while the context does (`ready`) or does not exist.
pub open spec fn dispatch_of<D>(ready: bool, cmd: Command<D>) -> Dispatch {
    match cmd {
        Command::Setup => if ready { Dispatch::Skip } else { Dispatch::CreateContext },
        _ => if ready { Dispatch::Run } else { Dispatch::Skip },
    }
}

/// The dispatches of `cmds`, one per command in order, from a gate whose
/// context does (`ready`) or does not exist.
pub open spec fn dispatch_run<D>(ready: bool, cmds: Seq<Command<D>>) -> Seq<Dispatch>
    decreases cmds.len(),
{
    if cmds.len() == 0 {
        Seq::empty()
    } else {
        seq![dispatch_of(ready, cmds[0])] + dispatch_run(
            ready || cmds[0] is Setup,
            cmds.drop_first(),
        )
    }
}

#[verifier::rlimit(40)]
proof fn lemma_dispatch_run<D>(ready: bool, cmds: Seq<Command<D>>)
    ensures
        dispatch_run(ready, cmds).len() == cmds.len(),
        ready ==> forall|j: int|
            0 <= j < cmds.len() ==> #[trigger] dispatch_run(ready, cmds)[j]
                != Dispatch::CreateContext,
        forall|i: int, j: int|
            0 <= i < j < cmds.len() && #[trigger] dispatch_run(ready, cmds)[i]
                == Dispatch::CreateContext ==> #[trigger] dispatch_run(ready, cmds)[j]
                != Dispatch::CreateContext,
        !ready ==> forall|j: int|
            0 <= j < cmds.len() && #[trigger] dispatch_run(ready, cmds)[j] == Dispatch::Run
                ==> exists|i: int|
                0 <= i < j && #[trigger] dispatch_run(ready, cmds)[i] == Dispatch::CreateContext,
    decreases cmds.len(),
{
    if cmds.len() > 0 {
        let next = ready || cmds[0] is Setup;
        let rest = cmds.drop_first();
        lemma_dispatch_run(next, rest);
        let r = dispatch_run(ready, cmds);
        let t = dispatch_run(next, rest);
        let h = dispatch_of(ready, cmds[0]);
        assert(r == seq![h] + t);
        assert(r.len() == cmds.len());
        assert forall|j: int| 1 <= j < cmds.len() implies r[j] == t[j - 1] by {}
        assert(r[0] == h);
        if ready {
            assert forall|j: int| 0 <= j < cmds.len() implies r[j] != Dispatch::CreateContext by {
                if j > 0 {
                    assert(r[j] == t[j - 1]);
                }
            }
        }
        assert forall|i: int, j: int|
            0 <= i < j < cmds.len() && r[i] == Dispatch::CreateContext implies r[j]
                != Dispatch::CreateContext by {
            assert(r[j] == t[j - 1]);
            if i == 0 {
                assert(next);
            } else {
                assert(r[i] == t[i - 1]);
            }
        }
        if !ready {
            assert forall|j: int|
                0 <= j < cmds.len() && r[j] == Dispatch::Run implies exists|i: int|
                    0 <= i < j && r[i] == Dispatch::CreateContext by {
                if cmds[0] is Setup {
                    assert(r[0] == Dispatch::CreateContext);
                } else {
                    assert(r[0] == Dispatch::Skip);
                    assert(j > 0);
                    assert(t[j - 1] == Dispatch::Run);
                    let k = choose|i: int| 0 <= i < j - 1 && t[i] == Dispatch::CreateContext;
                    assert(r[k + 1] == t[k]);
                }
            }
        }
    }
}

/// Whatever commands reach a gate before setup, the context is created at most
/// once, and no command runs before it has been created.
pub proof fn lemma_context_created_once<D>(cmds: Seq<Command<D>>)
    ensures
        forall|i: int, j: int|
            0 <= i < j < cmds.len() && dispatch_run(false, cmds)[i] == Dispatch::CreateContext
                ==> dispatch_run(false, cmds)[j] != Dispatch::CreateContext,
        forall|j: int|
            0 <= j < cmds.len() && dispatch_run(false, cmds)[j] == Dispatch::Run ==> exists|i: int|
                0 <= i < j && dispatch_run(false, cmds)[i] == Dispatch::CreateContext,
{
    lemma_dispatch_run(false, cmds);
}

impl ContextGate {
    /// A gate before setup: no context exists.
    pub fn new() -> (r: ContextGate)
        ensures
            !r.is_ready_spec(),
    {
        ContextGate { ready: false }
    }

    pub closed spec fn is_ready_spec(&self) -> bool {
        self.ready
    }

    /// Whether the context has been created.
    pub fn is_ready(&self) -> (r: bool)
        ensures
            r == self.is_ready_spec(),
    {
        self.ready
    }

    /// Decides what to do with `cmd`: the first setup creates the context and
    /// any later one is dropped, so the context is created exactly once; every
    /// other command runs once the context exists and is dropped before.
    pub fn dispatch<D>(&mut self, cmd: &Command<D>) -> (r: Dispatch)
        ensures
            r == dispatch_of(old(self).is_ready_spec(), *cmd),
            final(self).is_ready_spec() == (old(self).is_ready_spec() || *cmd is Setup),
    {
        match cmd {
            Command::Setup => {
                if self.ready {
                    Dispatch::Skip
                } else {
                    self.ready = true;
                    Dispatch::CreateContext
                }
            },
            _ => {
                if self.ready {
                    Dispatch::Run
                } else {
                    Dispatch::Skip
                }
            },
        }
    }
}

/// The index list of a draw call over `n` vertices: one index per vertex, in
/// order, none shared.
pub fn index_list(n: usize) -> (r: Vec<u32>)
    requires
        n <= u32::MAX as usize + 1,
    ensures
        r@.len() == n,
        forall|i: int| 0 <= i < n ==> r@[i] == i,
{
    let mut r: Vec<u32> = Vec::new();
    let mut i: usize = 0;
    while i < n
        invariant
            i <= n,
            n <= u32::MAX as usize + 1,
            r@.len() == i,
            forall|j: int| 0 <= j < i ==> r@[j] == j,
        decreases n - i,
    {
        r.push(i as u32);
        i = i + 1;
    }
    r
}

} // verus!
