//! The cleanup stack: every acquired native handle is pushed as it is
//! created, and teardown pops the stack, so destruction happens in exact
//! reverse of creation order on every exit path, success or failure.

use vstd::prelude::*;

use crate::handle::VkOwned;

verus! {

/// The kinds of native handle the context acquires, in the order the
/// dependency chain creates them.
#[derive(Clone, Copy, Debug, PartialEq, Eq, Structural)]
pub enum HandleKind {
    Instance,
    DebugReport,
    Surface,
    Device,
    Swapchain,
    ImageView,
    ShaderModule,
    PipelineLayout,
    RenderPass,
    Pipeline,
    Framebuffer,
    CommandPool,
    Semaphore,
}

/// The position of a handle kind in the creation order.  Creation proceeds in
/// increasing rank; destruction must proceed in decreasing rank, so that every
/// handle is destroyed before anything it depends on.
pub open spec fn creation_rank(kind: HandleKind) -> nat {
    match kind {
        HandleKind::Instance => 0,
        HandleKind::DebugReport => 1,
        HandleKind::Surface => 2,
        HandleKind::Device => 3,
        HandleKind::Swapchain => 4,
        HandleKind::ImageView => 5,
        HandleKind::ShaderModule => 6,
        HandleKind::PipelineLayout => 7,
        HandleKind::RenderPass => 8,
        HandleKind::Pipeline => 9,
        HandleKind::Framebuffer => 10,
        HandleKind::CommandPool => 11,
        HandleKind::Semaphore => 12,
    }
}

/// The handle a kind directly depends on: the owner it is created from, or
/// the latest-created resource it must outlive.  The instance depends on
/// nothing.
pub open spec fn parent_of(kind: HandleKind) -> Option<HandleKind> {
    match kind {
        HandleKind::Instance => None,
        HandleKind::DebugReport => Some(HandleKind::Instance),
        HandleKind::Surface => Some(HandleKind::Instance),
        HandleKind::Device => Some(HandleKind::Instance),
        HandleKind::Swapchain => Some(HandleKind::Device),
        HandleKind::ImageView => Some(HandleKind::Swapchain),
        HandleKind::ShaderModule => Some(HandleKind::Device),
        HandleKind::PipelineLayout => Some(HandleKind::Device),
        HandleKind::RenderPass => Some(HandleKind::PipelineLayout),
        HandleKind::Pipeline => Some(HandleKind::RenderPass),
        HandleKind::Framebuffer => Some(HandleKind::Pipeline),
        HandleKind::CommandPool => Some(HandleKind::Framebuffer),
        HandleKind::Semaphore => Some(HandleKind::Device),
    }
}

/// Every kind is created strictly after the kind it depends on, so creating
/// in increasing rank respects the dependency chain, and destroying in
/// decreasing rank destroys dependents first.
pub proof fn lemma_parents_precede(kind: HandleKind)
    ensures
        parent_of(kind) matches Some(p) ==> creation_rank(p) < creation_rank(kind),
{
}

/// One destroy call owed to the driver: which kind of handle to destroy, and
/// its value.
#[derive(Clone, Copy, Debug, PartialEq, Eq, Structural)]
pub struct DestroyAction {
    pub kind: HandleKind,
    pub value: u64,
}

/// The destroy actions of a sequence come in never-decreasing creation rank:
/// the order resources are acquired in.
pub open spec fn ranks_nondecreasing(s: Seq<DestroyAction>) -> bool {
    forall|i: int, j: int|
        0 <= i <= j < s.len() ==> creation_rank(s[i].kind) <= creation_rank(s[j].kind)
}

/// The destroy actions of a sequence come in never-increasing creation rank:
/// dependents first, owners last.
pub open spec fn ranks_nonincreasing(s: Seq<DestroyAction>) -> bool {
    forall|i: int, j: int|
        0 <= i <= j < s.len() ==> creation_rank(s[i].kind) >= creation_rank(s[j].kind)
}

/// Reversing a sequence of destroy actions acquired in dependency order
/// yields one that destroys dependents before what they depend on.
pub proof fn lemma_reverse_rank_order(s: Seq<DestroyAction>)
    requires
        ranks_nondecreasing(s),
    ensures
        ranks_nonincreasing(s.reverse()),
{
    assert forall|i: int, j: int| 0 <= i <= j < s.reverse().len() implies creation_rank(
        s.reverse()[i].kind,
    ) >= creation_rank(s.reverse()[j].kind) by {
        assert(s.reverse()[i] == s[s.len() - 1 - i]);
        assert(s.reverse()[j] == s[s.len() - 1 - j]);
    }
}

/// In a destruction sequence of never-increasing rank, no handle is
/// destroyed before a handle that depends on it: an action whose kind is the
/// parent of a later action's kind never occurs, so every dependent is gone
/// by the time its owner is destroyed.
pub proof fn lemma_dependents_destroyed_first(s: Seq<DestroyAction>)
    requires
        ranks_nonincreasing(s),
    ensures
        forall|i: int, j: int|
            0 <= i < j < s.len() ==> parent_of(#[trigger] s[j].kind) != Some(#[trigger] s[i].kind),
{
    assert forall|i: int, j: int| 0 <= i < j < s.len() implies parent_of(#[trigger] s[j].kind)
        != Some(#[trigger] s[i].kind) by {
        lemma_parents_precede(s[j].kind);
    }
}

/// One owned handle awaiting destruction, with its kind.
struct ScopedEntry {
    kind: HandleKind,
    handle: VkOwned<u64>,
}

/// A stack of owned handles.  Acquired handles are pushed in creation order;
/// teardown releases every handle, last-acquired first, and hands out the
/// destroy calls to run.
pub struct CleanupStack {
    entries: Vec<ScopedEntry>,
}

impl CleanupStack {
    /// The owed destroy actions, oldest first.
    pub closed spec fn view(self) -> Seq<DestroyAction> {
        self.entries@.map(
            |i: int, e: ScopedEntry| (DestroyAction { kind: e.kind, value: e.handle.value() }),
        )
    }

    /// Every held handle is still owned: its destruction is owed to exactly
    /// this stack.
    pub closed spec fn wf(self) -> bool {
        forall|i: int| 0 <= i < self.entries@.len() ==> (#[trigger] self.entries@[i]).handle.is_alive()
    }

    /// An empty stack: nothing acquired, nothing owed.
    pub fn new() -> (s: CleanupStack)
        ensures
            s.wf(),
            s@ == Seq::<DestroyAction>::empty(),
    {
        let s = CleanupStack { entries: Vec::new() };
        proof {
            assert(s@ =~= Seq::<DestroyAction>::empty());
        }
        s
    }

    /// How many handles the stack holds.
    pub fn len(&self) -> (n: usize)
        ensures
            n == self@.len(),
    {
        self.entries.len()
    }

    /// Record a freshly acquired handle; it will be destroyed before
    /// everything pushed earlier.
    pub fn push(&mut self, kind: HandleKind, handle: VkOwned<u64>)
        requires
            old(self).wf(),
            handle.is_alive(),
        ensures
            final(self).wf(),
            final(self)@ == old(self)@.push(DestroyAction { kind, value: handle.value() }),
    {
        self.entries.push(ScopedEntry { kind, handle });
        proof {
            assert(self@ =~= old(self)@.push(
                DestroyAction { kind, value: handle.value() },
            ));
        }
    }

    /// Release every held handle and return the destroy calls to run, in
    /// exact reverse of the order the handles were acquired.  The stack is
    /// empty afterwards, so no destroy call can ever be handed out twice.
    pub fn teardown(&mut self) -> (actions: Vec<DestroyAction>)
        requires
            old(self).wf(),
        ensures
            final(self).wf(),
            final(self)@ == Seq::<DestroyAction>::empty(),
            actions@ == old(self)@.reverse(),
    {
        let ghost s = self@;
        let mut actions: Vec<DestroyAction> = Vec::new();
        while self.entries.len() > 0
            invariant
                self.wf(),
                s == old(self)@,
                self.entries@.len() <= old(self).entries@.len(),
                self.entries@ == old(self).entries@.take(self.entries@.len() as int),
                actions@.len() + self.entries@.len() == s.len(),
                forall|j: int|
                    0 <= j < actions@.len() ==> actions@[j] == s[s.len() - 1 - j],
            decreases self.entries@.len(),
        {
            let ghost entries_pre = self.entries@;
            let mut entry = self.entries.pop().unwrap();
            let value = entry.handle.release().unwrap();
            actions.push(DestroyAction { kind: entry.kind, value });
            proof {
                let k1 = self.entries@.len() as int;
                assert(self.entries@ =~= old(self).entries@.take(k1));
                let j = actions@.len() - 1;
                assert(entries_pre[k1] == old(self).entries@[k1]);
                assert(actions@[j] == s[k1]);
                assert(k1 == s.len() - 1 - j);
            }
        }
        proof {
            assert(self@ =~= Seq::<DestroyAction>::empty());
            assert(actions@ =~= s.reverse());
        }
        actions
    }
}

} // verus!
