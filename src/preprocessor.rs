use vstd::prelude::*;

verus! {

/// A command for the block pre-processor, naming its blocks by height: blocks
/// to apply in ascending order, or to undo most recent first.
#[derive(Debug)]
pub enum HandleBlock {
    ApplyBlocks(Vec<u64>),
    UndoBlocks(Vec<u64>),
}

/// One step of work on the index.
#[derive(Clone, Copy, Debug, PartialEq, Eq, Structural)]
pub enum IndexAction {
    /// Roll the block back in both index stores.
    RollbackBlock(u64),
    /// Compress the raw block, store it and flush.
    PersistRawBlock(u64),
    /// Extract the inscriptions of the block, in memory.
    ExtractInscriptions(u64),
    /// Run the sequencing pass once over the whole batch, from the index tip.
    SequenceBatch,
    /// Send the batch back to the chain observer.
    ForwardBatch,
}

pub open spec fn rollback_steps(heights: Seq<u64>) -> Seq<IndexAction> {
    heights.map_values(|h: u64| IndexAction::RollbackBlock(h))
}

pub open spec fn apply_steps(heights: Seq<u64>) -> Seq<IndexAction>
    decreases heights.len(),
{
    if heights.len() == 0 {
        Seq::empty()
    } else {
        apply_steps(heights.drop_last()) + seq![
            IndexAction::PersistRawBlock(heights.last()),
            IndexAction::ExtractInscriptions(heights.last()),
        ]
    }
}

/// The work that a command calls for. Each block is worked on whatever became
/// of the blocks before it; the batch is forwarded last, once, and also when the
/// index could not be opened, in which case nothing else is done.
pub open spec fn command_plan(apply: bool, heights: Seq<u64>, index_opened: bool) -> Seq<
    IndexAction,
> {
    if !index_opened {
        seq![IndexAction::ForwardBatch]
    } else if apply {
        apply_steps(heights).push(IndexAction::SequenceBatch).push(IndexAction::ForwardBatch)
    } else {
        rollback_steps(heights).push(IndexAction::ForwardBatch)
    }
}

impl HandleBlock {
    pub open spec fn is_apply(&self) -> bool {
        self is ApplyBlocks
    }

    pub open spec fn heights(&self) -> Seq<u64> {
        match self {
            HandleBlock::ApplyBlocks(v) => v@,
            HandleBlock::UndoBlocks(v) => v@,
        }
    }
}

/// The heights of the blocks whose raw payload was stored, given the plan that
/// ran and whether each of its actions succeeded.
pub open spec fn stored_blocks(actions: Seq<IndexAction>, succeeded: Seq<bool>) -> Seq<u64>
    decreases actions.len(),
{
    if actions.len() == 0 {
        Seq::empty()
    } else {
        let prev = stored_blocks(actions.drop_last(), succeeded);
        match actions.last() {
            IndexAction::PersistRawBlock(h) => if succeeded[actions.len() - 1] {
                prev.push(h)
            } else {
                prev
            },
            _ => prev,
        }
    }
}

/// The processing of one command: its plan, how far it has run, and which raw
/// blocks were stored.
#[derive(Debug)]
pub struct CommandRun {
    blocks: Vec<u64>,
    actions: Vec<IndexAction>,
    outcomes: Vec<bool>,
    stored: Vec<u64>,
}

fn build_apply_steps(heights: &Vec<u64>) -> (r: Vec<IndexAction>)
    ensures
        r@ == apply_steps(heights@),
{
    let mut r: Vec<IndexAction> = Vec::new();
    let mut i: usize = 0;
    while i < heights.len()
        invariant
            0 <= i <= heights@.len(),
            r@ == apply_steps(heights@.take(i as int)),
        decreases heights@.len() - i,
    {
        proof {
            assert(heights@.take(i + 1).drop_last() =~= heights@.take(i as int));
        }
        r.push(IndexAction::PersistRawBlock(heights[i]));
        r.push(IndexAction::ExtractInscriptions(heights[i]));
        i = i + 1;
        assert(r@ =~= apply_steps(heights@.take(i as int)));
    }
    assert(heights@.take(i as int) =~= heights@);
    r
}

fn build_rollback_steps(heights: &Vec<u64>) -> (r: Vec<IndexAction>)
    ensures
        r@ == rollback_steps(heights@),
{
    let mut r: Vec<IndexAction> = Vec::new();
    let mut i: usize = 0;
    while i < heights.len()
        invariant
            0 <= i <= heights@.len(),
            r@ == rollback_steps(heights@.take(i as int)),
        decreases heights@.len() - i,
    {
        r.push(IndexAction::RollbackBlock(heights[i]));
        i = i + 1;
        assert(r@ =~= rollback_steps(heights@.take(i as int)));
    }
    assert(heights@.take(i as int) =~= heights@);
    r
}

/// The work that a command calls for; see `command_plan`.
pub fn plan_command(command: &HandleBlock, index_opened: bool) -> (r: Vec<IndexAction>)
    ensures
        r@ == command_plan(command.is_apply(), command.heights(), index_opened),
{
    if !index_opened {
        let mut r: Vec<IndexAction> = Vec::new();
        r.push(IndexAction::ForwardBatch);
        assert(r@ =~= seq![IndexAction::ForwardBatch]);
        return r;
    }
    match command {
        HandleBlock::ApplyBlocks(heights) => {
            let mut r = build_apply_steps(heights);
            r.push(IndexAction::SequenceBatch);
            r.push(IndexAction::ForwardBatch);
            r
        },
        HandleBlock::UndoBlocks(heights) => {
            let mut r = build_rollback_steps(heights);
            r.push(IndexAction::ForwardBatch);
            r
        },
    }
}

impl CommandRun {
    pub closed spec fn blocks(&self) -> Seq<u64> {
        self.blocks@
    }

    /// The plan of the command.
    pub closed spec fn actions(&self) -> Seq<IndexAction> {
        self.actions@
    }

    /// Whether each action done so far succeeded, in order.
    pub closed spec fn outcomes(&self) -> Seq<bool> {
        self.outcomes@
    }

    pub closed spec fn stored(&self) -> Seq<u64> {
        self.stored@
    }

    pub open spec fn wf(&self) -> bool {
        &&& self.outcomes().len() <= self.actions().len()
        &&& self.stored() == stored_blocks(
            self.actions().take(self.outcomes().len() as int),
            self.outcomes(),
        )
    }

    /// Starts the processing of a command, given whether both index stores
    /// could be opened for it.
    pub fn start(command: HandleBlock, index_opened: bool) -> (r: CommandRun)
        ensures
            r.wf(),
            r.blocks() == command.heights(),
            r.actions() == command_plan(command.is_apply(), command.heights(), index_opened),
            r.outcomes().len() == 0,
            r.stored().len() == 0,
    {
        let actions = plan_command(&command, index_opened);
        let blocks = match command {
            HandleBlock::ApplyBlocks(v) => v,
            HandleBlock::UndoBlocks(v) => v,
        };
        let r = CommandRun { blocks, actions, outcomes: Vec::new(), stored: Vec::new() };
        assert(r.actions().take(0) =~= Seq::<IndexAction>::empty());
        r
    }

    /// The action to do next, or `None` once the plan is done.
    pub fn next_action(&self) -> (r: Option<IndexAction>)
        requires
            self.wf(),
        ensures
            r == if self.outcomes().len() < self.actions().len() {
                Some(self.actions()[self.outcomes().len() as int])
            } else {
                None::<IndexAction>
            },
    {
        if self.outcomes.len() < self.actions.len() {
            Some(self.actions[self.outcomes.len()])
        } else {
            None
        }
    }

    /// Records how the current action went. A failure is recorded and the plan
    /// goes on with the next action all the same.
    pub fn report(&mut self, succeeded: bool)
        requires
            old(self).wf(),
            old(self).outcomes().len() < old(self).actions().len(),
        ensures
            final(self).wf(),
            final(self).actions() == old(self).actions(),
            final(self).blocks() == old(self).blocks(),
            final(self).outcomes() == old(self).outcomes().push(succeeded),
            final(self).stored() == match old(self).actions()[old(self).outcomes().len() as int] {
                IndexAction::PersistRawBlock(h) => if succeeded {
                    old(self).stored().push(h)
                } else {
                    old(self).stored()
                },
                _ => old(self).stored(),
            },
    {
        let ghost n = self.outcomes@.len() as int;
        let action = self.actions[self.outcomes.len()];
        self.outcomes.push(succeeded);
        if succeeded {
            if let IndexAction::PersistRawBlock(h) = action {
                self.stored.push(h);
            }
        }
        proof {
            let acts = self.actions@;
            let outs = self.outcomes@;
            assert(acts.take(n + 1).drop_last() =~= acts.take(n));
            lemma_stored_prefix(acts.take(n), old(self).outcomes@, outs);
        }
    }

    /// Whether every action of the plan was done.
    pub fn is_done(&self) -> (r: bool)
        requires
            self.wf(),
        ensures
            r == (self.outcomes().len() == self.actions().len()),
    {
        self.outcomes.len() == self.actions.len()
    }

    /// The batch to send back: the command's blocks, in their order.
    pub fn acknowledgment(&self) -> (r: &Vec<u64>)
        ensures
            r@ == self.blocks(),
    {
        &self.blocks
    }

    /// The heights whose raw payload was stored so far.
    pub fn stored_heights(&self) -> (r: &Vec<u64>)
        ensures
            r@ == self.stored(),
    {
        &self.stored
    }
}

/// `stored_blocks` reads only the outcomes of the actions it is given.
proof fn lemma_stored_prefix(actions: Seq<IndexAction>, a: Seq<bool>, b: Seq<bool>)
    requires
        actions.len() <= a.len(),
        actions.len() <= b.len(),
        forall|i: int| 0 <= i < actions.len() ==> a[i] == b[i],
    ensures
        stored_blocks(actions, a) == stored_blocks(actions, b),
    decreases actions.len(),
{
    if actions.len() > 0 {
        lemma_stored_prefix(actions.drop_last(), a, b);
    }
}

/// How many times `actions` forwards a batch.
pub open spec fn count_forwards(actions: Seq<IndexAction>) -> nat
    decreases actions.len(),
{
    if actions.len() == 0 {
        0
    } else {
        count_forwards(actions.drop_last()) + if actions.last() is ForwardBatch {
            1nat
        } else {
            0nat
        }
    }
}

/// The work of a sequence of commands, each given as (apply, heights, whether
/// the index could be opened), run one after the other.
pub open spec fn plans_of(commands: Seq<(bool, Seq<u64>, bool)>) -> Seq<IndexAction>
    decreases commands.len(),
{
    if commands.len() == 0 {
        Seq::empty()
    } else {
        let c = commands.last();
        plans_of(commands.drop_last()) + command_plan(c.0, c.1, c.2)
    }
}

proof fn lemma_count_forwards_append(a: Seq<IndexAction>, b: Seq<IndexAction>)
    ensures
        count_forwards(a + b) == count_forwards(a) + count_forwards(b),
    decreases b.len(),
{
    if b.len() == 0 {
        assert(a + b =~= a);
    } else {
        assert((a + b).drop_last() =~= a + b.drop_last());
        lemma_count_forwards_append(a, b.drop_last());
    }
}

proof fn lemma_apply_steps_do_not_forward(heights: Seq<u64>)
    ensures
        count_forwards(apply_steps(heights)) == 0,
    decreases heights.len(),
{
    if heights.len() > 0 {
        lemma_apply_steps_do_not_forward(heights.drop_last());
        let tail = seq![
            IndexAction::PersistRawBlock(heights.last()),
            IndexAction::ExtractInscriptions(heights.last()),
        ];
        lemma_count_forwards_append(apply_steps(heights.drop_last()), tail);
        assert(tail.drop_last() =~= seq![IndexAction::PersistRawBlock(heights.last())]);
        assert(tail.drop_last().drop_last().len() == 0);
        assert(count_forwards(tail.drop_last().drop_last()) == 0);
        assert(count_forwards(tail.drop_last()) == 0);
        assert(count_forwards(tail) == 0);
    }
}

proof fn lemma_rollback_steps_do_not_forward(heights: Seq<u64>)
    ensures
        count_forwards(rollback_steps(heights)) == 0,
    decreases heights.len(),
{
    if heights.len() > 0 {
        assert(rollback_steps(heights).drop_last() =~= rollback_steps(heights.drop_last()));
        lemma_rollback_steps_do_not_forward(heights.drop_last());
    }
}

/// Every command's plan forwards its batch exactly once.
pub proof fn lemma_plan_forwards_once(apply: bool, heights: Seq<u64>, index_opened: bool)
    ensures
        count_forwards(command_plan(apply, heights, index_opened)) == 1,
{
    let plan = command_plan(apply, heights, index_opened);
    if !index_opened {
        assert(plan.drop_last().len() == 0);
        assert(count_forwards(plan.drop_last()) == 0);
    } else if apply {
        lemma_apply_steps_do_not_forward(heights);
        assert(plan.drop_last().drop_last() =~= apply_steps(heights));
        assert(count_forwards(plan.drop_last()) == 0);
    } else {
        lemma_rollback_steps_do_not_forward(heights);
        assert(plan.drop_last() =~= rollback_steps(heights));
    }
}

/// Over any sequence of commands, the pre-processor sends back as many batches
/// as it received commands, whatever failed on the way: a failed action never
/// changes the plan, and each plan forwards once.
pub proof fn lemma_one_acknowledgment_per_command(commands: Seq<(bool, Seq<u64>, bool)>)
    ensures
        count_forwards(plans_of(commands)) == commands.len(),
    decreases commands.len(),
{
    if commands.len() > 0 {
        let c = commands.last();
        lemma_one_acknowledgment_per_command(commands.drop_last());
        lemma_plan_forwards_once(c.0, c.1, c.2);
        lemma_count_forwards_append(plans_of(commands.drop_last()), command_plan(c.0, c.1, c.2));
    }
}

/// Undoing blocks attempts the rollback of every block, in the order given,
/// before the batch is forwarded; as `CommandRun::report` goes on after a
/// failure, the failure of one rollback does not keep the next from being tried.
pub proof fn lemma_undo_attempts_every_block(heights: Seq<u64>)
    ensures
        command_plan(false, heights, true).len() == heights.len() + 1,
        forall|i: int|
            0 <= i < heights.len() ==> command_plan(false, heights, true)[i]
                == IndexAction::RollbackBlock(heights[i]),
        command_plan(false, heights, true).last() == IndexAction::ForwardBatch,
{
}

} // verus!
