//! Registration of targets and fan-out of actions to their queues.
//!
//! A target is the pair of the task that consumes its queue and the sending
//! half of that queue. The scheduler never reads a queue: it only hands
//! actions to the sending halves, and it keeps, as ghost state, the sequence
//! of actions that each queue has taken from it.
use crate::action::{ActionView, CompressorAction};
use crate::relative::{translate, translation, RawEvent, TranslateError};
use tokio::sync::mpsc::UnboundedSender;
use tokio::task::JoinError;
use tokio::task::JoinHandle;
use vstd::prelude::*;

verus! {

/// `tokio::sync::mpsc::UnboundedSender`, carried through as an opaque value.
#[verifier::external_type_specification]
#[verifier::external_body]
#[verifier::reject_recursive_types(T)]
pub struct ExUnboundedSender<T>(UnboundedSender<T>);

/// `tokio::task::JoinHandle`, carried through as an opaque value.
#[verifier::external_type_specification]
#[verifier::external_body]
#[verifier::reject_recursive_types(T)]
pub struct ExJoinHandle<T>(JoinHandle<T>);

/// `tokio::task::JoinError`, which the type of a task handle mentions. No
/// value of it is ever made or read here.
#[verifier::external_type_specification]
#[verifier::external_body]
pub struct ExJoinError(JoinError);

/// Calls `UnboundedSender::send` and tells whether the queue took the action.
/// The outcome depends on whether the receiving half is still open, so
/// nothing is claimed of it.
#[verifier::external_body]
fn send_action(tx: &UnboundedSender<CompressorAction>, action: CompressorAction) -> (taken: bool) {
    tx.send(action).is_ok()
}

/// Calls `JoinHandle::abort`, which asks the runtime to cancel the task and
/// returns at once. It returns nothing.
#[verifier::external_body]
fn abort_task(task: &JoinHandle<()>) {
    task.abort()
}

/// Why the scheduler refused a request.
#[derive(Debug, Clone, Copy, PartialEq, Eq, Structural)]
pub enum SchedulerError {
    /// No target is registered under the given index.
    NoSuchTarget,
}

/// What a queue has taken after one more dispatch: the action comes last
/// where the queue took it, and nothing changes where the target was gone.
pub open spec fn history_after(before: Seq<ActionView>, action: ActionView, taken: bool) -> Seq<
    ActionView,
> {
    if taken {
        before.push(action)
    } else {
        before
    }
}

/// `gone` lists indices below `count` in strictly increasing order.
pub open spec fn ascending_below(gone: Seq<usize>, count: nat) -> bool {
    &&& forall|k: int| 0 <= k < gone.len() ==> (#[trigger] gone[k]) < count
    &&& forall|k: int, l: int| 0 <= k < l < gone.len() ==> gone[k] < gone[l]
}

/// The list of targets that are gone after the target at `index` has taken
/// the action or not.
pub open spec fn gone_after(before: Seq<usize>, index: usize, taken: bool) -> Seq<usize> {
    if taken {
        before
    } else {
        before.push(index)
    }
}

/// Records what became of an action at the target `index`: a target whose
/// queue did not take it is put at the end of `gone`, and a target that took
/// it leaves the list as it is.
pub fn record_outcome(gone: &mut Vec<usize>, index: usize, taken: bool)
    ensures
        final(gone)@ == gone_after(old(gone)@, index, taken),
{
    if !taken {
        gone.push(index);
    }
}

/// The registered targets, in the order of their registration. The index of
/// a target in that order is its identity.
pub struct CompressorScheduler {
    comp_tasks: Vec<(JoinHandle<()>, UnboundedSender<CompressorAction>)>,
    taken: Ghost<Seq<Seq<ActionView>>>,
}

impl CompressorScheduler {
    /// The scheduler keeps one history for each registered target.
    pub closed spec fn wf(&self) -> bool {
        self.taken@.len() == self.comp_tasks@.len()
    }

    /// The registered targets, by index.
    pub closed spec fn targets(&self) -> Seq<(JoinHandle<()>, UnboundedSender<CompressorAction>)> {
        self.comp_tasks@
    }

    /// For each target, the actions that its queue has taken from this
    /// scheduler since it was registered, oldest first.
    pub closed spec fn histories(&self) -> Seq<Seq<ActionView>> {
        self.taken@
    }

    /// A scheduler without targets.
    pub fn new() -> (s: Self)
        ensures
            s.wf(),
            s.targets().len() == 0,
            s.histories().len() == 0,
    {
        CompressorScheduler { comp_tasks: Vec::new(), taken: Ghost(Seq::empty()) }
    }

    /// Number of registered targets.
    pub fn target_count(&self) -> (n: usize)
        ensures
            n == self.targets().len(),
    {
        self.comp_tasks.len()
    }

    /// Registers a target: `task` consumes the queue that `tx` feeds. The
    /// target comes last, its index is returned, and its history is empty:
    /// it gets nothing of what was dispatched before.
    pub fn add_compressor(
        &mut self,
        task: JoinHandle<()>,
        tx: UnboundedSender<CompressorAction>,
    ) -> (index: usize)
        requires
            old(self).wf(),
        ensures
            final(self).wf(),
            index == old(self).targets().len(),
            final(self).targets() == old(self).targets().push((task, tx)),
            final(self).histories() == old(self).histories().push(Seq::empty()),
    {
        let index: usize = self.comp_tasks.len();
        self.comp_tasks.push((task, tx));
        proof {
            self.taken = Ghost(self.taken@.push(Seq::empty()));
        }
        index
    }

    /// Removes the target at `index`: its task is asked to stop and its
    /// sending half is dropped. The other targets keep their order and their
    /// histories; those behind it move one index down. An index that names
    /// no target changes nothing.
    pub fn remove_compressor(&mut self, index: usize) -> (res: Result<(), SchedulerError>)
        requires
            old(self).wf(),
        ensures
            final(self).wf(),
            index < old(self).targets().len() ==> res == Ok::<(), SchedulerError>(())
                && final(self).targets() == old(self).targets().remove(index as int)
                && final(self).histories() == old(self).histories().remove(index as int),
            index >= old(self).targets().len() ==> res == Err::<(), SchedulerError>(
                SchedulerError::NoSuchTarget,
            ) && final(self).targets() == old(self).targets() && final(self).histories() == old(self).histories(),
    {
        if index >= self.comp_tasks.len() {
            return Err(SchedulerError::NoSuchTarget);
        }
        abort_task(&self.comp_tasks[index].0);
        let _ = self.comp_tasks.remove(index);
        proof {
            self.taken = Ghost(self.taken@.remove(index as int));
        }
        Ok(())
    }

    /// Removes every target, asking each task to stop.
    pub fn clear(&mut self)
        requires
            old(self).wf(),
        ensures
            final(self).wf(),
            final(self).targets().len() == 0,
            final(self).histories().len() == 0,
    {
        let n: usize = self.comp_tasks.len();
        let mut i: usize = 0;
        while i < n
            invariant
                n == self.comp_tasks@.len(),
                i <= n,
            decreases n - i,
        {
            abort_task(&self.comp_tasks[i].0);
            i = i + 1;
        }
        self.comp_tasks.clear();
        proof {
            self.taken = Ghost(Seq::empty());
        }
    }

    /// Hands a copy of `action` to the queue of every registered target, in
    /// the order of registration, and returns the indices of the targets
    /// whose queue did not take it. A target that is gone does not keep the
    /// action from the targets behind it. Every queue that took the action
    /// has it as the last entry of its history; the history of a target that
    /// is gone, and the registrations, are as before.
    pub fn notify_all(&mut self, action: &CompressorAction) -> (gone: Vec<usize>)
        requires
            old(self).wf(),
        ensures
            final(self).wf(),
            final(self).targets() == old(self).targets(),
            final(self).histories().len() == old(self).histories().len(),
            ascending_below(gone@, old(self).targets().len()),
            forall|i: int|
                0 <= i < old(self).histories().len() ==> (#[trigger] final(self).histories()[i])
                    == history_after(
                    old(self).histories()[i],
                    action@,
                    !gone@.contains(i as usize),
                ),
    {
        let n: usize = self.comp_tasks.len();
        let mut gone: Vec<usize> = Vec::new();
        let mut i: usize = 0;
        while i < n
            invariant
                n == self.comp_tasks@.len(),
                n == old(self).taken@.len(),
                i <= n,
                self.wf(),
                self.comp_tasks@ == old(self).comp_tasks@,
                ascending_below(gone@, i as nat),
                forall|k: int|
                    0 <= k < i ==> (#[trigger] self.taken@[k]) == history_after(
                        old(self).taken@[k],
                        action@,
                        !gone@.contains(k as usize),
                    ),
                forall|k: int| i <= k < n ==> (#[trigger] self.taken@[k]) == old(self).taken@[k],
            decreases n - i,
        {
            let copy = action.clone();
            let taken = send_action(&self.comp_tasks[i].1, copy);
            let ghost before = gone@;
            record_outcome(&mut gone, i, taken);
            proof {
                self.taken = Ghost(
                    self.taken@.update(i as int, history_after(self.taken@[i as int], action@, taken)),
                );
                assert forall|k: int| 0 <= k < i + 1 implies (#[trigger] self.taken@[k])
                    == history_after(old(self).taken@[k], action@, !gone@.contains(k as usize)) by {
                    if k < i {
                        assert(before.contains(k as usize) ==> gone@.contains(k as usize)) by {
                            if before.contains(k as usize) {
                                let w = choose|w: int| 0 <= w < before.len() && before[w] == k as usize;
                                assert(gone@[w] == k as usize);
                            }
                        }
                        assert(gone@.contains(k as usize) ==> before.contains(k as usize)) by {
                            if gone@.contains(k as usize) {
                                let w = choose|w: int| 0 <= w < gone@.len() && gone@[w] == k as usize;
                                assert(w < before.len());
                                assert(before[w] == k as usize);
                            }
                        }
                    } else {
                        if taken {
                            assert(!gone@.contains(i)) by {
                                if gone@.contains(i) {
                                    let w = choose|w: int| 0 <= w < gone@.len() && gone@[w] == i;
                                    assert(gone@[w] < i);
                                }
                            }
                        } else {
                            assert(gone@[gone@.len() - 1] == i);
                        }
                    }
                }
            }
            i = i + 1;
        }
        gone
    }
}

/// Value of the outcome of [`CompressorScheduler::dispatch_event`]: the
/// indices of the targets that were gone, where an action was dispatched.
pub open spec fn gone_or_error(r: Result<Option<Vec<usize>>, TranslateError>) -> Result<
    Option<Seq<usize>>,
    TranslateError,
> {
    match r {
        Ok(Some(gone)) => Ok(Some(gone@)),
        Ok(None) => Ok(None),
        Err(e) => Err(e),
    }
}

impl CompressorScheduler {
    /// One turn of the dispatch loop: translates `event` under the watched
    /// `root` and, where it stands for an action, hands that action to every
    /// target. An event of another kind, and one with a path that does not
    /// stay inside the root, reaches no target.
    pub fn dispatch_event(&mut self, event: &RawEvent, root: &str) -> (res: Result<
        Option<Vec<usize>>,
        TranslateError,
    >)
        requires
            old(self).wf(),
        ensures
            final(self).wf(),
            final(self).targets() == old(self).targets(),
            match translation(*event, root@) {
                Ok(Some(action)) => {
                    &&& gone_or_error(res) matches Ok(Some(gone))
                    &&& ascending_below(gone, old(self).targets().len())
                    &&& final(self).histories().len() == old(self).histories().len()
                    &&& forall|i: int|
                        0 <= i < old(self).histories().len() ==> (#[trigger] final(self).histories()[i]) == history_after(
                            old(self).histories()[i],
                            action,
                            !gone.contains(i as usize),
                        )
                },
                Ok(None) => gone_or_error(res) == Ok::<Option<Seq<usize>>, TranslateError>(None)
                    && final(self).histories() == old(self).histories(),
                Err(e) => gone_or_error(res) == Err::<Option<Seq<usize>>, TranslateError>(e)
                    && final(self).histories() == old(self).histories(),
            },
    {
        match translate(event, root) {
            Ok(Some(action)) => Ok(Some(self.notify_all(&action))),
            Ok(None) => Ok(None),
            Err(e) => Err(e),
        }
    }
}

/// Removing the target at `index` spares the others: each target before it
/// keeps its index and its history, each target behind it moves one index
/// down with its history.
pub proof fn lemma_removal_spares_others(histories: Seq<Seq<ActionView>>, index: int, other: int)
    requires
        0 <= index < histories.len(),
        0 <= other < histories.len(),
        other != index,
    ensures
        other < index ==> histories.remove(index)[other] == histories[other],
        other > index ==> histories.remove(index)[other - 1] == histories[other],
        histories.remove(index).len() == histories.len() - 1,
{
}

/// Dispatch keeps the order of arrival: whatever a queue took before is a
/// prefix of its history after a dispatch, and an action it took stands
/// behind all of them.
pub proof fn lemma_dispatch_keeps_order(before: Seq<ActionView>, action: ActionView, taken: bool)
    ensures
        before.is_prefix_of(history_after(before, action, taken)),
        taken ==> history_after(before, action, taken).len() == before.len() + 1
            && history_after(before, action, taken).last() == action,
        !taken ==> history_after(before, action, taken) == before,
{
}

/// Two dispatches that a queue takes arrive in the order they were made.
pub proof fn lemma_two_dispatches_in_order(
    before: Seq<ActionView>,
    first: ActionView,
    second: ActionView,
)
    ensures
        history_after(history_after(before, first, true), second, true) == before + seq![
            first,
            second,
        ],
{
    assert(before.push(first).push(second) =~= before + seq![first, second]);
}

} // verus!
