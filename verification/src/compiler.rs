//! The equation compiler worker: a coalescing, single-consumer compilation
//! queue.
//!
//! The worker owns the pending work table — a map from object key to the
//! most recent compilation task submitted for it; a new submission for a
//! key already present replaces the old task unread. The host runs the
//! worker on a dedicated thread and owns both channels; every decision of
//! the loop (what to dispatch next, when a blocking receive is allowed,
//! when to exit, which events an outcome maps to) is taken by the verified
//! functions here.
//!
//! The host's loop is, in order: call [`EquationCompilerWorker::perform_compilation_work`]
//! and, if it handed out a unit of work, run the backend and send the
//! events of [`work_events`]; exit when [`EquationCompilerWorker::should_exit`];
//! then receive — blocking exactly when
//! [`EquationCompilerWorker::allow_blocking_receive`] says so, draining all
//! currently available messages otherwise — and feed every received message
//! through [`EquationCompilerWorker::handle_message`]. A closed channel also
//! ends the loop.

use vstd::prelude::*;

use crate::config::EquationConfig;
use crate::latex::{CompilationError, spec_error_message};
use crate::stroke::EquationImage;

verus! {

/// Immutable snapshot of an equation object's source text and style
/// configuration, captured at submission time.
#[derive(Debug, Clone)]
pub struct CompilationTask {
    pub equation_code: String,
    pub equation_config: EquationConfig,
}

impl CompilationTask {
    /// Captures the object's *current* text and configuration.
    pub fn new(equation: &EquationImage) -> (r: CompilationTask)
        ensures
            r.equation_code == equation.equation_code,
            r.equation_config == equation.equation_config,
    {
        CompilationTask {
            equation_code: equation.equation_code.clone(),
            equation_config: equation.equation_config,
        }
    }
}

/// A message to the compiler worker: compile a snapshot for an object key,
/// or shut down.
#[derive(Debug, Clone)]
pub enum EquationCompilerTask {
    Compile(u64, CompilationTask),
    Quit,
}

/// Which object key a unit of work was performed for, if any.
#[derive(Debug)]
pub struct CompilationWorkResult {
    pub completed_work: Option<u64>,
}

/// An event the worker sends back to the engine after a unit of work.
#[derive(Debug, Clone)]
pub enum EngineEvent {
    /// Store freshly compiled markup as the object's rendered content.
    UpdateRenderedContent { key: u64, svg_code: String },
    /// Record a compilation error message against the object; rendered
    /// content is left as it was.
    SetError { key: u64, message: String },
    /// Remove any recorded error from the object.
    ClearError { key: u64 },
}

/// The object key an event is routed to.
pub open spec fn spec_event_key(e: EngineEvent) -> u64 {
    match e {
        EngineEvent::UpdateRenderedContent { key, .. } => key,
        EngineEvent::SetError { key, .. } => key,
        EngineEvent::ClearError { key } => key,
    }
}

/// No two entries share a key.
pub open spec fn distinct_keys(s: Seq<(u64, CompilationTask)>) -> bool {
    forall|i: int, j: int| 0 <= i < j < s.len() ==> s[i].0 != s[j].0
}

/// Whether some entry carries `key`.
pub open spec fn table_contains(s: Seq<(u64, CompilationTask)>, key: u64) -> bool {
    exists|i: int| 0 <= i < s.len() && s[i].0 == key
}

/// The index of the entry carrying `key` (unique when keys are distinct).
pub open spec fn index_of_key(s: Seq<(u64, CompilationTask)>, key: u64) -> int {
    choose|i: int| 0 <= i < s.len() && s[i].0 == key
}

/// The task stored for `key`.
pub open spec fn table_lookup(s: Seq<(u64, CompilationTask)>, key: u64) -> CompilationTask {
    s[index_of_key(s, key)].1
}

/// Insertion with overwrite: a key already present keeps its place but
/// gets the new task; a new key is appended.
pub open spec fn spec_insert(
    s: Seq<(u64, CompilationTask)>,
    key: u64,
    task: CompilationTask,
) -> Seq<(u64, CompilationTask)> {
    if table_contains(s, key) {
        s.update(index_of_key(s, key), (key, task))
    } else {
        s.push((key, task))
    }
}

/// The pending work table: at most one outstanding task per object key,
/// in insertion order.
#[derive(Debug)]
pub struct PendingWorkTable {
    entries: Vec<(u64, CompilationTask)>,
}

impl View for PendingWorkTable {
    type V = Seq<(u64, CompilationTask)>;

    closed spec fn view(&self) -> Seq<(u64, CompilationTask)> {
        self.entries@
    }
}

impl PendingWorkTable {
    /// Every key occurs at most once.
    pub open spec fn wf(self) -> bool {
        distinct_keys(self@)
    }

    /// An empty table.
    pub fn new() -> (r: PendingWorkTable)
        ensures
            r@ == Seq::<(u64, CompilationTask)>::empty(),
            r.wf(),
    {
        PendingWorkTable { entries: Vec::new() }
    }

    /// How many tasks are waiting.
    pub fn len(&self) -> (n: usize)
        ensures
            n == self@.len(),
    {
        self.entries.len()
    }

    /// Whether no task is waiting.
    pub fn is_empty(&self) -> (r: bool)
        ensures
            r == (self@.len() == 0),
    {
        self.entries.len() == 0
    }

    /// The position of `key`'s entry, if one exists.
    fn position_of(&self, key: u64) -> (r: Option<usize>)
        ensures
            match r {
                Some(i) => i < self@.len() && self@[i as int].0 == key,
                None => !table_contains(self@, key),
            },
    {
        let mut i: usize = 0;
        while i < self.entries.len()
            invariant
                i <= self@.len(),
                forall|j: int| 0 <= j < i ==> self@[j].0 != key,
            decreases self@.len() - i,
        {
            if self.entries[i].0 == key {
                return Some(i);
            }
            i = i + 1;
        }
        None
    }

    /// Inserts `task` under `key`, replacing in place any task already
    /// waiting for that key.
    pub fn insert_task(&mut self, key: u64, task: CompilationTask)
        requires
            old(self).wf(),
        ensures
            final(self).wf(),
            final(self)@ == spec_insert(old(self)@, key, task),
    {
        let position = self.position_of(key);
        match position {
            Some(i) => {
                proof {
                    assert(table_contains(self@, key));
                    let chosen = index_of_key(self@, key);
                    assert(0 <= chosen < self@.len() && self@[chosen].0 == key);
                    assert(chosen == i as int);
                }
                let _ = self.entries.remove(i);
                self.entries.insert(i, (key, task));
                proof {
                    assert(final(self)@ =~= spec_insert(old(self)@, key, task));
                    assert forall|a: int, b: int|
                        0 <= a < b < final(self)@.len() implies final(self)@[a].0
                        != final(self)@[b].0 by {
                        assert(old(self)@[a].0 != old(self)@[b].0);
                    }
                }
            },
            None => {
                self.entries.push((key, task));
                proof {
                    assert(final(self)@ =~= spec_insert(old(self)@, key, task));
                    assert forall|a: int, b: int|
                        0 <= a < b < final(self)@.len() implies final(self)@[a].0
                        != final(self)@[b].0 by {
                        if b < old(self)@.len() {
                            assert(old(self)@[a].0 != old(self)@[b].0);
                        } else {
                            assert(!table_contains(old(self)@, key));
                            assert(final(self)@[b].0 == key);
                        }
                    }
                }
            },
        }
    }

    /// Removes and returns the oldest waiting entry, if any.
    pub fn take_front(&mut self) -> (r: Option<(u64, CompilationTask)>)
        requires
            old(self).wf(),
        ensures
            final(self).wf(),
            old(self)@.len() == 0 ==> r is None && final(self)@ == old(self)@,
            old(self)@.len() > 0 ==> r == Some(old(self)@[0])
                && final(self)@ == old(self)@.drop_first(),
    {
        if self.entries.len() == 0 {
            None
        } else {
            let entry = self.entries.remove(0);
            proof {
                assert(final(self)@ =~= old(self)@.drop_first());
            }
            Some(entry)
        }
    }
}

/// The worker's whole observable state: the pending entries in order, and
/// whether shutdown has been requested.
pub ghost struct WorkerModel {
    pub entries: Seq<(u64, CompilationTask)>,
    pub quit: bool,
}

impl WorkerModel {
    /// Keys are distinct.
    pub open spec fn wf(self) -> bool {
        distinct_keys(self.entries)
    }
}

/// What a received message does to the worker's state: a submission
/// inserts (overwriting any waiting task for the same key), a shutdown
/// message sets the quit flag.
pub open spec fn spec_handle_message(w: WorkerModel, task: EquationCompilerTask) -> WorkerModel {
    match task {
        EquationCompilerTask::Compile(key, t) => WorkerModel {
            entries: spec_insert(w.entries, key, t),
            quit: w.quit,
        },
        EquationCompilerTask::Quit => WorkerModel { entries: w.entries, quit: true },
    }
}

/// The worker may go dormant (block on its channel) only with an empty
/// table.
pub open spec fn spec_allow_blocking_receive(w: WorkerModel) -> bool {
    w.entries.len() == 0
}

/// The worker exits only once shutdown was requested and every pending
/// task has been dispatched.
pub open spec fn spec_should_exit(w: WorkerModel) -> bool {
    w.quit && w.entries.len() == 0
}

/// The state machine of the compiler worker thread. The host owns the
/// channels and the backend; this type owns the pending work table and the
/// shutdown flag and takes every decision of the loop.
#[derive(Debug)]
pub struct EquationCompilerWorker {
    current_compilation_tasks: PendingWorkTable,
    quit_requested: bool,
}

impl View for EquationCompilerWorker {
    type V = WorkerModel;

    closed spec fn view(&self) -> WorkerModel {
        WorkerModel { entries: self.current_compilation_tasks@, quit: self.quit_requested }
    }
}

impl EquationCompilerWorker {
    /// Keys are distinct.
    pub open spec fn wf(self) -> bool {
        self@.wf()
    }

    /// A fresh worker: empty table, no shutdown requested.
    pub fn new() -> (r: EquationCompilerWorker)
        ensures
            r.wf(),
            r@.entries.len() == 0,
            !r@.quit,
    {
        EquationCompilerWorker {
            current_compilation_tasks: PendingWorkTable::new(),
            quit_requested: false,
        }
    }

    /// Picks the unit of work for this loop iteration: the oldest waiting
    /// entry is removed from the table and handed to the host, which
    /// invokes the backend with it. With an empty table there is nothing
    /// to do and the state is unchanged.
    pub fn perform_compilation_work(&mut self) -> (r: (
        CompilationWorkResult,
        Option<CompilationTask>,
    ))
        requires
            old(self).wf(),
        ensures
            final(self).wf(),
            final(self)@.quit == old(self)@.quit,
            old(self)@.entries.len() == 0 ==> r.0.completed_work is None && r.1 is None
                && final(self)@ == old(self)@,
            old(self)@.entries.len() > 0 ==> r.0.completed_work == Some(old(self)@.entries[0].0)
                && r.1 == Some(old(self)@.entries[0].1)
                && final(self)@.entries == old(self)@.entries.drop_first(),
    {
        let front = self.current_compilation_tasks.take_front();
        match front {
            Some((key, task)) => (
                CompilationWorkResult { completed_work: Some(key) },
                Some(task),
            ),
            None => (CompilationWorkResult { completed_work: None }, None),
        }
    }

    /// Folds one received message into the state; returns whether it was a
    /// shutdown request.
    pub fn handle_message(&mut self, task: EquationCompilerTask) -> (quit: bool)
        requires
            old(self).wf(),
        ensures
            final(self).wf(),
            final(self)@ == spec_handle_message(old(self)@, task),
            quit == (task is Quit),
    {
        match task {
            EquationCompilerTask::Compile(key, compilation_task) => {
                self.current_compilation_tasks.insert_task(key, compilation_task);
                false
            },
            EquationCompilerTask::Quit => {
                self.quit_requested = true;
                true
            },
        }
    }

    /// Whether the host may block on the next receive: only when no work
    /// is pending, so a non-empty table always makes progress.
    pub fn allow_blocking_receive(&self) -> (r: bool)
        ensures
            r == spec_allow_blocking_receive(self@),
    {
        self.current_compilation_tasks.is_empty()
    }

    /// Whether the loop is done: shutdown was requested and no task is
    /// still pending.
    pub fn should_exit(&self) -> (r: bool)
        ensures
            r == spec_should_exit(self@),
    {
        self.quit_requested && self.current_compilation_tasks.is_empty()
    }
}

/// The events a finished unit of work sends back to the engine: on
/// success, the new markup followed by an error clear; on failure, a
/// single error report with the failure's message. Every event is routed
/// to the key the work was performed for.
pub fn work_events(key: u64, outcome: Result<String, CompilationError>) -> (events: Vec<
    EngineEvent,
>)
    ensures
        outcome is Ok ==> events@.len() == 2 && events@[0] == (EngineEvent::UpdateRenderedContent {
            key,
            svg_code: outcome->Ok_0,
        }) && events@[1] == (EngineEvent::ClearError { key }),
        outcome is Err ==> events@.len() == 1 && events@[0] is SetError && spec_event_key(
            events@[0],
        ) == key && spec_set_error_message(events@[0]) == spec_error_message(outcome->Err_0),
        forall|i: int| 0 <= i < events@.len() ==> spec_event_key(#[trigger] events@[i]) == key,
{
    let mut events: Vec<EngineEvent> = Vec::new();
    match outcome {
        Ok(svg_code) => {
            events.push(EngineEvent::UpdateRenderedContent { key, svg_code });
            events.push(EngineEvent::ClearError { key });
        },
        Err(error) => {
            let message = error.message();
            events.push(EngineEvent::SetError { key, message });
        },
    }
    events
}

/// The message text of an error event (empty for the other events).
pub open spec fn spec_set_error_message(e: EngineEvent) -> Seq<char> {
    match e {
        EngineEvent::SetError { message, .. } => message@,
        _ => Seq::<char>::empty(),
    }
}

/// With distinct keys, the chosen index of a contained key is the only
/// index carrying it.
pub proof fn lemma_index_of_key(s: Seq<(u64, CompilationTask)>, key: u64)
    requires
        distinct_keys(s),
        table_contains(s, key),
    ensures
        0 <= index_of_key(s, key) < s.len(),
        s[index_of_key(s, key)].0 == key,
        forall|i: int| 0 <= i < s.len() && s[i].0 == key ==> i == index_of_key(s, key),
{
    let idx = choose|i: int| 0 <= i < s.len() && s[i].0 == key;
    assert(0 <= idx < s.len() && s[idx].0 == key);
    assert forall|i: int| 0 <= i < s.len() && s[i].0 == key implies i == index_of_key(
        s,
        key,
    ) by {
        if i < index_of_key(s, key) {
            assert(s[i].0 != s[index_of_key(s, key)].0);
        }
        if index_of_key(s, key) < i {
            assert(s[index_of_key(s, key)].0 != s[i].0);
        }
    }
}

/// What one insertion does to the table: the inserted key now carries the
/// new task, every other key is untouched, and the table grows only when
/// the key was new.
pub proof fn lemma_insert_effect(s: Seq<(u64, CompilationTask)>, key: u64, task: CompilationTask)
    requires
        distinct_keys(s),
    ensures
        distinct_keys(spec_insert(s, key, task)),
        table_contains(spec_insert(s, key, task), key),
        table_lookup(spec_insert(s, key, task), key) == task,
        spec_insert(s, key, task).len() == if table_contains(s, key) {
            s.len()
        } else {
            s.len() + 1
        },
        forall|k2: u64|
            k2 != key ==> (table_contains(spec_insert(s, key, task), k2) <==> table_contains(
                s,
                k2,
            )),
        forall|k2: u64|
            k2 != key && table_contains(s, k2) ==> table_lookup(spec_insert(s, key, task), k2)
                == table_lookup(s, k2),
{
    let s2 = spec_insert(s, key, task);
    if table_contains(s, key) {
        lemma_index_of_key(s, key);
        let i = index_of_key(s, key);
        assert(s2 == s.update(i, (key, task)));
        assert(distinct_keys(s2)) by {
            assert forall|a: int, b: int| 0 <= a < b < s2.len() implies s2[a].0 != s2[b].0 by {
                assert(s[a].0 != s[b].0);
            }
        }
        assert(s2[i].0 == key);
        lemma_index_of_key(s2, key);
        assert(index_of_key(s2, key) == i);
        assert forall|k2: u64| k2 != key implies (table_contains(s2, k2) <==> table_contains(
            s,
            k2,
        )) by {
            if table_contains(s2, k2) {
                let j = choose|j: int| 0 <= j < s2.len() && s2[j].0 == k2;
                assert(j != i);
                assert(s[j].0 == k2);
            }
            if table_contains(s, k2) {
                let j = choose|j: int| 0 <= j < s.len() && s[j].0 == k2;
                assert(j != i);
                assert(s2[j].0 == k2);
            }
        }
        assert forall|k2: u64| k2 != key && table_contains(s, k2) implies table_lookup(s2, k2)
            == table_lookup(s, k2) by {
            lemma_index_of_key(s, k2);
            let j = index_of_key(s, k2);
            assert(j != i);
            assert(s2[j].0 == k2);
            lemma_index_of_key(s2, k2);
            assert(index_of_key(s2, k2) == j);
        }
    } else {
        assert(s2 == s.push((key, task)));
        assert(s2[s.len() as int].0 == key);
        assert(distinct_keys(s2)) by {
            assert forall|a: int, b: int| 0 <= a < b < s2.len() implies s2[a].0 != s2[b].0 by {
                if b < s.len() {
                    assert(s[a].0 != s[b].0);
                } else {
                    assert(s2[a].0 == s[a].0);
                    assert(!table_contains(s, key));
                }
            }
        }
        lemma_index_of_key(s2, key);
        assert(index_of_key(s2, key) == s.len() as int);
        assert forall|k2: u64| k2 != key implies (table_contains(s2, k2) <==> table_contains(
            s,
            k2,
        )) by {
            if table_contains(s2, k2) {
                let j = choose|j: int| 0 <= j < s2.len() && s2[j].0 == k2;
                assert(j != s.len() as int);
                assert(s[j].0 == k2);
            }
            if table_contains(s, k2) {
                let j = choose|j: int| 0 <= j < s.len() && s[j].0 == k2;
                assert(s2[j].0 == k2);
            }
        }
        assert forall|k2: u64| k2 != key && table_contains(s, k2) implies table_lookup(s2, k2)
            == table_lookup(s, k2) by {
            lemma_index_of_key(s, k2);
            let j = index_of_key(s, k2);
            assert(s2[j].0 == k2);
            lemma_index_of_key(s2, k2);
            assert(index_of_key(s2, k2) == j);
        }
    }
}

/// The worker state after submitting every task of `tasks` for `key`, in
/// order, with no intervening dispatch.
pub open spec fn spec_submit_all(
    w: WorkerModel,
    key: u64,
    tasks: Seq<CompilationTask>,
) -> WorkerModel
    decreases tasks.len(),
{
    if tasks.len() == 0 {
        w
    } else {
        spec_submit_all(
            spec_handle_message(w, EquationCompilerTask::Compile(key, tasks[0])),
            key,
            tasks.drop_first(),
        )
    }
}

/// Coalescing: submitting tasks for the same key any number of times
/// before the worker dispatches leaves exactly one entry for that key,
/// carrying the content of the *last* submission only; the table grows by
/// at most one entry and every other key's waiting task is untouched.
pub proof fn lemma_coalescing(w: WorkerModel, key: u64, tasks: Seq<CompilationTask>)
    requires
        w.wf(),
        tasks.len() > 0,
    ensures
        ({
            let w2 = spec_submit_all(w, key, tasks);
            &&& w2.wf()
            &&& w2.quit == w.quit
            &&& table_contains(w2.entries, key)
            &&& table_lookup(w2.entries, key) == tasks.last()
            &&& w2.entries.len() == if table_contains(w.entries, key) {
                w.entries.len()
            } else {
                w.entries.len() + 1
            }
            &&& forall|k2: u64|
                k2 != key ==> (table_contains(w2.entries, k2) <==> table_contains(w.entries, k2))
            &&& forall|k2: u64|
                k2 != key && table_contains(w.entries, k2) ==> table_lookup(w2.entries, k2)
                    == table_lookup(w.entries, k2)
        }),
    decreases tasks.len(),
{
    let w1 = spec_handle_message(w, EquationCompilerTask::Compile(key, tasks[0]));
    lemma_insert_effect(w.entries, key, tasks[0]);
    if tasks.len() == 1 {
        assert(spec_submit_all(w1, key, tasks.drop_first()) == w1);
        assert(tasks.last() == tasks[0]);
    } else {
        lemma_coalescing(w1, key, tasks.drop_first());
        assert(tasks.drop_first().last() == tasks.last());
    }
}

/// No duplicate-key work: submitting tasks for two different keys leaves
/// both waiting with their own content; since keys stay distinct, the
/// quiescent run of [`lemma_graceful_shutdown`] dispatches each exactly
/// once, and [`work_events`] routes each outcome to its own key.
pub proof fn lemma_independent_submissions(
    w: WorkerModel,
    key_a: u64,
    task_a: CompilationTask,
    key_b: u64,
    task_b: CompilationTask,
)
    requires
        w.wf(),
        key_a != key_b,
    ensures
        ({
            let w2 = spec_handle_message(
                spec_handle_message(w, EquationCompilerTask::Compile(key_a, task_a)),
                EquationCompilerTask::Compile(key_b, task_b),
            );
            &&& w2.wf()
            &&& table_contains(w2.entries, key_a)
            &&& table_contains(w2.entries, key_b)
            &&& table_lookup(w2.entries, key_a) == task_a
            &&& table_lookup(w2.entries, key_b) == task_b
        }),
{
    let s1 = spec_insert(w.entries, key_a, task_a);
    lemma_insert_effect(w.entries, key_a, task_a);
    lemma_insert_effect(s1, key_b, task_b);
}

/// Non-blocking progress: with work pending the worker neither blocks on
/// its channel nor exits — it dispatches.
pub proof fn lemma_nonblocking_progress(w: WorkerModel)
    requires
        w.entries.len() > 0,
    ensures
        !spec_allow_blocking_receive(w),
        !spec_should_exit(w),
{
}

/// The units of work the worker dispatches from `w` onward when no
/// further message arrives, in order.
pub open spec fn spec_quiescent_dispatches(w: WorkerModel) -> Seq<(u64, CompilationTask)>
    decreases w.entries.len(),
{
    if w.entries.len() > 0 {
        seq![w.entries[0]] + spec_quiescent_dispatches(
            WorkerModel { entries: w.entries.drop_first(), quit: w.quit },
        )
    } else {
        Seq::<(u64, CompilationTask)>::empty()
    }
}

/// Graceful shutdown: once shutdown was requested, the worker dispatches
/// every pending task exactly once — oldest first — and then exits. With
/// an empty table it exits at once, emitting nothing; keys being distinct,
/// no pending task is compiled twice.
pub proof fn lemma_graceful_shutdown(w: WorkerModel)
    requires
        w.wf(),
        w.quit,
    ensures
        spec_quiescent_dispatches(w) == w.entries,
        w.entries.len() == 0 ==> spec_should_exit(w) && spec_quiescent_dispatches(w).len() == 0,
        w.entries.len() > 0 ==> !spec_should_exit(w),
    decreases w.entries.len(),
{
    if w.entries.len() == 0 {
        assert(spec_quiescent_dispatches(w) =~= w.entries);
    } else {
        let w1 = WorkerModel { entries: w.entries.drop_first(), quit: w.quit };
        assert(w1.wf()) by {
            assert forall|a: int, b: int|
                0 <= a < b < w1.entries.len() implies w1.entries[a].0 != w1.entries[b].0 by {
                assert(w.entries[a + 1].0 != w.entries[b + 1].0);
            }
        }
        lemma_graceful_shutdown(w1);
        assert(spec_quiescent_dispatches(w) =~= w.entries);
    }
}

} // verus!
