//! The application state: the tasks, the sync credentials and the sync
//! status, with the task operations and the conversion to and from the
//! stored document.
use vstd::prelude::*;
use crate::encoding::{decode, deobfuscated, encode, lemma_obfuscation_round_trip, obfuscated};
use crate::calendar::{MAX_DAY, MIN_DAY};
use crate::sync_mode::SyncMode;
use crate::task::{
    MyTask,
    ParseError,
    SerializableTask,
    copy_opt_text,
    lemma_flat_form_readable,
    lemma_task_round_trip,
    opt_text,
};

verus! {

/// The state of the application.
///
/// Task ids are meant to be unique: creation replaces a task of the same id.
/// The list keeps the order in which tasks were created.
#[derive(Debug)]
pub struct AppState {
    pub tasks: Option<Vec<MyTask>>,
    pub sync_mode: SyncMode,
    pub github_pat: Option<String>,
    pub gist_id: Option<String>,
    pub gist_file_name: Option<String>,
}

/// The stored form of the state: tasks in their flat form, and the
/// credentials. The sync status is not stored.
#[derive(Debug)]
pub struct SerializableState {
    pub tasks: Option<Vec<SerializableTask>>,
    pub github_pat: Option<String>,
    pub gist_id: Option<String>,
    pub gist_file_name: Option<String>,
}

/// Why a task operation was refused.
#[derive(Clone, Copy, Debug, PartialEq, Eq, Structural)]
pub enum UpdateError {
    /// No task has the id.
    UnknownTask,
    /// The amount logged is zero.
    NothingLogged,
    /// A push or a pull is in flight.
    SyncInFlight,
    /// The logged effort would exceed what a count can hold.
    Overflow,
    /// Only an archived task can be removed.
    NotArchived,
}

/// The tasks of an optional list.
pub open spec fn task_seq(tasks: Option<Vec<MyTask>>) -> Seq<MyTask> {
    match tasks {
        Some(v) => v@,
        None => Seq::empty(),
    }
}

/// No two tasks have the same id.
pub open spec fn ids_unique(s: Seq<MyTask>) -> bool {
    forall|i: int, j: int| 0 <= i < j < s.len() ==> s[i].id != s[j].id
}

/// No two flat tasks have the same id.
pub open spec fn flat_ids_unique(s: Seq<SerializableTask>) -> bool {
    forall|i: int, j: int| 0 <= i < j < s.len() ==> s[i].id != s[j].id
}

/// `k` is the position of the last flat task of `s` with `id`.
pub open spec fn last_with_id(s: Seq<SerializableTask>, id: i64, k: int) -> bool {
    &&& 0 <= k < s.len()
    &&& s[k].id == id
    &&& forall|k2: int| k < k2 < s.len() ==> s[k2].id != id
}

/// `out` is what the flat tasks `s` read as, keyed by id, as a map filled
/// in order would hold them: one task for each id of `s`, read from the
/// last flat task with that id. Where no id repeats, `out` reads `s`
/// position by position.
pub open spec fn read_by_id(s: Seq<SerializableTask>, out: Seq<MyTask>) -> bool {
    &&& ids_unique(out)
    &&& forall|j: int|
        #![trigger out[j]]
        0 <= j < out.len() ==> exists|k: int| #[trigger] last_with_id(s, out[j].id, k) && s[k].reads_as(out[j])
    &&& forall|k: int|
        #![trigger s[k]]
        0 <= k < s.len() ==> exists|j: int| 0 <= j < out.len() && #[trigger] out[j].id == s[k].id
    &&& flat_ids_unique(s) ==> out.len() == s.len() && forall|k: int|
        0 <= k < s.len() ==> (#[trigger] s[k]).reads_as(out[k])
}

/// Tasks read in order, with each position traced back to the last flat
/// task of its id (`src`) and each flat task traced forward to the position
/// of its id (`pos`), are the flat tasks read by id.
proof fn lemma_read_by_id(s: Seq<SerializableTask>, out: Seq<MyTask>, src: Seq<int>, pos: Seq<int>)
    requires
        ids_unique(out),
        src.len() == out.len(),
        forall|j: int|
            0 <= j < out.len() ==> {
                let k = #[trigger] src[j];
                &&& 0 <= k < s.len()
                &&& s[k].id == out[j].id
                &&& s[k].reads_as(out[j])
                &&& forall|k2: int| k < k2 < s.len() ==> s[k2].id != out[j].id
            },
        pos.len() == s.len(),
        forall|k: int| 0 <= k < s.len() ==> 0 <= #[trigger] pos[k] < out.len() && out[pos[k]].id == s[k].id,
        flat_ids_unique(s.take(s.len() as int)) ==> out.len() == s.len() && forall|k: int|
            0 <= k < s.len() ==> (#[trigger] s[k]).reads_as(out[k]),
    ensures
        read_by_id(s, out),
{
    assert(s.take(s.len() as int) =~= s);
    assert forall|j: int| #![trigger out[j]] 0 <= j < out.len() implies exists|k: int|
        #[trigger] last_with_id(s, out[j].id, k) && s[k].reads_as(out[j]) by {
        let k = src[j];
        assert(last_with_id(s, out[j].id, k));
    }
    assert forall|k: int| #![trigger s[k]] 0 <= k < s.len() implies exists|j: int|
        0 <= j < out.len() && #[trigger] out[j].id == s[k].id by {
        let j = pos[k];
        assert(out[j].id == s[k].id);
    }
}

/// Every flat task has readable dates and weekday names.
pub open spec fn readable_tasks(s: Seq<SerializableTask>) -> bool {
    forall|i: int| 0 <= i < s.len() ==> (#[trigger] s[i]).dates_known() && s[i].names_known()
}

/// `i` is the position of the first task of `s` with `id`.
pub open spec fn first_with_id(s: Seq<MyTask>, id: i64, i: int) -> bool {
    &&& 0 <= i < s.len()
    &&& s[i].id == id
    &&& forall|j: int| 0 <= j < i ==> s[j].id != id
}

/// No task of `s` has `id`.
pub open spec fn no_task_with_id(s: Seq<MyTask>, id: i64) -> bool {
    forall|j: int| 0 <= j < s.len() ==> s[j].id != id
}

impl AppState {
    /// The tasks, in order.
    pub open spec fn task_list(self) -> Seq<MyTask> {
        task_seq(self.tasks)
    }

    /// Every task's dates lie within the years 1 to 9999, and no two tasks
    /// have the same id.
    pub open spec fn wf(self) -> bool {
        &&& forall|i: int| 0 <= i < self.task_list().len() ==> (#[trigger] self.task_list()[i]).wf()
        &&& ids_unique(self.task_list())
    }

    /// The two states hold the same tasks and credentials; the sync status
    /// may differ.
    pub open spec fn same_data(self, o: AppState) -> bool {
        &&& self.tasks is Some <==> o.tasks is Some
        &&& self.task_list() == o.task_list()
        &&& opt_text(self.github_pat) == opt_text(o.github_pat)
        &&& opt_text(self.gist_id) == opt_text(o.gist_id)
        &&& opt_text(self.gist_file_name) == opt_text(o.gist_file_name)
    }

    /// No tasks and no credentials.
    pub open spec fn is_empty(self) -> bool {
        &&& self.tasks is None
        &&& self.github_pat is None
        &&& self.gist_id is None
        &&& self.gist_file_name is None
    }

    /// A state with no tasks and no credentials.
    pub fn empty() -> (r: AppState)
        ensures
            r.is_empty(),
            r.sync_mode == SyncMode::NotSynced,
            r.wf(),
    {
        AppState {
            tasks: None,
            sync_mode: SyncMode::NotSynced,
            github_pat: None,
            gist_id: None,
            gist_file_name: None,
        }
    }

    /// Every task's dates lie within the years 1 to 9999, and no two tasks
    /// have the same id.
    pub fn is_wf(&self) -> (r: bool)
        ensures
            r == self.wf(),
    {
        let v = match &self.tasks {
            Some(v) => v,
            None => {
                return true;
            },
        };
        let mut i: usize = 0;
        while i < v.len()
            invariant
                v@ == self.task_list(),
                0 <= i <= v.len(),
                forall|k: int| 0 <= k < i ==> (#[trigger] v@[k]).wf(),
                forall|k1: int, k2: int| 0 <= k1 < k2 < i ==> v@[k1].id != v@[k2].id,
            decreases v.len() - i,
        {
            let t = &v[i];
            if !(MIN_DAY <= t.start.days && t.start.days <= MAX_DAY && MIN_DAY <= t.end.days
                && t.end.days <= MAX_DAY) {
                return false;
            }
            let mut j: usize = 0;
            while j < i
                invariant
                    v@ == self.task_list(),
                    0 <= j <= i < v.len(),
                    forall|k: int| 0 <= k < j ==> v@[k].id != v@[i as int].id,
                decreases i - j,
            {
                if v[j].id == v[i].id {
                    proof {
                        assert(!ids_unique(self.task_list()));
                    }
                    return false;
                }
                j = j + 1;
            }
            i = i + 1;
        }
        true
    }

    /// The position of the first task with `id`.
    pub fn find_task(&self, id: i64) -> (r: Option<usize>)
        ensures
            match r {
                Some(i) => first_with_id(self.task_list(), id, i as int),
                None => no_task_with_id(self.task_list(), id),
            },
    {
        match &self.tasks {
            Some(v) => {
                let mut i: usize = 0;
                while i < v.len()
                    invariant
                        v@ == self.task_list(),
                        0 <= i <= v.len(),
                        forall|j: int| 0 <= j < i ==> v@[j].id != id,
                    decreases v.len() - i,
                {
                    if v[i].id == id {
                        return Some(i);
                    }
                    i = i + 1;
                }
                None
            },
            None => None,
        }
    }
}

impl AppState {
    /// The task list, taken out of the state, which is left without tasks.
    fn take_tasks(&mut self) -> (r: Vec<MyTask>)
        ensures
            r@ == old(self).task_list(),
            final(self).tasks is None,
            final(self).sync_mode == old(self).sync_mode,
            final(self).github_pat == old(self).github_pat,
            final(self).gist_id == old(self).gist_id,
            final(self).gist_file_name == old(self).gist_file_name,
    {
        let mut taken: Option<Vec<MyTask>> = None;
        std::mem::swap(&mut self.tasks, &mut taken);
        match taken {
            Some(v) => v,
            None => Vec::new(),
        }
    }

    /// Adds a task, in place of the first task with the same id where there
    /// is one, else at the end.
    pub fn insert_task(&mut self, task: MyTask)
        ensures
            final(self).tasks is Some,
            old(self).wf() && task.wf() ==> final(self).wf(),
            forall|i: int|
                #[trigger] first_with_id(old(self).task_list(), task.id, i) ==> final(self).task_list()
                    == old(self).task_list().update(i, task),
            no_task_with_id(old(self).task_list(), task.id) ==> final(self).task_list()
                == old(self).task_list().push(task),
            final(self).sync_mode == old(self).sync_mode,
            final(self).github_pat == old(self).github_pat,
            final(self).gist_id == old(self).gist_id,
            final(self).gist_file_name == old(self).gist_file_name,
    {
        let found = self.find_task(task.id);
        let mut v = self.take_tasks();
        match found {
            Some(i) => {
                v.remove(i);
                v.insert(i, task);
                proof {
                    assert(v@ =~= old(self).task_list().update(i as int, task));
                }
            },
            None => {
                v.push(task);
            },
        }
        self.tasks = Some(v);
    }

    /// Logs `amount` of effort on the task with `id`. Refused while a push or
    /// a pull is in flight, for a zero amount, for an unknown id, and where
    /// the sum would not fit a count.
    pub fn log_progress(&mut self, id: i64, amount: u64) -> (r: Result<(), UpdateError>)
        ensures
            old(self).wf() ==> final(self).wf(),
            r == Err::<(), UpdateError>(UpdateError::SyncInFlight) <==> old(self).sync_mode.spec_busy(),
            r == Err::<(), UpdateError>(UpdateError::NothingLogged) <==> !old(self).sync_mode.spec_busy() && amount == 0,
            r == Err::<(), UpdateError>(UpdateError::UnknownTask) <==> !old(self).sync_mode.spec_busy() && amount > 0
                && no_task_with_id(old(self).task_list(), id),
            forall|i: int|
                #[trigger] first_with_id(old(self).task_list(), id, i) && !old(self).sync_mode.spec_busy() && amount > 0
                    ==> {
                    let t = old(self).task_list()[i];
                    if t.count_accum + amount > u64::MAX {
                        r == Err::<(), UpdateError>(UpdateError::Overflow)
                    } else {
                        &&& r is Ok
                        &&& final(self).task_list() == old(self).task_list().update(
                            i,
                            MyTask { count_accum: (t.count_accum + amount) as u64, ..t },
                        )
                    }
                },
            r is Err ==> final(self).task_list() == old(self).task_list(),
            final(self).tasks is Some <==> old(self).tasks is Some,
            final(self).sync_mode == old(self).sync_mode,
            final(self).github_pat == old(self).github_pat,
            final(self).gist_id == old(self).gist_id,
            final(self).gist_file_name == old(self).gist_file_name,
    {
        if self.sync_mode.is_busy() {
            return Err(UpdateError::SyncInFlight);
        }
        if amount == 0 {
            return Err(UpdateError::NothingLogged);
        }
        let i = match self.find_task(id) {
            Some(i) => i,
            None => {
                return Err(UpdateError::UnknownTask);
            },
        };
        let mut v = self.take_tasks();
        if v[i].count_accum > u64::MAX - amount {
            self.tasks = Some(v);
            return Err(UpdateError::Overflow);
        }
        let mut t = v.remove(i);
        t.count_accum = t.count_accum + amount;
        v.insert(i, t);
        proof {
            let o = old(self).task_list()[i as int];
            assert(v@ =~= old(self).task_list().update(
                i as int,
                MyTask { count_accum: (o.count_accum + amount) as u64, ..o },
            ));
        }
        self.tasks = Some(v);
        Ok(())
    }
}

impl AppState {
    /// Flips the archive flag of the first task with `id`; `false` where no
    /// task has it.
    pub fn toggle_archive(&mut self, id: i64) -> (r: bool)
        ensures
            old(self).wf() ==> final(self).wf(),
            r == !no_task_with_id(old(self).task_list(), id),
            forall|i: int|
                #[trigger] first_with_id(old(self).task_list(), id, i) ==> {
                    let t = old(self).task_list()[i];
                    final(self).task_list() == old(self).task_list().update(
                        i,
                        MyTask { archive: !t.archive, ..t },
                    )
                },
            !r ==> final(self).task_list() == old(self).task_list(),
            final(self).tasks is Some <==> old(self).tasks is Some,
            final(self).sync_mode == old(self).sync_mode,
            final(self).github_pat == old(self).github_pat,
            final(self).gist_id == old(self).gist_id,
            final(self).gist_file_name == old(self).gist_file_name,
    {
        let i = match self.find_task(id) {
            Some(i) => i,
            None => {
                return false;
            },
        };
        let mut v = self.take_tasks();
        let mut t = v.remove(i);
        t.archive = !t.archive;
        v.insert(i, t);
        proof {
            let o = old(self).task_list()[i as int];
            assert(v@ =~= old(self).task_list().update(i as int, MyTask { archive: !o.archive, ..o }));
        }
        self.tasks = Some(v);
        true
    }

    /// Sets the display name of the first task with `id`; `false` where no
    /// task has it.
    pub fn rename_task(&mut self, id: i64, name: Option<String>) -> (r: bool)
        ensures
            old(self).wf() ==> final(self).wf(),
            r == !no_task_with_id(old(self).task_list(), id),
            forall|i: int|
                #[trigger] first_with_id(old(self).task_list(), id, i) ==> {
                    let t = old(self).task_list()[i];
                    final(self).task_list() == old(self).task_list().update(i, MyTask { name, ..t })
                },
            !r ==> final(self).task_list() == old(self).task_list(),
            final(self).tasks is Some <==> old(self).tasks is Some,
            final(self).sync_mode == old(self).sync_mode,
            final(self).github_pat == old(self).github_pat,
            final(self).gist_id == old(self).gist_id,
            final(self).gist_file_name == old(self).gist_file_name,
    {
        let i = match self.find_task(id) {
            Some(i) => i,
            None => {
                return false;
            },
        };
        let mut v = self.take_tasks();
        let mut t = v.remove(i);
        t.name = name;
        v.insert(i, t);
        proof {
            let o = old(self).task_list()[i as int];
            assert(v@ =~= old(self).task_list().update(i as int, MyTask { name, ..o }));
        }
        self.tasks = Some(v);
        true
    }

    /// Removes the first task with `id`, which must be archived.
    pub fn remove_task(&mut self, id: i64) -> (r: Result<(), UpdateError>)
        ensures
            old(self).wf() ==> final(self).wf(),
            r == Err::<(), UpdateError>(UpdateError::UnknownTask) <==> no_task_with_id(old(self).task_list(), id),
            forall|i: int|
                #[trigger] first_with_id(old(self).task_list(), id, i) ==> if old(self).task_list()[i].archive {
                    r is Ok && final(self).task_list() == old(self).task_list().remove(i)
                } else {
                    r == Err::<(), UpdateError>(UpdateError::NotArchived)
                },
            r is Err ==> final(self).task_list() == old(self).task_list(),
            final(self).tasks is Some <==> old(self).tasks is Some,
            final(self).sync_mode == old(self).sync_mode,
            final(self).github_pat == old(self).github_pat,
            final(self).gist_id == old(self).gist_id,
            final(self).gist_file_name == old(self).gist_file_name,
    {
        let i = match self.find_task(id) {
            Some(i) => i,
            None => {
                return Err(UpdateError::UnknownTask);
            },
        };
        let mut v = self.take_tasks();
        if !v[i].archive {
            self.tasks = Some(v);
            return Err(UpdateError::NotArchived);
        }
        v.remove(i);
        self.tasks = Some(v);
        Ok(())
    }
}

/// The flat tasks of an optional list.
pub open spec fn flat_seq(tasks: Option<Vec<SerializableTask>>) -> Seq<SerializableTask> {
    match tasks {
        Some(v) => v@,
        None => Seq::empty(),
    }
}

/// The obfuscated text of an optional token.
pub open spec fn opt_obfuscated(t: Option<Seq<char>>) -> Option<Seq<char>> {
    match t {
        Some(t) => Some(obfuscated(t)),
        None => None,
    }
}

impl SerializableState {
    /// The flat tasks, in order.
    pub open spec fn task_list(self) -> Seq<SerializableTask> {
        flat_seq(self.tasks)
    }

    /// The tasks of this form are the flat forms of those of `st`, in the
    /// same order; the document id and file name are those of `st`.
    pub open spec fn tasks_flat_form_of(self, st: AppState) -> bool {
        &&& self.tasks is Some <==> st.tasks is Some
        &&& self.task_list().len() == st.task_list().len()
        &&& forall|i: int|
            0 <= i < self.task_list().len() ==> (#[trigger] self.task_list()[i]).flat_form_of(
                st.task_list()[i],
            )
        &&& opt_text(self.gist_id) == opt_text(st.gist_id)
        &&& opt_text(self.gist_file_name) == opt_text(st.gist_file_name)
    }

    /// The flat tasks of a state, in order.
    fn flat_tasks(state: &AppState) -> (r: Option<Vec<SerializableTask>>)
        requires
            state.wf(),
        ensures
            r is Some <==> state.tasks is Some,
            flat_seq(r).len() == state.task_list().len(),
            forall|i: int|
                0 <= i < flat_seq(r).len() ==> (#[trigger] flat_seq(r)[i]).flat_form_of(
                    state.task_list()[i],
                ),
    {
        match &state.tasks {
            Some(v) => {
                let mut out: Vec<SerializableTask> = Vec::new();
                let mut i: usize = 0;
                while i < v.len()
                    invariant
                        v@ == state.task_list(),
                        state.wf(),
                        0 <= i <= v.len(),
                        out.len() == i,
                        forall|k: int| 0 <= k < i ==> (#[trigger] out@[k]).flat_form_of(v@[k]),
                    decreases v.len() - i,
                {
                    assert(state.task_list()[i as int].wf());
                    out.push(SerializableTask::from(&v[i]));
                    i = i + 1;
                }
                Some(out)
            },
            None => None,
        }
    }

    /// The stored form of a state, with the token as it is.
    pub fn from(state: &AppState) -> (r: SerializableState)
        requires
            state.wf(),
        ensures
            r.tasks_flat_form_of(*state),
            opt_text(r.github_pat) == opt_text(state.github_pat),
    {
        SerializableState {
            tasks: SerializableState::flat_tasks(state),
            github_pat: copy_opt_text(&state.github_pat),
            gist_id: copy_opt_text(&state.gist_id),
            gist_file_name: copy_opt_text(&state.gist_file_name),
        }
    }

    /// The stored form of a state, with the token obfuscated, as it is
    /// written to disk, to an exported file, or to the remote document.
    pub fn for_storage(state: &AppState) -> (r: SerializableState)
        requires
            state.wf(),
        ensures
            r.tasks_flat_form_of(*state),
            opt_text(r.github_pat) == opt_obfuscated(opt_text(state.github_pat)),
    {
        let pat = match &state.github_pat {
            Some(p) => Some(encode(p.as_str())),
            None => None,
        };
        SerializableState {
            tasks: SerializableState::flat_tasks(state),
            github_pat: pat,
            gist_id: copy_opt_text(&state.gist_id),
            gist_file_name: copy_opt_text(&state.gist_file_name),
        }
    }
}

impl AppState {
    /// The tasks of `self` are what those of `s` read as, keyed by id; the
    /// document id and file name are those of `s`.
    pub open spec fn tasks_read_from(self, s: SerializableState) -> bool {
        &&& self.wf()
        &&& self.tasks is Some <==> s.tasks is Some
        &&& read_by_id(s.task_list(), self.task_list())
        &&& opt_text(self.gist_id) == opt_text(s.gist_id)
        &&& opt_text(self.gist_file_name) == opt_text(s.gist_file_name)
    }

    /// Every flat task of `s` has readable dates and weekday names.
    pub open spec fn all_readable(s: SerializableState) -> bool {
        readable_tasks(s.task_list())
    }

    /// Reads the tasks of a stored form, keyed by id: a later task with an
    /// id takes the place of an earlier one. Fails with the error of the
    /// first task that cannot be read.
    #[verifier::rlimit(60)]
    fn read_tasks(tasks: &Option<Vec<SerializableTask>>) -> (r: Result<Option<Vec<MyTask>>, ParseError>)
        ensures
            r is Ok <==> readable_tasks(flat_seq(*tasks)),
            r is Ok ==> (r->Ok_0 is Some <==> tasks is Some) && read_by_id(flat_seq(*tasks), task_seq(r->Ok_0)),
            r is Err ==> r->Err_0 == ParseError::InvalidDate || r->Err_0 == ParseError::InvalidWeekday,
    {
        let v = match tasks {
            Some(v) => v,
            None => {
                return Ok(None);
            },
        };
        let mut out: Vec<MyTask> = Vec::new();
        let ghost mut src: Seq<int> = Seq::empty();
        let ghost mut pos: Seq<int> = Seq::empty();
        let mut i: usize = 0;
        while i < v.len()
            invariant
                v@ == flat_seq(*tasks),
                0 <= i <= v.len(),
                forall|k: int| 0 <= k < i ==> (#[trigger] v@[k]).dates_known() && v@[k].names_known(),
                ids_unique(out@),
                src.len() == out.len(),
                forall|j: int|
                    0 <= j < out.len() ==> {
                        let k = #[trigger] src[j];
                        &&& 0 <= k < i
                        &&& v@[k].id == out@[j].id
                        &&& v@[k].reads_as(out@[j])
                        &&& forall|k2: int| k < k2 < i ==> v@[k2].id != out@[j].id
                    },
                pos.len() == i,
                forall|k: int| 0 <= k < i ==> 0 <= #[trigger] pos[k] < out.len() && out@[pos[k]].id == v@[k].id,
                flat_ids_unique(v@.take(i as int)) ==> out.len() == i && forall|k: int|
                    0 <= k < i ==> (#[trigger] v@[k]).reads_as(out@[k]),
            decreases v.len() - i,
        {
            let t = match MyTask::try_from(&v[i]) {
                Ok(t) => t,
                Err(e) => {
                    return Err(e);
                },
            };
            let mut j: usize = 0;
            while j < out.len() && out[j].id != t.id
                invariant
                    0 <= j <= out.len(),
                    forall|j2: int| 0 <= j2 < j ==> out@[j2].id != t.id,
                decreases out.len() - j,
            {
                j = j + 1;
            }
            let ghost old_out = out@;
            proof {
                if flat_ids_unique(v@.take(i + 1)) {
                    assert forall|k1: int, k2: int| 0 <= k1 < k2 < i implies v@.take(i as int)[k1].id
                        != v@.take(i as int)[k2].id by {
                        assert(v@.take(i + 1)[k1] == v@[k1] && v@.take(i + 1)[k2] == v@[k2]);
                    }
                }
            }
            if j < out.len() {
                proof {
                    let k = src[j as int];
                    assert(v@.take(i + 1)[k] == v@[k] && v@.take(i + 1)[i as int] == v@[i as int]);
                    assert(!flat_ids_unique(v@.take(i + 1)));
                    src = src.update(j as int, i as int);
                    pos = pos.push(j as int);
                }
                out.remove(j);
                out.insert(j, t);
                proof {
                    assert(out@ =~= old_out.update(j as int, t));
                    assert forall|j2: int| 0 <= j2 < out.len() && j2 != j implies out@[j2].id != t.id by {
                        assert(old_out[j2].id != old_out[j as int].id);
                    }
                }
            } else {
                proof {
                    src = src.push(i as int);
                    pos = pos.push(out.len() as int);
                }
                out.push(t);
            }
            i = i + 1;
        }
        proof {
            assert(v@.take(v.len() as int) =~= v@);
            lemma_read_by_id(v@, out@, src, pos);
        }
        Ok(Some(out))
    }

    /// A state of the tasks, document id and file name of `s`, with `pat`
    /// as token.
    fn read_state(s: SerializableState, pat: Option<String>) -> (r: Result<AppState, ParseError>)
        ensures
            r is Ok <==> AppState::all_readable(s),
            r is Ok ==> r->Ok_0.tasks_read_from(s) && r->Ok_0.github_pat == pat
                && r->Ok_0.sync_mode == SyncMode::NotSynced,
            r is Err ==> r->Err_0 == ParseError::InvalidDate || r->Err_0 == ParseError::InvalidWeekday,
    {
        let tasks = match AppState::read_tasks(&s.tasks) {
            Ok(t) => t,
            Err(e) => {
                return Err(e);
            },
        };
        proof {
            assert forall|j: int| 0 <= j < task_seq(tasks).len() implies (#[trigger] task_seq(
                tasks,
            )[j]).wf() by {
                let k = choose|k: int|
                    #[trigger] last_with_id(s.task_list(), task_seq(tasks)[j].id, k) && s.task_list()[k].reads_as(
                        task_seq(tasks)[j],
                    );
            }
        }
        Ok(
            AppState {
                tasks,
                sync_mode: SyncMode::NotSynced,
                github_pat: pat,
                gist_id: s.gist_id,
                gist_file_name: s.gist_file_name,
            },
        )
    }

    /// Reads a stored form whose token is as it is, keyed by id: a later
    /// task with an id takes the place of an earlier one. Fails with the
    /// error of the first task that cannot be read.
    pub fn try_from(s: SerializableState) -> (r: Result<AppState, ParseError>)
        ensures
            r is Ok <==> AppState::all_readable(s),
            r is Ok ==> r->Ok_0.tasks_read_from(s) && opt_text(r->Ok_0.github_pat) == opt_text(
                s.github_pat,
            ) && r->Ok_0.sync_mode == SyncMode::NotSynced,
            r is Err ==> r->Err_0 == ParseError::InvalidDate || r->Err_0 == ParseError::InvalidWeekday,
    {
        let pat = copy_opt_text(&s.github_pat);
        AppState::read_state(s, pat)
    }

    /// The token of a stored form, deobfuscated.
    pub open spec fn token_read(s: SerializableState) -> Option<Seq<char>> {
        match s.github_pat {
            Some(p) => deobfuscated(p@),
            None => None,
        }
    }

    /// The token of a stored form is absent or obfuscated text.
    pub open spec fn token_readable(s: SerializableState) -> bool {
        match s.github_pat {
            Some(p) => deobfuscated(p@) is Some,
            None => true,
        }
    }

    /// `r` is a result of reading the stored form `s`, whose token is
    /// obfuscated: what it reads is what `s` says; it fails with
    /// `InvalidToken` where the token cannot be read, and otherwise succeeds
    /// exactly where every task can be read.
    pub open spec fn storage_read_result(s: SerializableState, r: Result<AppState, ParseError>) -> bool {
        &&& r is Ok ==> {
            &&& r->Ok_0.tasks_read_from(s)
            &&& r->Ok_0.sync_mode == SyncMode::NotSynced
            &&& opt_text(r->Ok_0.github_pat) == AppState::token_read(s)
        }
        &&& !AppState::token_readable(s) ==> r == Err::<AppState, ParseError>(ParseError::InvalidToken)
        &&& AppState::token_readable(s) ==> (r is Ok <==> AppState::all_readable(s))
        &&& AppState::token_readable(s) && r is Err ==> r->Err_0 == ParseError::InvalidDate || r->Err_0
            == ParseError::InvalidWeekday
    }

    /// Reads a stored form whose token is obfuscated. Fails with
    /// `InvalidToken` where the token is not obfuscated text, and otherwise
    /// with the error of the first task that cannot be read.
    pub fn from_storage(s: SerializableState) -> (r: Result<AppState, ParseError>)
        ensures
            AppState::storage_read_result(s, r),
    {
        let pat = match &s.github_pat {
            Some(p) => match decode(p.as_str()) {
                Some(d) => Some(d),
                None => {
                    return Err(ParseError::InvalidToken);
                },
            },
            None => None,
        };
        AppState::read_state(s, pat)
    }

    /// The state to start from: what was stored where it can be read, else
    /// an empty state.
    pub fn load_or_empty(stored: Option<SerializableState>) -> (r: AppState)
        ensures
            r.wf(),
            r.sync_mode == SyncMode::NotSynced,
            match stored {
                Some(s) => {
                    &&& AppState::all_readable(s) && AppState::token_readable(s) ==> r.tasks_read_from(s)
                        && opt_text(r.github_pat) == AppState::token_read(s)
                    &&& !(AppState::all_readable(s) && AppState::token_readable(s)) ==> r.is_empty()
                    &&& r.is_empty() || r.tasks_read_from(s)
                },
                None => r.is_empty(),
            },
    {
        match stored {
            Some(s) => match AppState::from_storage(s) {
                Ok(st) => st,
                Err(_) => AppState::empty(),
            },
            None => AppState::empty(),
        }
    }
}

/// Reading back the stored form of a state gives its tasks, token,
/// document id and file name again.
pub proof fn lemma_state_round_trip(st: AppState, s: SerializableState, r: Result<AppState, ParseError>)
    requires
        st.wf(),
        s.tasks_flat_form_of(st),
        opt_text(s.github_pat) == opt_obfuscated(opt_text(st.github_pat)),
        AppState::storage_read_result(s, r),
    ensures
        r is Ok,
        r->Ok_0.tasks is Some <==> st.tasks is Some,
        r->Ok_0.task_list().len() == st.task_list().len(),
        forall|i: int|
            0 <= i < st.task_list().len() ==> (#[trigger] r->Ok_0.task_list()[i]).same(st.task_list()[i]),
        opt_text(r->Ok_0.github_pat) == opt_text(st.github_pat),
        opt_text(r->Ok_0.gist_id) == opt_text(st.gist_id),
        opt_text(r->Ok_0.gist_file_name) == opt_text(st.gist_file_name),
{
    assert forall|i: int| 0 <= i < s.task_list().len() implies (#[trigger] s.task_list()[i]).dates_known()
        && s.task_list()[i].names_known() by {
        assert(st.task_list()[i].wf());
        lemma_flat_form_readable(st.task_list()[i], s.task_list()[i]);
    }
    match st.github_pat {
        Some(p) => {
            lemma_obfuscation_round_trip(p@);
        },
        None => {},
    }
    let back = r->Ok_0;
    assert(flat_ids_unique(s.task_list())) by {
        assert forall|i: int, j: int| 0 <= i < j < s.task_list().len() implies s.task_list()[i].id
            != s.task_list()[j].id by {
            assert(s.task_list()[i].flat_form_of(st.task_list()[i]));
            assert(s.task_list()[j].flat_form_of(st.task_list()[j]));
        }
    }
    assert forall|i: int| 0 <= i < st.task_list().len() implies (#[trigger] back.task_list()[i]).same(
        st.task_list()[i],
    ) by {
        let fl = s.task_list()[i];
        assert(st.task_list()[i].wf());
        assert(fl.reads_as(back.task_list()[i]));
        lemma_task_round_trip(st.task_list()[i], fl, Ok(back.task_list()[i]));
    }
}

} // verus!
