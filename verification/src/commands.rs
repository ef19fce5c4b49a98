use std::collections::VecDeque;

use vstd::prelude::*;

use crate::production::{Shot, ShotID, ShotView};
use crate::shotliner_document::{AnnotationMap, AnnotationModel, Tag, TagID, TagView};
use crate::store::DocError;

verus! {

broadcast use vstd::std_specs::vecdeque::axiom_spec_len;

/// The status a command-history operation reports on success. Reaching
/// an undo or redo limit is an expected, recoverable outcome: callers
/// treat it as a no-op, not as a failure.
#[derive(Clone, Copy, Debug, PartialEq, Eq, Structural)]
pub enum CommandHistoryStatus {
    ExecuteSuccess,
    UndoSuccess,
    UndoLimitReached,
    RedoLimitReached,
}

/// A reversible description of one executed mutation, capturing enough
/// prior state to undo itself: the inserted value for an add, the new
/// and the replaced value for a modify, the removed value for a remove.
#[derive(Debug)]
pub enum Command {
    AddShotline(ShotID, Shot),
    ModifyShotline(ShotID, Shot, Shot),
    RemoveShotline(ShotID, Shot),
    AddTag(TagID, Tag),
    ModifyTag(TagID, Tag, Tag),
    RemoveTag(TagID, Tag),
}

/// A caller's request to perform one mutation, prior to being wrapped
/// into a reversible Command. The caller supplies the ID, so a command
/// and its eventual undo agree on identity.
#[derive(Debug)]
pub enum Intent {
    AddShotline(ShotID, Shot),
    ModifyShotline(ShotID, Shot),
    RemoveShotline(ShotID),
    AddTag(TagID, Tag),
    ModifyTag(TagID, Tag),
    RemoveTag(TagID),
}

/// The mathematical reading of a Command: the target key and the
/// readings of the values it carries.
#[verifier::ext_equal]
pub enum CommandModel {
    AddShotline { id: u128, value: ShotView },
    ModifyShotline { id: u128, value: ShotView, prior: ShotView },
    RemoveShotline { id: u128, prior: ShotView },
    AddTag { id: u128, value: TagView },
    ModifyTag { id: u128, value: TagView, prior: TagView },
    RemoveTag { id: u128, prior: TagView },
}

impl View for Command {
    type V = CommandModel;

    open spec fn view(&self) -> CommandModel {
        match self {
            Command::AddShotline(id, v) => CommandModel::AddShotline { id: id.0, value: v@ },
            Command::ModifyShotline(id, v, p) => CommandModel::ModifyShotline {
                id: id.0,
                value: v@,
                prior: p@,
            },
            Command::RemoveShotline(id, p) => CommandModel::RemoveShotline {
                id: id.0,
                prior: p@,
            },
            Command::AddTag(id, v) => CommandModel::AddTag { id: id.0, value: v@ },
            Command::ModifyTag(id, v, p) => CommandModel::ModifyTag {
                id: id.0,
                value: v@,
                prior: p@,
            },
            Command::RemoveTag(id, p) => CommandModel::RemoveTag { id: id.0, prior: p@ },
        }
    }
}

/// Whether the store operation an intent asks for would succeed on the
/// given annotation state: an add needs its key absent, a modify or
/// remove needs it present.
pub open spec fn intent_enabled(m: AnnotationModel, i: Intent) -> bool {
    match i {
        Intent::AddShotline(id, _) => !m.shotlines.contains_key(id.0),
        Intent::ModifyShotline(id, _) => m.shotlines.contains_key(id.0),
        Intent::RemoveShotline(id) => m.shotlines.contains_key(id.0),
        Intent::AddTag(id, _) => !m.tags.contains_key(id.0),
        Intent::ModifyTag(id, _) => m.tags.contains_key(id.0),
        Intent::RemoveTag(id) => m.tags.contains_key(id.0),
    }
}

/// The error an intent's store operation reports when it is not
/// enabled.
pub open spec fn intent_error(i: Intent) -> DocError {
    match i {
        Intent::AddShotline(_, _) => DocError::DuplicateID,
        Intent::ModifyShotline(_, _) => DocError::NotFound,
        Intent::RemoveShotline(_) => DocError::NotFound,
        Intent::AddTag(_, _) => DocError::DuplicateID,
        Intent::ModifyTag(_, _) => DocError::NotFound,
        Intent::RemoveTag(_) => DocError::NotFound,
    }
}

/// The reversible command an enabled intent is wrapped into: for a
/// modify or remove, the prior value is captured from the annotation
/// state.
pub open spec fn command_of_intent(m: AnnotationModel, i: Intent) -> CommandModel {
    match i {
        Intent::AddShotline(id, v) => CommandModel::AddShotline { id: id.0, value: v@ },
        Intent::ModifyShotline(id, v) => CommandModel::ModifyShotline {
            id: id.0,
            value: v@,
            prior: m.shotlines[id.0],
        },
        Intent::RemoveShotline(id) => CommandModel::RemoveShotline {
            id: id.0,
            prior: m.shotlines[id.0],
        },
        Intent::AddTag(id, v) => CommandModel::AddTag { id: id.0, value: v@ },
        Intent::ModifyTag(id, v) => CommandModel::ModifyTag {
            id: id.0,
            value: v@,
            prior: m.tags[id.0],
        },
        Intent::RemoveTag(id) => CommandModel::RemoveTag { id: id.0, prior: m.tags[id.0] },
    }
}

/// Whether a command can be applied in the forward direction.
pub open spec fn forward_enabled(m: AnnotationModel, c: CommandModel) -> bool {
    match c {
        CommandModel::AddShotline { id, value } => !m.shotlines.contains_key(id),
        CommandModel::ModifyShotline { id, value, prior } => m.shotlines.contains_key(id),
        CommandModel::RemoveShotline { id, prior } => m.shotlines.contains_key(id),
        CommandModel::AddTag { id, value } => !m.tags.contains_key(id),
        CommandModel::ModifyTag { id, value, prior } => m.tags.contains_key(id),
        CommandModel::RemoveTag { id, prior } => m.tags.contains_key(id),
    }
}

/// The error reported when a command cannot be re-applied forward.
pub open spec fn forward_error(c: CommandModel) -> DocError {
    match c {
        CommandModel::AddShotline { .. } => DocError::DuplicateID,
        CommandModel::ModifyShotline { .. } => DocError::NotFound,
        CommandModel::RemoveShotline { .. } => DocError::NotFound,
        CommandModel::AddTag { .. } => DocError::DuplicateID,
        CommandModel::ModifyTag { .. } => DocError::NotFound,
        CommandModel::RemoveTag { .. } => DocError::NotFound,
    }
}

/// The command applied in the forward direction.
pub open spec fn apply_forward(m: AnnotationModel, c: CommandModel) -> AnnotationModel {
    match c {
        CommandModel::AddShotline { id, value } => AnnotationModel {
            shotlines: m.shotlines.insert(id, value),
            ..m
        },
        CommandModel::ModifyShotline { id, value, prior } => AnnotationModel {
            shotlines: m.shotlines.insert(id, value),
            ..m
        },
        CommandModel::RemoveShotline { id, prior } => AnnotationModel {
            shotlines: m.shotlines.remove(id),
            ..m
        },
        CommandModel::AddTag { id, value } => AnnotationModel {
            tags: m.tags.insert(id, value),
            ..m
        },
        CommandModel::ModifyTag { id, value, prior } => AnnotationModel {
            tags: m.tags.insert(id, value),
            ..m
        },
        CommandModel::RemoveTag { id, prior } => AnnotationModel { tags: m.tags.remove(id), ..m },
    }
}

/// Whether a command's structural inverse can be applied: the inverse
/// of an add removes the same key, the inverse of a modify or remove
/// restores the captured prior value at the same key.
pub open spec fn inverse_enabled(m: AnnotationModel, c: CommandModel) -> bool {
    match c {
        CommandModel::AddShotline { id, value } => m.shotlines.contains_key(id),
        CommandModel::ModifyShotline { id, value, prior } => m.shotlines.contains_key(id),
        CommandModel::RemoveShotline { id, prior } => !m.shotlines.contains_key(id),
        CommandModel::AddTag { id, value } => m.tags.contains_key(id),
        CommandModel::ModifyTag { id, value, prior } => m.tags.contains_key(id),
        CommandModel::RemoveTag { id, prior } => !m.tags.contains_key(id),
    }
}

/// The error reported when a command's inverse cannot be applied.
pub open spec fn inverse_error(c: CommandModel) -> DocError {
    match c {
        CommandModel::AddShotline { .. } => DocError::NotFound,
        CommandModel::ModifyShotline { .. } => DocError::NotFound,
        CommandModel::RemoveShotline { .. } => DocError::DuplicateID,
        CommandModel::AddTag { .. } => DocError::NotFound,
        CommandModel::ModifyTag { .. } => DocError::NotFound,
        CommandModel::RemoveTag { .. } => DocError::DuplicateID,
    }
}

/// The command's structural inverse, applied.
pub open spec fn apply_inverse(m: AnnotationModel, c: CommandModel) -> AnnotationModel {
    match c {
        CommandModel::AddShotline { id, value } => AnnotationModel {
            shotlines: m.shotlines.remove(id),
            ..m
        },
        CommandModel::ModifyShotline { id, value, prior } => AnnotationModel {
            shotlines: m.shotlines.insert(id, prior),
            ..m
        },
        CommandModel::RemoveShotline { id, prior } => AnnotationModel {
            shotlines: m.shotlines.insert(id, prior),
            ..m
        },
        CommandModel::AddTag { id, value } => AnnotationModel { tags: m.tags.remove(id), ..m },
        CommandModel::ModifyTag { id, value, prior } => AnnotationModel {
            tags: m.tags.insert(id, prior),
            ..m
        },
        CommandModel::RemoveTag { id, prior } => AnnotationModel {
            tags: m.tags.insert(id, prior),
            ..m
        },
    }
}

/// Whether a command records as its prior value exactly what the
/// annotation state holds at its key. Every command the history wraps
/// does, at the moment it is executed.
pub open spec fn records_prior(m: AnnotationModel, c: CommandModel) -> bool {
    match c {
        CommandModel::AddShotline { .. } => true,
        CommandModel::ModifyShotline { id, value, prior } => m.shotlines.contains_key(id)
            && m.shotlines[id] == prior,
        CommandModel::RemoveShotline { id, prior } => m.shotlines.contains_key(id)
            && m.shotlines[id] == prior,
        CommandModel::AddTag { .. } => true,
        CommandModel::ModifyTag { id, value, prior } => m.tags.contains_key(id) && m.tags[id]
            == prior,
        CommandModel::RemoveTag { id, prior } => m.tags.contains_key(id) && m.tags[id] == prior,
    }
}

/// The mathematical reading of a command history: an ordered sequence
/// of executed commands, a cursor marking the boundary between applied
/// and undone-but-retained entries, and the maximum retained size.
#[verifier::ext_equal]
pub struct HistoryModel {
    pub history: Seq<CommandModel>,
    pub cursor: nat,
    pub max: nat,
}

impl HistoryModel {
    /// The history invariant: the cursor is within the history, and
    /// the history never outgrows its bound.
    pub open spec fn wf(self) -> bool {
        self.cursor <= self.history.len() && self.history.len() <= self.max
    }
}

/// Recording one freshly executed command: the stale redo tail past
/// the cursor is discarded, the command is appended, and the cursor
/// advances; if the bound would be exceeded, the oldest entry is
/// evicted instead and the cursor keeps its relative position.
pub open spec fn history_push(h: HistoryModel, c: CommandModel) -> HistoryModel {
    let appended = h.history.take(h.cursor as int).push(c);
    if appended.len() > h.max {
        HistoryModel { history: appended.skip(1), cursor: h.cursor, max: h.max }
    } else {
        HistoryModel { history: appended, cursor: h.cursor + 1, max: h.max }
    }
}

/// Undo inversion law: a command built from the state it was executed
/// on undoes exactly. Applying a command forward and then applying its
/// structural inverse restores the annotation state it started from.
pub proof fn lemma_undo_reverts_command(m: AnnotationModel, c: CommandModel)
    requires
        forward_enabled(m, c),
        records_prior(m, c),
    ensures
        apply_inverse(apply_forward(m, c), c) == m,
{
    match c {
        CommandModel::AddShotline { id, value } => {
            assert(m.shotlines.insert(id, value).remove(id) =~= m.shotlines);
            assert(apply_inverse(apply_forward(m, c), c) =~= m);
        },
        CommandModel::ModifyShotline { id, value, prior } => {
            assert(m.shotlines.insert(id, value).insert(id, prior) =~= m.shotlines);
            assert(apply_inverse(apply_forward(m, c), c) =~= m);
        },
        CommandModel::RemoveShotline { id, prior } => {
            assert(m.shotlines.remove(id).insert(id, prior) =~= m.shotlines);
            assert(apply_inverse(apply_forward(m, c), c) =~= m);
        },
        CommandModel::AddTag { id, value } => {
            assert(m.tags.insert(id, value).remove(id) =~= m.tags);
            assert(apply_inverse(apply_forward(m, c), c) =~= m);
        },
        CommandModel::ModifyTag { id, value, prior } => {
            assert(m.tags.insert(id, value).insert(id, prior) =~= m.tags);
            assert(apply_inverse(apply_forward(m, c), c) =~= m);
        },
        CommandModel::RemoveTag { id, prior } => {
            assert(m.tags.remove(id).insert(id, prior) =~= m.tags);
            assert(apply_inverse(apply_forward(m, c), c) =~= m);
        },
    }
}

/// The command an enabled intent is wrapped into is applicable forward
/// and records exactly the prior value the state holds: every command
/// that `execute` records satisfies the premises of the undo laws.
pub proof fn lemma_intent_command_runnable(m: AnnotationModel, i: Intent)
    requires
        intent_enabled(m, i),
    ensures
        forward_enabled(m, command_of_intent(m, i)),
        records_prior(m, command_of_intent(m, i)),
{
}

/// A sequence of commands can be run from the given state: each one is
/// enabled and records the prior value it sees when its turn comes.
/// This is exactly what a sequence of successful `execute` calls
/// guarantees of the commands it records.
pub open spec fn commands_runnable(m: AnnotationModel, s: Seq<CommandModel>) -> bool
    decreases s.len(),
{
    s.len() == 0 || (forward_enabled(m, s[0]) && records_prior(m, s[0]) && commands_runnable(
        apply_forward(m, s[0]),
        s.skip(1),
    ))
}

/// The state after applying every command of a sequence in order.
pub open spec fn apply_all(m: AnnotationModel, s: Seq<CommandModel>) -> AnnotationModel
    decreases s.len(),
{
    if s.len() == 0 {
        m
    } else {
        apply_all(apply_forward(m, s[0]), s.skip(1))
    }
}

/// The state after undoing every command of a sequence, one undo per
/// command, in reverse order of execution.
pub open spec fn unapply_all(m: AnnotationModel, s: Seq<CommandModel>) -> AnnotationModel
    decreases s.len(),
{
    if s.len() == 0 {
        m
    } else {
        apply_inverse(unapply_all(m, s.skip(1)), s[0])
    }
}

/// Undo round-trip law: for any sequence of commands runnable from a
/// state, applying them all and then undoing each one, in reverse
/// order, restores the exact starting state - the same set of IDs with
/// the same values in every store.
pub proof fn lemma_undo_round_trip(m: AnnotationModel, s: Seq<CommandModel>)
    requires
        commands_runnable(m, s),
    ensures
        unapply_all(apply_all(m, s), s) == m,
    decreases s.len(),
{
    if s.len() > 0 {
        let m1 = apply_forward(m, s[0]);
        lemma_undo_round_trip(m1, s.skip(1));
        lemma_undo_reverts_command(m, s[0]);
    }
}

/// Fresh-edit law: recording a command leaves the cursor at the end of
/// the history, so no forward entry remains and the next redo reports
/// `RedoLimitReached`. The discarded forward branch is gone.
pub proof fn lemma_fresh_edit_clears_redo(h: HistoryModel, c: CommandModel)
    requires
        h.wf(),
    ensures
        history_push(h, c).wf(),
        history_push(h, c).cursor == history_push(h, c).history.len(),
{
}

/// The state after recording every command of a sequence in order.
pub open spec fn history_push_all(h: HistoryModel, s: Seq<CommandModel>) -> HistoryModel
    decreases s.len(),
{
    if s.len() == 0 {
        h
    } else {
        history_push_all(history_push(h, s[0]), s.skip(1))
    }
}

/// Bounded-history law: recording commands from a fresh-edit state
/// retains the most recent ones up to the bound, never more. From an
/// empty history with bound N, recording N + 1 commands leaves exactly
/// N retrievable undo steps; the oldest is unrecoverable.
pub proof fn lemma_bounded_history(h: HistoryModel, s: Seq<CommandModel>)
    requires
        h.wf(),
        h.cursor == h.history.len(),
    ensures
        history_push_all(h, s).wf(),
        history_push_all(h, s).max == h.max,
        history_push_all(h, s).cursor == history_push_all(h, s).history.len(),
        history_push_all(h, s).history.len() == if h.cursor + s.len() <= h.max {
            h.cursor + s.len()
        } else {
            h.max
        },
    decreases s.len(),
{
    if s.len() > 0 {
        let h1 = history_push(h, s[0]);
        lemma_fresh_edit_clears_redo(h, s[0]);
        lemma_bounded_history(h1, s.skip(1));
    }
}

/// An ordered, cursor-addressed history of executed Commands providing
/// execute, undo and redo with a bounded retained size.
pub struct CommandHistory {
    index: u64,
    history: VecDeque<Command>,
    max_history_size: u64,
    current_history_size: u64,
}

impl View for CommandHistory {
    type V = HistoryModel;

    closed spec fn view(&self) -> HistoryModel {
        HistoryModel {
            history: self.history@.map_values(|c: Command| c@),
            cursor: self.index as nat,
            max: self.max_history_size as nat,
        }
    }
}

impl CommandHistory {
    /// Well-formedness: the cursor is within the history, the history
    /// is within its bound, and the recorded size mirrors the history.
    pub closed spec fn wf(&self) -> bool {
        self.index as int <= self.history@.len() && self.history@.len()
            <= self.max_history_size as int && self.current_history_size as int
            == self.history@.len()
    }

    /// A well-formed history has a well-formed reading.
    pub proof fn lemma_wf_model(&self)
        requires
            self.wf(),
        ensures
            self@.wf(),
    {
    }

    /// An empty history with the given bound.
    pub fn new(max_history_size: u64) -> (r: Self)
        ensures
            r.wf(),
            r@ == (HistoryModel {
                history: Seq::<CommandModel>::empty(),
                cursor: 0,
                max: max_history_size as nat,
            }),
    {
        let r = CommandHistory {
            index: 0,
            history: VecDeque::new(),
            max_history_size,
            current_history_size: 0,
        };
        proof {
            assert(r@.history =~= Seq::<CommandModel>::empty());
            assert(r@ =~= (HistoryModel {
                history: Seq::<CommandModel>::empty(),
                cursor: 0,
                max: max_history_size as nat,
            }));
        }
        r
    }

    /// The cursor: how many applied commands can currently be undone.
    pub fn index(&self) -> (r: u64)
        ensures
            r as nat == self@.cursor,
    {
        self.index
    }

    /// The bound on how many commands are retained.
    pub fn max_history_size(&self) -> (r: u64)
        ensures
            r as nat == self@.max,
    {
        self.max_history_size
    }

    /// How many commands the history currently retains.
    pub fn current_history_size(&self) -> (r: u64)
        requires
            self.wf(),
        ensures
            r as nat == self@.history.len(),
    {
        self.current_history_size
    }

    /// Records a freshly executed command: truncates the stale redo
    /// tail, appends, and advances the cursor, evicting the oldest
    /// entry if the bound would be exceeded.
    fn push_command(&mut self, cmd: Command)
        requires
            old(self).wf(),
        ensures
            final(self).wf(),
            final(self)@ == history_push(old(self)@, cmd@),
    {
        let n = self.history.len();
        assert(self.index <= n as u64);
        let idx = self.index as usize;
        self.history.truncate(idx);
        self.history.push_back(cmd);
        if (self.history.len() as u64) > self.max_history_size {
            let _evicted = self.history.pop_front();
        } else {
            self.index = self.index + 1;
        }
        self.current_history_size = self.history.len() as u64;
        proof {
            let hm = history_push(old(self)@, cmd@);
            assert(old(self)@.history.take(old(self)@.cursor as int) =~= old(
                self,
            ).history@.subrange(0, idx as int).map_values(|c: Command| c@));
            assert(self@.history =~= hm.history);
            assert(self@ =~= hm);
        }
    }

    /// Wraps an intent as a Command by invoking the matching store
    /// operation on the annotation state; on success the command is
    /// recorded (discarding any stale redo tail) and the cursor
    /// advances. Fails, leaving history and state unchanged, iff the
    /// underlying store operation fails.
    pub fn execute(&mut self, map: &mut AnnotationMap, intent: Intent) -> (r: Result<
        CommandHistoryStatus,
        DocError,
    >)
        requires
            old(self).wf(),
        ensures
            final(self).wf(),
            r is Ok <==> intent_enabled(old(map)@, intent),
            r is Ok ==> r->Ok_0 == CommandHistoryStatus::ExecuteSuccess && final(map)@
                == apply_forward(old(map)@, command_of_intent(old(map)@, intent)) && final(self)@
                == history_push(old(self)@, command_of_intent(old(map)@, intent)),
            r is Err ==> r->Err_0 == intent_error(intent) && *final(map) == *old(map) && *final(self) == *old(self),
    {
        let ghost gi = intent;
        let cmd: Command;
        match intent {
            Intent::AddShotline(id, shot) => {
                let copy = shot.clone();
                match map.shotlines.add(id.0, shot) {
                    Ok(_) => {
                        cmd = Command::AddShotline(id, copy);
                    },
                    Err(e) => {
                        return Err(e);
                    },
                }
            },
            Intent::ModifyShotline(id, shot) => {
                let copy = shot.clone();
                match map.shotlines.modify(id.0, shot) {
                    Ok(prior) => {
                        cmd = Command::ModifyShotline(id, copy, prior);
                    },
                    Err(e) => {
                        return Err(e);
                    },
                }
            },
            Intent::RemoveShotline(id) => {
                match map.shotlines.remove(id.0) {
                    Ok(prior) => {
                        cmd = Command::RemoveShotline(id, prior);
                    },
                    Err(e) => {
                        return Err(e);
                    },
                }
            },
            Intent::AddTag(id, tag) => {
                let copy = tag.clone();
                match map.tags.add(id.0, tag) {
                    Ok(_) => {
                        cmd = Command::AddTag(id, copy);
                    },
                    Err(e) => {
                        return Err(e);
                    },
                }
            },
            Intent::ModifyTag(id, tag) => {
                let copy = tag.clone();
                match map.tags.modify(id.0, tag) {
                    Ok(prior) => {
                        cmd = Command::ModifyTag(id, copy, prior);
                    },
                    Err(e) => {
                        return Err(e);
                    },
                }
            },
            Intent::RemoveTag(id) => {
                match map.tags.remove(id.0) {
                    Ok(prior) => {
                        cmd = Command::RemoveTag(id, prior);
                    },
                    Err(e) => {
                        return Err(e);
                    },
                }
            },
        }
        proof {
            assert(cmd@ == command_of_intent(old(map)@, gi));
            assert(map@ =~= apply_forward(old(map)@, cmd@));
        }
        self.push_command(cmd);
        Ok(CommandHistoryStatus::ExecuteSuccess)
    }

    /// Applies the structural inverse of the most recent applied
    /// command and steps the cursor back, retaining the command for a
    /// possible redo. Reports `UndoLimitReached` when nothing is left
    /// to undo; fails, leaving history and state unchanged, iff the
    /// inverse's store operation fails.
    pub fn undo(&mut self, map: &mut AnnotationMap) -> (r: Result<CommandHistoryStatus, DocError>)
        requires
            old(self).wf(),
        ensures
            final(self).wf(),
            old(self)@.cursor == 0 ==> r == Result::<CommandHistoryStatus, DocError>::Ok(
                CommandHistoryStatus::UndoLimitReached,
            ) && *final(map) == *old(map) && *final(self) == *old(self),
            old(self)@.cursor > 0 ==> {
                let c = old(self)@.history[old(self)@.cursor - 1];
                if inverse_enabled(old(map)@, c) {
                    r == Result::<CommandHistoryStatus, DocError>::Ok(
                        CommandHistoryStatus::UndoSuccess,
                    ) && final(map)@ == apply_inverse(old(map)@, c) && final(self)@
                        == (HistoryModel { cursor: (old(self)@.cursor - 1) as nat, ..old(self)@ })
                } else {
                    r == Result::<CommandHistoryStatus, DocError>::Err(inverse_error(c)) && *final(map) == *old(map) && *final(self) == *old(self)
                }
            },
    {
        if self.index == 0 {
            return Ok(CommandHistoryStatus::UndoLimitReached);
        }
        let n = self.history.len();
        assert(self.index <= n as u64);
        let i = (self.index - 1) as usize;
        let ghost c = self@.history[self@.cursor - 1];
        let outcome: Result<(), DocError>;
        match &self.history[i] {
            Command::AddShotline(id, _value) => {
                match map.shotlines.remove(id.0) {
                    Ok(_) => {
                        outcome = Ok(());
                    },
                    Err(e) => {
                        outcome = Err(e);
                    },
                }
            },
            Command::ModifyShotline(id, _value, prior) => {
                let p = prior.clone();
                match map.shotlines.modify(id.0, p) {
                    Ok(_) => {
                        outcome = Ok(());
                    },
                    Err(e) => {
                        outcome = Err(e);
                    },
                }
            },
            Command::RemoveShotline(id, prior) => {
                let p = prior.clone();
                match map.shotlines.add(id.0, p) {
                    Ok(_) => {
                        outcome = Ok(());
                    },
                    Err(e) => {
                        outcome = Err(e);
                    },
                }
            },
            Command::AddTag(id, _value) => {
                match map.tags.remove(id.0) {
                    Ok(_) => {
                        outcome = Ok(());
                    },
                    Err(e) => {
                        outcome = Err(e);
                    },
                }
            },
            Command::ModifyTag(id, _value, prior) => {
                let p = prior.clone();
                match map.tags.modify(id.0, p) {
                    Ok(_) => {
                        outcome = Ok(());
                    },
                    Err(e) => {
                        outcome = Err(e);
                    },
                }
            },
            Command::RemoveTag(id, prior) => {
                let p = prior.clone();
                match map.tags.add(id.0, p) {
                    Ok(_) => {
                        outcome = Ok(());
                    },
                    Err(e) => {
                        outcome = Err(e);
                    },
                }
            },
        }
        match outcome {
            Ok(_) => {
                proof {
                    assert(map@ =~= apply_inverse(old(map)@, c));
                }
                self.index = self.index - 1;
                proof {
                    assert(self@ =~= (HistoryModel {
                        cursor: (old(self)@.cursor - 1) as nat,
                        ..old(self)@
                    }));
                }
                Ok(CommandHistoryStatus::UndoSuccess)
            },
            Err(e) => Err(e),
        }
    }

    /// Re-applies the command at the cursor in the forward direction
    /// and advances the cursor. Reports `RedoLimitReached` when no
    /// undone command is retained ahead of the cursor; fails, leaving
    /// history and state unchanged, iff the store operation fails.
    pub fn redo(&mut self, map: &mut AnnotationMap) -> (r: Result<CommandHistoryStatus, DocError>)
        requires
            old(self).wf(),
        ensures
            final(self).wf(),
            old(self)@.cursor == old(self)@.history.len() ==> r == Result::<
                CommandHistoryStatus,
                DocError,
            >::Ok(CommandHistoryStatus::RedoLimitReached) && *final(map) == *old(map) && *final(self) == *old(self),
            old(self)@.cursor < old(self)@.history.len() ==> {
                let c = old(self)@.history[old(self)@.cursor as int];
                if forward_enabled(old(map)@, c) {
                    r == Result::<CommandHistoryStatus, DocError>::Ok(
                        CommandHistoryStatus::ExecuteSuccess,
                    ) && final(map)@ == apply_forward(old(map)@, c) && final(self)@
                        == (HistoryModel { cursor: old(self)@.cursor + 1, ..old(self)@ })
                } else {
                    r == Result::<CommandHistoryStatus, DocError>::Err(forward_error(c)) && *final(map) == *old(map) && *final(self) == *old(self)
                }
            },
    {
        let n = self.history.len();
        if self.index == n as u64 {
            return Ok(CommandHistoryStatus::RedoLimitReached);
        }
        assert(self.index < n as u64);
        let i = self.index as usize;
        let ghost c = self@.history[self@.cursor as int];
        let outcome: Result<(), DocError>;
        match &self.history[i] {
            Command::AddShotline(id, value) => {
                let v = value.clone();
                match map.shotlines.add(id.0, v) {
                    Ok(_) => {
                        outcome = Ok(());
                    },
                    Err(e) => {
                        outcome = Err(e);
                    },
                }
            },
            Command::ModifyShotline(id, value, _prior) => {
                let v = value.clone();
                match map.shotlines.modify(id.0, v) {
                    Ok(_) => {
                        outcome = Ok(());
                    },
                    Err(e) => {
                        outcome = Err(e);
                    },
                }
            },
            Command::RemoveShotline(id, _prior) => {
                match map.shotlines.remove(id.0) {
                    Ok(_) => {
                        outcome = Ok(());
                    },
                    Err(e) => {
                        outcome = Err(e);
                    },
                }
            },
            Command::AddTag(id, value) => {
                let v = value.clone();
                match map.tags.add(id.0, v) {
                    Ok(_) => {
                        outcome = Ok(());
                    },
                    Err(e) => {
                        outcome = Err(e);
                    },
                }
            },
            Command::ModifyTag(id, value, _prior) => {
                let v = value.clone();
                match map.tags.modify(id.0, v) {
                    Ok(_) => {
                        outcome = Ok(());
                    },
                    Err(e) => {
                        outcome = Err(e);
                    },
                }
            },
            Command::RemoveTag(id, _prior) => {
                match map.tags.remove(id.0) {
                    Ok(_) => {
                        outcome = Ok(());
                    },
                    Err(e) => {
                        outcome = Err(e);
                    },
                }
            },
        }
        match outcome {
            Ok(_) => {
                proof {
                    assert(map@ =~= apply_forward(old(map)@, c));
                }
                self.index = self.index + 1;
                proof {
                    assert(self@ =~= (HistoryModel {
                        cursor: old(self)@.cursor + 1,
                        ..old(self)@
                    }));
                }
                Ok(CommandHistoryStatus::ExecuteSuccess)
            },
            Err(e) => Err(e),
        }
    }
}

} // verus!
