//! The bridge's view of the Neovim instances it talks to.
pub mod buffer;
pub mod lua;

use crate::action::BufferStatus;
use vstd::prelude::*;

verus! {

/// The Neovim instances to talk to, by the paths of their RPC sockets.
pub struct NeovimAction {
    socket_paths: Vec<String>,
}

impl View for NeovimAction {
    type V = Seq<String>;

    closed spec fn view(&self) -> Seq<String> {
        self.socket_paths@
    }
}

impl NeovimAction {
    /// The instances listening on the given sockets, in the given order.
    pub fn new(socket_paths: Vec<String>) -> (action: Self)
        ensures
            action@ == socket_paths@,
    {
        NeovimAction { socket_paths }
    }

    /// The socket paths, in the order the instances are asked.
    pub fn socket_paths(&self) -> (paths: &Vec<String>)
        ensures
            paths@ == self@,
    {
        &self.socket_paths
    }
}

/// The status with neither flag set: what is reported when nothing is known.
pub open spec fn no_status() -> BufferStatus {
    BufferStatus { is_current: false, has_unsaved_changes: false }
}

/// Two statuses joined: each flag is set when either status sets it.
pub open spec fn status_join(a: BufferStatus, b: BufferStatus) -> BufferStatus {
    BufferStatus {
        is_current: a.is_current || b.is_current,
        has_unsaved_changes: a.has_unsaved_changes || b.has_unsaved_changes,
    }
}

/// Folds the instances' answers in order, starting from `acc`. An answer is `None`
/// when the instance gave none (it could not be reached, or it does not have the file
/// open): such an instance adds nothing. The fold stops at the first answer that
/// reports unsaved changes, since no later answer can change that verdict.
pub open spec fn fold_statuses(acc: BufferStatus, answers: Seq<Option<BufferStatus>>) -> BufferStatus
    decreases answers.len(),
{
    if answers.len() == 0 {
        acc
    } else {
        match answers[0] {
            None => fold_statuses(acc, answers.skip(1)),
            Some(s) => {
                let joined = status_join(acc, s);
                if joined.has_unsaved_changes {
                    joined
                } else {
                    fold_statuses(joined, answers.skip(1))
                }
            },
        }
    }
}

/// The status reported for a file: the fold of the instances' answers from neither flag.
pub open spec fn merged_status(answers: Seq<Option<BufferStatus>>) -> BufferStatus {
    fold_statuses(no_status(), answers)
}

/// One step of asking the instances about a file.
#[derive(Debug, Clone, Copy, PartialEq, Eq, Structural)]
pub enum StatusStep {
    /// Ask the next instance; the status so far.
    Continue(BufferStatus),
    /// Stop asking; the status to report.
    Done(BufferStatus),
}

/// Takes one instance's answer into the status gathered so far. `None` is an instance
/// that gave no answer: it adds nothing and the query goes on. An answer with unsaved
/// changes ends the query, since nothing later can change that verdict.
pub fn status_step(acc: BufferStatus, answer: Option<BufferStatus>) -> (step: StatusStep)
    ensures
        match answer {
            None => step == StatusStep::Continue(acc),
            Some(s) => if status_join(acc, s).has_unsaved_changes {
                step == StatusStep::Done(status_join(acc, s))
            } else {
                step == StatusStep::Continue(status_join(acc, s))
            },
        },
{
    match answer {
        None => StatusStep::Continue(acc),
        Some(s) => {
            let joined = BufferStatus {
                is_current: acc.is_current || s.is_current,
                has_unsaved_changes: acc.has_unsaved_changes || s.has_unsaved_changes,
            };
            if joined.has_unsaved_changes {
                StatusStep::Done(joined)
            } else {
                StatusStep::Continue(joined)
            }
        },
    }
}

/// The status of a file over all instances, from their answers in the order they are
/// asked (`None` for an instance that gave no answer): unsaved changes are reported
/// when any instance that answered reports them; the file is reported as current when
/// an instance that answered, up to the first one with unsaved changes, shows it as
/// its current buffer.
pub fn merge_buffer_statuses(answers: &Vec<Option<BufferStatus>>) -> (status: BufferStatus)
    ensures
        status == merged_status(answers@),
{
    let mut acc = BufferStatus { is_current: false, has_unsaved_changes: false };
    let mut i: usize = 0;
    assert(answers@.skip(0) =~= answers@);
    while i < answers.len()
        invariant
            0 <= i <= answers@.len(),
            !acc.has_unsaved_changes,
            fold_statuses(no_status(), answers@) == fold_statuses(acc, answers@.skip(i as int)),
        decreases answers@.len() - i,
    {
        assert(answers@.skip(i as int)[0] == answers@[i as int]);
        assert(answers@.skip(i as int).skip(1) =~= answers@.skip(i + 1));
        match status_step(acc, answers[i]) {
            StatusStep::Continue(next) => {
                acc = next;
            },
            StatusStep::Done(done) => {
                return done;
            },
        }
        i = i + 1;
    }
    assert(answers@.skip(i as int).len() == 0);
    acc
}

/// No instance took the message.
#[derive(Debug, Clone, Copy, PartialEq, Eq, Structural)]
pub enum SendError {
    NotDelivered,
}

impl SendError {
    /// The message shown for this error.
    pub fn message(&self) -> (text: &'static str)
        ensures
            text@ == "couldn't send to Neovim"@,
    {
        "couldn't send to Neovim"
    }
}

/// Whether a message sent to every instance counts as sent, from whether each instance
/// took it: it does when at least one did.
pub fn delivery_outcome(delivered: &Vec<bool>) -> (outcome: Result<(), SendError>)
    ensures
        outcome is Ok <==> exists|i: int| 0 <= i < delivered@.len() && #[trigger] delivered@[i],
        outcome is Err ==> outcome == Err::<(), SendError>(SendError::NotDelivered),
{
    let mut i: usize = 0;
    while i < delivered.len()
        invariant
            0 <= i <= delivered@.len(),
            forall|j: int| 0 <= j < i ==> !#[trigger] delivered@[j],
        decreases delivered@.len() - i,
    {
        if delivered[i] {
            return Ok(());
        }
        i = i + 1;
    }
    Err(SendError::NotDelivered)
}

/// This answer reports unsaved changes to the file.
pub open spec fn reports_unsaved(answer: Option<BufferStatus>) -> bool {
    answer matches Some(s) && s.has_unsaved_changes
}

/// This answer shows the file as the current buffer.
pub open spec fn reports_current(answer: Option<BufferStatus>) -> bool {
    answer matches Some(s) && s.is_current
}

/// Some answer reports unsaved changes to the file.
pub open spec fn some_unsaved(answers: Seq<Option<BufferStatus>>) -> bool {
    exists|i: int|
        0 <= i < answers.len() && #[trigger] reports_unsaved(answers[i])
}

/// Some answer, with no answer before it reporting unsaved changes, shows the file as
/// the current buffer.
pub open spec fn current_before_unsaved(answers: Seq<Option<BufferStatus>>) -> bool {
    exists|i: int|
        0 <= i < answers.len() && #[trigger] reports_current(answers[i])
            && !some_unsaved(answers.take(i))
}

/// Buffer protection: a file is reported as having unsaved changes exactly when some
/// instance that answered reports them, whatever the other instances answered or
/// whether they answered at all. It is reported as current exactly when some instance
/// that answered, up to the first one with unsaved changes, shows it as current.
pub proof fn law_unsaved_reported(answers: Seq<Option<BufferStatus>>)
    ensures
        merged_status(answers).has_unsaved_changes == some_unsaved(answers),
        merged_status(answers).is_current == current_before_unsaved(answers),
{
    lemma_fold(no_status(), answers);
}

proof fn lemma_fold(acc: BufferStatus, answers: Seq<Option<BufferStatus>>)
    requires
        !acc.has_unsaved_changes,
    ensures
        fold_statuses(acc, answers).has_unsaved_changes == some_unsaved(answers),
        fold_statuses(acc, answers).is_current == (acc.is_current || current_before_unsaved(answers)),
    decreases answers.len(),
{
    if answers.len() == 0 {
    } else {
        let rest = answers.skip(1);
        assert forall|i: int| 0 <= i < rest.len() implies #[trigger] rest[i] == answers[i + 1] by {}
        assert forall|i: int| 0 <= i < rest.len() implies rest.take(i) =~= answers.take(i + 1).skip(1) by {}
        // an unsaved answer in `rest` is one in `answers`, and back
        if some_unsaved(rest) {
            let i = choose|i: int|
                0 <= i < rest.len() && #[trigger] reports_unsaved(rest[i]);
            assert(answers[i + 1] == rest[i]);
        }
        if some_unsaved(answers) {
            let i = choose|i: int|
                0 <= i < answers.len() && #[trigger] reports_unsaved(answers[i]);
            if i > 0 {
                assert(rest[i - 1] == answers[i]);
            }
        }
        let first_unsaved = reports_unsaved(answers[0]);
                assert(answers.take(0) =~= Seq::<Option<BufferStatus>>::empty());
        assert(!some_unsaved(answers.take(0)));
        // prefixes of `answers` past the first element are the first element followed
        // by prefixes of `rest`
        assert forall|i: int| 0 < i <= answers.len() implies some_unsaved(#[trigger] answers.take(i))
            == (first_unsaved || some_unsaved(rest.take(i - 1))) by {
            if some_unsaved(answers.take(i)) {
                let k = choose|k: int|
                    0 <= k < answers.take(i).len() && #[trigger] reports_unsaved(answers.take(i)[k]);
                if k > 0 {
                    assert(rest.take(i - 1)[k - 1] == answers.take(i)[k]);
                }
            }
            if some_unsaved(rest.take(i - 1)) {
                let k = choose|k: int|
                    0 <= k < rest.take(i - 1).len() && #[trigger] reports_unsaved(rest.take(i - 1)[k]);
                assert(answers.take(i)[k + 1] == rest.take(i - 1)[k]);
            }
            if first_unsaved {
                assert(answers.take(i)[0] == answers[0]);
            }
        }
        match answers[0] {
            None => {
                lemma_fold(acc, rest);
                if current_before_unsaved(rest) {
                    let i = choose|i: int|
                        0 <= i < rest.len() && #[trigger] reports_current(rest[i])
                            && !some_unsaved(rest.take(i));
                    assert(answers[i + 1] == rest[i]);
                    assert(answers.take(i + 1) =~= seq![answers[0]] + rest.take(i));
                }
                if current_before_unsaved(answers) {
                    let i = choose|i: int|
                        0 <= i < answers.len() && #[trigger] reports_current(answers[i])
                            && !some_unsaved(answers.take(i));
                    assert(i > 0);
                    assert(rest[i - 1] == answers[i]);
                }
            },
            Some(s) => {
                let joined = status_join(acc, s);
                if joined.has_unsaved_changes {
                    assert(reports_unsaved(answers[0]));
                    if current_before_unsaved(answers) {
                        let i = choose|i: int|
                            0 <= i < answers.len() && #[trigger] reports_current(answers[i]) && !some_unsaved(answers.take(i));
                        if i > 0 {
                            assert(some_unsaved(answers.take(i)));
                        }
                    }
                    if s.is_current {
                        assert(reports_current(answers[0]));
                    }
                } else {
                    lemma_fold(joined, rest);
                    if current_before_unsaved(rest) {
                        let i = choose|i: int|
                            0 <= i < rest.len() && #[trigger] reports_current(rest[i])
                                && !some_unsaved(rest.take(i));
                        assert(answers[i + 1] == rest[i]);
                    }
                    if current_before_unsaved(answers) {
                        let i = choose|i: int|
                            0 <= i < answers.len() && #[trigger] reports_current(answers[i]) && !some_unsaved(answers.take(i));
                        if i > 0 {
                            assert(rest[i - 1] == answers[i]);
                        }
                    }
                    if s.is_current {
                        assert(reports_current(answers[0]));
                    }
                }
            },
        }
    }
}

} // verus!
