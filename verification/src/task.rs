//! The task record and its mathematical model.

use crate::layout::{
    lemma_text_fits, text_region, BOOL_LENGTH, DISCRIMINATOR, MAX_TEXT_CHARS, PUBLIC_KEY_LENGTH,
    TEXT_LENGTH, TIMESTAMP_LENGTH,
};
use anchor_lang::prelude::Pubkey;
use vstd::prelude::*;

verus! {

/// A to-do item as it is stored.
///
/// A task is never removed: deleting one sets `is_done`, and a later update
/// may clear it again.
#[derive(Debug, PartialEq, Eq)]
pub struct Task {
    /// The key that may change the task: the signer of the last instruction
    /// that was applied to it.
    pub author: Pubkey,
    /// Whether the task is done.
    pub is_done: bool,
    /// What is to be done.
    pub text: String,
    /// When the task was created, in seconds. Set once.
    pub created_at: i64,
    /// When the task was last changed, in seconds.
    pub updated_at: i64,
}

/// What a [`Task`] stands for: its text as a sequence of characters and its
/// timestamps as integers.
pub struct TaskView {
    /// The key that may change the task.
    pub author: Pubkey,
    /// Whether the task is done.
    pub is_done: bool,
    /// The text, character by character.
    pub text: Seq<char>,
    /// When the task was created.
    pub created_at: int,
    /// When the task was last changed.
    pub updated_at: int,
}

impl View for Task {
    type V = TaskView;

    open spec fn view(&self) -> TaskView {
        TaskView {
            author: self.author,
            is_done: self.is_done,
            text: self.text@,
            created_at: self.created_at as int,
            updated_at: self.updated_at as int,
        }
    }
}

impl TaskView {
    /// What holds of every task that the store created and changed under a
    /// clock that never ran back past the task's creation: the text is
    /// within the limit, and the task was not changed before it was created.
    pub open spec fn wf(self) -> bool {
        &&& self.text.len() <= MAX_TEXT_CHARS
        &&& self.created_at <= self.updated_at
    }

    /// The task that `author` creates from `text` at time `now`.
    pub open spec fn created(text: Seq<char>, author: Pubkey, now: int) -> TaskView {
        TaskView { author, is_done: false, text, created_at: now, updated_at: now }
    }

    /// The task as `author` leaves it by setting its done flag to `is_done` at
    /// time `now`.
    pub open spec fn updated(self, is_done: bool, author: Pubkey, now: int) -> TaskView {
        TaskView { author, is_done, updated_at: now, ..self }
    }

    /// The task as `author` leaves it by marking it done at time `now`.
    pub open spec fn marked_done(self, author: Pubkey, now: int) -> TaskView {
        TaskView { author, is_done: true, updated_at: now, ..self }
    }

    /// The bytes that the task occupies when it is stored.
    pub open spec fn stored_len(self) -> nat {
        DISCRIMINATOR as nat + PUBLIC_KEY_LENGTH as nat + BOOL_LENGTH as nat + text_region(
            self.text,
        ) + TIMESTAMP_LENGTH as nat + TIMESTAMP_LENGTH as nat
    }
}

impl Clone for Task {
    /// A copy that is equal in every field.
    fn clone(&self) -> (copy: Task)
        ensures
            copy == *self,
    {
        Task {
            author: self.author,
            is_done: self.is_done,
            text: self.text.clone(),
            created_at: self.created_at,
            updated_at: self.updated_at,
        }
    }
}

impl Task {
    /// The bytes to reserve for a task account. It is one number for all
    /// tasks, whatever their text.
    pub const LEN: usize = DISCRIMINATOR + PUBLIC_KEY_LENGTH + BOOL_LENGTH + TEXT_LENGTH
        + TIMESTAMP_LENGTH + TIMESTAMP_LENGTH;
}

/// Every task whose text is within the limit fits the bytes reserved for a
/// task account, however many bytes its characters take.
pub proof fn lemma_task_fits(task: TaskView)
    requires
        task.text.len() <= MAX_TEXT_CHARS,
    ensures
        task.stored_len() <= Task::LEN,
{
    lemma_text_fits(task.text);
}

} // verus!
