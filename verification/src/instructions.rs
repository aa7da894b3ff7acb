//! The three instructions and the accounts each of them is handed.
//!
//! The host resolves the accounts that an instruction names, reads the clock
//! and calls the instruction. The instruction either changes the task account
//! and returns `Ok`, or returns an error and changes nothing.

use crate::error::ErrorCode;
use crate::identity::same_key;
use crate::layout::MAX_TEXT_CHARS;
use crate::task::{lemma_task_fits, Task, TaskView};
use anchor_lang::prelude::Pubkey;
use vstd::prelude::*;
use vstd::string::StrSliceExecFns;

verus! {

/// The accounts of [`adding_task`].
pub struct AddingTask {
    /// The account that was allocated for the new task, with room for
    /// [`Task::LEN`] bytes.
    pub task: Task,
    /// The signer, who pays for the account and becomes the task's author.
    pub author: Pubkey,
}

/// The accounts of [`updating_task`].
pub struct UpdatingTask {
    /// The task to change.
    pub task: Task,
    /// The signer.
    pub author: Pubkey,
}

/// The accounts of [`deleting_task`].
pub struct DeletingTask {
    /// The task to mark as done.
    pub task: Task,
    /// The signer.
    pub author: Pubkey,
}

impl UpdatingTask {
    /// The signer is the task's author.
    pub open spec fn has_one_author(&self) -> bool {
        self.task.author == self.author
    }
}

impl DeletingTask {
    /// The signer is the task's author.
    pub open spec fn has_one_author(&self) -> bool {
        self.task.author == self.author
    }
}

/// Creates a task: writes `text` into the task account, with the signer as
/// author, not done, created and last changed at `now`.
///
/// A text of more than [`MAX_TEXT_CHARS`] characters is rejected with
/// [`ErrorCode::TextTooLong`].
pub fn adding_task(ctx: &mut AddingTask, text: String, now: i64) -> (res: Result<(), ErrorCode>)
    ensures
        text@.len() <= MAX_TEXT_CHARS ==> res is Ok,
        text@.len() > MAX_TEXT_CHARS ==> res == Err::<(), ErrorCode>(ErrorCode::TextTooLong),
        res is Ok ==> final(ctx).task@ == TaskView::created(text@, old(ctx).author, now as int),
        res is Ok ==> final(ctx).task.text@ == text@,
        res is Ok ==> final(ctx).task.author == final(ctx).author,
        res is Ok ==> final(ctx).task.created_at == final(ctx).task.updated_at,
        res is Ok ==> final(ctx).task@.wf(),
        res is Ok ==> final(ctx).task@.stored_len() <= Task::LEN,
        res is Ok ==> final(ctx).author == old(ctx).author,
        res is Err ==> *final(ctx) == *old(ctx),
{
    if text.as_str().unicode_len() > MAX_TEXT_CHARS {
        return Err(ErrorCode::TextTooLong);
    }
    proof {
        lemma_task_fits(TaskView::created(text@, ctx.author, now as int));
    }
    ctx.task.author = ctx.author;
    ctx.task.is_done = false;
    ctx.task.created_at = now;
    ctx.task.updated_at = now;
    ctx.task.text = text;
    Ok(())
}

/// Sets the done flag of a task to `is_done`, which may be `false` for a task
/// that is done, and stamps the task with the signer and with `now`. The text
/// and the time of creation stay.
///
/// A signer who is not the task's author is rejected with
/// [`ErrorCode::AuthorizationMismatch`].
pub fn updating_task(ctx: &mut UpdatingTask, is_done: bool, now: i64) -> (res: Result<
    (),
    ErrorCode,
>)
    ensures
        old(ctx).has_one_author() ==> res is Ok,
        !old(ctx).has_one_author() ==> res == Err::<(), ErrorCode>(
            ErrorCode::AuthorizationMismatch,
        ),
        res is Ok ==> final(ctx).task@ == old(ctx).task@.updated(
            is_done,
            old(ctx).author,
            now as int,
        ),
        res is Ok ==> final(ctx).task.author == final(ctx).author,
        res is Ok ==> final(ctx).task.text@ == old(ctx).task.text@,
        res is Ok ==> final(ctx).task@.stored_len() == old(ctx).task@.stored_len(),
        res is Ok ==> final(ctx).task.created_at == old(ctx).task.created_at,
        res is Ok && old(ctx).task.updated_at <= now
            ==> old(ctx).task.updated_at <= final(ctx).task.updated_at,
        res is Ok && old(ctx).task@.wf() && old(ctx).task.created_at <= now
            ==> final(ctx).task@.wf(),
        res is Ok ==> final(ctx).author == old(ctx).author,
        res is Err ==> *final(ctx) == *old(ctx),
{
    if !same_key(&ctx.task.author, &ctx.author) {
        return Err(ErrorCode::AuthorizationMismatch);
    }
    ctx.task.author = ctx.author;
    ctx.task.is_done = is_done;
    ctx.task.updated_at = now;
    Ok(())
}

/// Marks a task as done, which is how a task is deleted, and stamps it with
/// the signer and with `now`. The text and the time of creation stay.
///
/// A signer who is not the task's author is rejected with
/// [`ErrorCode::AuthorizationMismatch`].
pub fn deleting_task(ctx: &mut DeletingTask, now: i64) -> (res: Result<(), ErrorCode>)
    ensures
        old(ctx).has_one_author() ==> res is Ok,
        !old(ctx).has_one_author() ==> res == Err::<(), ErrorCode>(
            ErrorCode::AuthorizationMismatch,
        ),
        res is Ok ==> final(ctx).task@ == old(ctx).task@.marked_done(old(ctx).author, now as int),
        res is Ok ==> final(ctx).task.author == final(ctx).author,
        res is Ok ==> final(ctx).task.text@ == old(ctx).task.text@,
        res is Ok ==> final(ctx).task@.stored_len() == old(ctx).task@.stored_len(),
        res is Ok ==> final(ctx).task.created_at == old(ctx).task.created_at,
        res is Ok && old(ctx).task.updated_at <= now
            ==> old(ctx).task.updated_at <= final(ctx).task.updated_at,
        res is Ok && old(ctx).task@.wf() && old(ctx).task.created_at <= now
            ==> final(ctx).task@.wf(),
        res is Ok ==> final(ctx).author == old(ctx).author,
        res is Err ==> *final(ctx) == *old(ctx),
{
    if !same_key(&ctx.task.author, &ctx.author) {
        return Err(ErrorCode::AuthorizationMismatch);
    }
    ctx.task.author = ctx.author;
    ctx.task.is_done = true;
    ctx.task.updated_at = now;
    Ok(())
}

/// Marking a task as done is updating it with the done flag set: handed the
/// same task, the same signer and the same time, the two instructions are
/// rejected together, and where they are not they leave the same task.
pub proof fn lemma_deleting_is_updating_to_done(
    deleting: DeletingTask,
    updating: UpdatingTask,
    now: int,
)
    requires
        deleting.task@ == updating.task@,
        deleting.author == updating.author,
    ensures
        deleting.has_one_author() == updating.has_one_author(),
        deleting.task@.marked_done(deleting.author, now) == updating.task@.updated(
            true,
            updating.author,
            now,
        ),
{
}

} // verus!
