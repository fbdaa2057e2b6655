//! The texts that the walkthrough prints and writes.
use vstd::prelude::*;
use crate::decimal::{int_text, push_signed};

verus! {

/// What both processes print and write right after the fork: `fork_result`
/// is what the fork returned in the process, `parent_pid` the id of the
/// process that forked.
pub open spec fn common_text(fork_result: int, parent_pid: int) -> Seq<char> {
    "Common instructions. Child ("@ + int_text(fork_result) + ") and Parent ("@
        + int_text(parent_pid) + ") are both writing."@
}

/// The child's closing line.
pub open spec fn child_text(fork_result: int, counter: int) -> Seq<char> {
    "It's the child ("@ + int_text(fork_result) + "). X is: "@ + int_text(counter)
}

/// The parent's closing line, written once the child has been reaped.
pub open spec fn parent_text(fork_result: int, counter: int) -> Seq<char> {
    "It's the parent ("@ + int_text(fork_result) + "). X is: "@ + int_text(counter)
}

/// The first line printed: the id of the process that will fork.
pub open spec fn pid_text(parent_pid: int) -> Seq<char> {
    "Parent pid: "@ + int_text(parent_pid)
}

/// The descriptor as printed before the fork.
pub open spec fn fd_before_text(fd: int) -> Seq<char> {
    "File descriptor pre-fork: "@ + int_text(fd)
}

/// The line printed once, by the parent alone, just before the fork.
pub open spec fn still_parent_text() -> Seq<char> {
    "Still the parent"@
}

/// The descriptor as printed by each process after the fork.
pub open spec fn fd_after_text(fd: int) -> Seq<char> {
    "File descriptor post fork is: "@ + int_text(fd)
}

/// A line as it goes into the file: its text and a line break.
pub open spec fn record(line: Seq<char>) -> Seq<char> {
    line + "\n"@
}

/// The diagnostic given when the file cannot be opened.
pub open spec fn open_failed_text() -> Seq<char> {
    "It wasn't possible to open the file."@
}

/// The diagnostic given when no child can be spawned.
pub open spec fn fork_failed_text() -> Seq<char> {
    "It wasn't possible to spawn a child!"@
}

/// The diagnostic given when a write to `fd` reports `error`.
pub open spec fn write_failed_text(fd: int, error: int) -> Seq<char> {
    "Error writing "@ + int_text(fd) + ". Error: "@ + int_text(error)
}

/// The diagnostic given when waiting for the child fails.
pub open spec fn wait_failed_text() -> Seq<char> {
    "Failed to wait for a child."@
}

/// The diagnostic given when `fd` cannot be closed.
pub open spec fn close_failed_text(fd: int) -> Seq<char> {
    "Failed to close file-descriptor: "@ + int_text(fd)
}

/// The diagnostic given when a result arrives that answers no pending call.
pub open spec fn unexpected_text() -> Seq<char> {
    "Unexpected event."@
}

/// Builds [`common_text`].
pub fn common_line(fork_result: i32, parent_pid: u32) -> (r: String)
    ensures
        r@ == common_text(fork_result as int, parent_pid as int),
{
    let mut r = String::from_str("Common instructions. Child (");
    push_signed(&mut r, fork_result as i128);
    r.append(") and Parent (");
    push_signed(&mut r, parent_pid as i128);
    r.append(") are both writing.");
    assert(r@ =~= common_text(fork_result as int, parent_pid as int));
    r
}

/// Builds [`child_text`].
pub fn child_line(fork_result: i32, counter: i32) -> (r: String)
    ensures
        r@ == child_text(fork_result as int, counter as int),
{
    let mut r = String::from_str("It's the child (");
    push_signed(&mut r, fork_result as i128);
    r.append("). X is: ");
    push_signed(&mut r, counter as i128);
    assert(r@ =~= child_text(fork_result as int, counter as int));
    r
}

/// Builds [`parent_text`].
pub fn parent_line(fork_result: i32, counter: i32) -> (r: String)
    ensures
        r@ == parent_text(fork_result as int, counter as int),
{
    let mut r = String::from_str("It's the parent (");
    push_signed(&mut r, fork_result as i128);
    r.append("). X is: ");
    push_signed(&mut r, counter as i128);
    assert(r@ =~= parent_text(fork_result as int, counter as int));
    r
}

/// The text `prefix` followed by the decimal text of `value`.
fn labelled(prefix: &str, value: i128) -> (r: String)
    ensures
        r@ == prefix@ + int_text(value as int),
{
    let mut r = String::from_str(prefix);
    push_signed(&mut r, value);
    r
}

/// Builds [`pid_text`].
pub fn pid_line(parent_pid: u32) -> (r: String)
    ensures
        r@ == pid_text(parent_pid as int),
{
    labelled("Parent pid: ", parent_pid as i128)
}

/// Builds [`fd_before_text`].
pub fn fd_before_line(fd: i32) -> (r: String)
    ensures
        r@ == fd_before_text(fd as int),
{
    labelled("File descriptor pre-fork: ", fd as i128)
}

/// Builds [`fd_after_text`].
pub fn fd_after_line(fd: i32) -> (r: String)
    ensures
        r@ == fd_after_text(fd as int),
{
    labelled("File descriptor post fork is: ", fd as i128)
}

/// Builds [`still_parent_text`].
pub fn still_parent_line() -> (r: String)
    ensures
        r@ == still_parent_text(),
{
    String::from_str("Still the parent")
}

/// Builds [`record`] of `line`.
pub fn to_record(line: &String) -> (r: String)
    ensures
        r@ == record(line@),
{
    let mut r = line.clone();
    r.append("\n");
    r
}

/// Builds [`write_failed_text`].
pub fn write_failed_line(fd: i32, error: isize) -> (r: String)
    ensures
        r@ == write_failed_text(fd as int, error as int),
{
    let mut r = String::from_str("Error writing ");
    push_signed(&mut r, fd as i128);
    r.append(". Error: ");
    push_signed(&mut r, error as i128);
    assert(r@ =~= write_failed_text(fd as int, error as int));
    r
}

/// Builds [`close_failed_text`].
pub fn close_failed_line(fd: i32) -> (r: String)
    ensures
        r@ == close_failed_text(fd as int),
{
    labelled("Failed to close file-descriptor: ", fd as i128)
}

} // verus!
