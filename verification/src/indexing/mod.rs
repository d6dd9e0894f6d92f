//! Keeping worktrees indexed: which tasks run, and what each of them does.

pub mod supervisor;
pub mod worktree_task;
