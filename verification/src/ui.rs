pub mod branch_list;
pub mod commit_list;
pub mod execution;
pub mod conflict_pause;
pub mod help;
pub mod theme;
pub mod run;
