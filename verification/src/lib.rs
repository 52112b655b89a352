//! Verified core of a pipeline filter that hands a command's output to a
//! language model and prints what the model kept, falling back to the
//! unchanged input whenever the model cannot answer.

pub mod cli;
pub mod decimal;
pub mod llm;
pub mod pipeline;
pub mod runlog;
pub mod tee;
