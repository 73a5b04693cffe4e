//! Capture what is written to the process's output or error stream while a
//! unit of work runs, and restore the stream afterwards.
mod capture;
mod lemmas;
mod memory;
mod stdio;

pub use capture::{
    LentFile, SwapFile, cap_stderr, cap_stdout, cap_string, capture, captured, captured_part, drain, ended, ended_part,
    failed_early, fresh, puts, text_captured,
    stderr_mut, stdout_mut, utf8_text,
};
pub use lemmas::{
    after_writes, can_capture, capturing, joined, lemma_capture_is_concatenation,
    lemma_end_closes_once, lemma_streams_independent, lemma_text_is_joined_writes,
};
pub use memory::{MAX_HANDLES, MemStdio};
pub use stdio::{
    CaptureError, LeaseState, LockPoisoned, PipeEnds, StdioState, Stdio, StreamName, StreamObj,
};
