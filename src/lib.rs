//! Native backend of a desktop video tool: the decisions of its commands and
//! the supervision of an external transcoder, each stated as a contract.

mod job;
mod machine;
mod render;

pub use job::{
    check_input, collect, error_text, input_failure, next_step, on_probe, prepare, JobError, JobRequest,
    Launch, Probe, Step, DEADLINE_MS, MAX_FILE_BYTES, POLL_INTERVAL_MS,
};
pub use machine::{
    byte_text, greet, hex_upper, mac_reply, mac_text_of, protection_chrome, WindowChrome,
};
pub use render::{
    dec_digits, decimal, decimal_text, even_dimension, even_up, lemma_decimal_injective,
    lemma_even_up, lemma_scratch_paths_distinct, scale_expr, scale_filter, scratch_file,
    scratch_path, transcode_args, transcode_arguments,
};
