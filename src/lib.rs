//! Builds the command line that runs a program through Mod Organizer 2's
//! `ModOrganizer.exe run` entry point, as one display string and as a list of
//! process arguments.

mod command;
mod laws;
mod quoting;

pub use command::{
    args_flag, escaped_args_of, head_of, process_args_of, rendered, run_word, with_arg, with_args,
    with_each_arg, CommandView, MO2Command,
};
pub use quoting::{escape_for_mo2_args, escaped, join_args, joined, quote_path, quoted, texts};
pub use laws::{
    lemma_arg_goes_last, lemma_batch_is_each_in_turn, lemma_escaped_concat, lemma_joined_concat,
    lemma_no_arguments, lemma_order_kept, lemma_process_args_idempotent, lemma_render_idempotent,
    lemma_with_arguments,
};
