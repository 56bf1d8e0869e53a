//! Native forms of a process title, and the slot that keeps the handle
//! naming the current title alive.
//!
//! Each operating system names a process in its own way. This library computes,
//! with proofs, exactly what is handed to each native facility: a
//! null-terminated byte string on BSD, a thread name cut to fifteen bytes on
//! Linux, and a wide string cut to 1024 units on Windows, where a single-slot
//! register also keeps exactly one named event handle alive at a time.

mod console_title;
mod handle_slot;
mod native_string;
mod thread_name;

pub use console_title::{console_title, console_title_of, CONSOLE_TITLE_MAX_UNITS};
pub use handle_slot::{
    held_after, lemma_each_handle_released_once, live_handles, must_release, released_by,
    HandleSlot,
};
pub use native_string::{contains_nul, native_string, terminated};
pub use thread_name::{thread_name, thread_name_of, THREAD_NAME_BUF_LEN, THREAD_NAME_MAX_LEN};
