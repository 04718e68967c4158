//! Native host of a note-taking desktop application: the greeting command
//! exposed to the front end, the data-directory report of the setup hook,
//! and the plan by which the application host is assembled and launched.

mod greeting;
mod setup;
mod startup;

pub use greeting::{greet, greeting_of, lemma_greeting_keeps_name};
pub use setup::{check, data_dir_line};
pub use startup::{
    abort_message, launch_outcome, startup_plan, startup_steps, Launch, Plugin, Step,
    LOCALHOST_PORT,
};
