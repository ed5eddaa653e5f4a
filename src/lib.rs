// A terminal pomodoro timer: the key actions, the countdown with pause and
// drift correction, the session's work/break cycle, and the text it shows.
pub mod key_handler;
pub mod session;
pub mod timer;
pub mod view;
