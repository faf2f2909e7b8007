pub mod archive;
pub mod console;
pub mod control;
pub mod laws;
pub mod pointer;
pub mod session;
pub mod watcher;
pub mod window;
