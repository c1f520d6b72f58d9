//! Verified core of a screen recorder and video editor that drives ffmpeg:
//! the command lines it runs, the order of its steps and the answers it
//! gives, and the parsing of what the tools print back.
pub mod text;
pub mod edit;
pub mod progress;
pub mod recording;
pub mod merge;
pub mod stop;
pub mod audio;
