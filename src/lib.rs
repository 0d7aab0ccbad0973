//! Music-library support: scanning a folder for audio tracks and driving the
//! provisioning and execution of the external playlist downloader.
pub mod android_handler;
pub mod scan;
pub mod spotdl;
pub mod text;
