//! Short-form video assembly: caption timing and segmentation, subtitle
//! rendering, the speech synthesis fallback chain and the encoder command
//! lines, with every rule stated as a contract.

pub mod captions;
pub mod command;
pub mod composer;
pub mod decimal;
pub mod error;
pub mod probe;
pub mod request;
pub mod segment;
pub mod srt;
pub mod text;
pub mod timing;
pub mod video;
pub mod tts;
pub mod voices;
