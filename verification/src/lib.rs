//! Verified core of a live-captioning application: model catalogues,
//! caption state, audio framing and greedy translation decoding.
use vstd::prelude::*;

pub mod text;
pub mod whisper_models;
pub mod translate_models;
pub mod cloud;
pub mod catalog;
pub mod captions;
pub mod audio;
pub mod translation;
pub mod clock;
pub mod json;
pub mod shell;

verus! {

} // verus!
