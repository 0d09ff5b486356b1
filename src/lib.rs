use vstd::prelude::*;

pub mod bytestring;
pub mod channels;
pub mod data;
pub mod error;
pub mod fields;
pub mod format;
pub mod header;
pub mod marker;
pub mod orientation;
pub mod pattern;
pub mod recording;
pub mod scale;
pub mod text;
pub mod timecode;
pub mod validator;

verus! {

} // verus!
