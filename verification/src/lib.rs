//! Signature analysis and adapter synthesis for functions that are exported
//! to a scripting engine: the export options of a function are validated, the
//! function's signature is held against what the boundary can pass, and the
//! adapter that unpacks the engine's arguments is planned and written out.

pub mod adapter;
pub mod emit;
pub mod error;
pub mod function;
pub mod params;
pub mod search;
pub mod signature;
pub mod span;
pub mod text;
