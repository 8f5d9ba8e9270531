//! Typed, bounds-checked element streams over glTF accessor byte buffers.
//!
//! An accessor's elements are read from borrowed bytes through a [Meta]
//! layout: densely with [DenseData], or as a base view overlaid with
//! replacements with [SparseData], both behind the uniform [Data]. Elements are
//! converted by types implementing [Accessible], after checking that the type
//! matches the accessor's [ElementShape].
//!
//! [Meta]: data::Meta
//! [DenseData]: data::DenseData
//! [SparseData]: data::SparseData
//! [Data]: data::Data
//! [Accessible]: data::Accessible
//! [ElementShape]: shape::ElementShape
pub mod attributes;
pub mod data;
pub mod error;
pub mod shape;
