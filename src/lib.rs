//! Conversion of a cem model into a COLLADA document: the integer and text
//! logic of the exporter, with contracts proved by Verus.

pub mod decimal;
pub mod geometry;
pub mod light;
pub mod mesh;
pub mod morph;
pub mod scene;
