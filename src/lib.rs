//! Measurements tagged with a unit and an SI prefix: the prefix algebra, the
//! unit markers, the choice of a readable prefix and the label formats.

pub mod label;
pub mod nice;
pub mod prefix;
pub mod uom;
