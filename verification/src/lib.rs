//! Implicit-function solid modeling: shapes as signed distance fields, and
//! FieldCalc, a small functional language for describing them.

pub mod csg;
pub mod evaluator;
pub mod lang;
pub mod primitives;
pub mod text;
pub mod transform;
pub mod vector;
pub mod viewer;

pub use glam::{Mat3, Mat4, Vec2, Vec3};
