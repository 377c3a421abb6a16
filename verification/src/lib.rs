//! Bridge between host objects and an external object model that speaks a
//! C-compatible reflection interface: typed signal/slot declarations are
//! turned into fixed-layout descriptor tables, values cross the boundary as
//! tagged dynamic values, and slot invocations are routed by name with arity
//! and kind checking.

pub mod marshal;
pub mod qmeta;
pub mod qobject;
pub mod registry;
