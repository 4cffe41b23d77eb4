//! A verified library of systems-programming lessons: block-device mocks
//! with a logger over them, a small mock filesystem, drawable rectangles,
//! ring cursors, a player state machine, and the many small functions the
//! lessons exercise.  Every function carries its contract; what needs
//! floating point, an executor or a console lives outside the library.

pub mod acc;
pub mod digits;
pub mod dispatch;
pub mod fs;
pub mod funcs;
pub mod generics;
pub mod heater;
pub mod impl_dyn;
pub mod macro_forms;
pub mod ownership;
pub mod patterns;
pub mod person;
pub mod player;
pub mod rectangle;
pub mod ring;
pub mod ring_generic;
pub mod ring_items;
pub mod rotary;
pub mod scape;
pub mod spi;
pub mod storage;
pub mod strutil;
pub mod sublist;
pub mod system;
pub mod texts;
pub mod wifi;
