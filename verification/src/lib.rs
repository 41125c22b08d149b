//! The verified core of a small OpenGL scene viewer: byte sizes of the data
//! sent to GPU buffers, the buffer layout of a mesh's vertex array object,
//! the set of held keys and the camera motion they ask for, and the decisions
//! of the window's event loop.

pub mod camera;
pub mod events;
pub mod keys;
pub mod layout;
pub mod vao;
