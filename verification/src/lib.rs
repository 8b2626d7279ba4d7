//! Mesh preparation and input handling for an STL viewer.
//!
//! A binary STL file is decoded into triangles whose corners are kept as the
//! raw bit patterns of their coordinates; the corners are then merged into an
//! indexed mesh (each distinct vertex stored once, triangles referring to it by
//! index). The window and mouse events of the viewer are decided by a small
//! state machine.
pub mod input;
pub mod mesh;
pub mod stl_format;
