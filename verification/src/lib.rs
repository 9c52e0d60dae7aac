//! The game logic of a small terminal toy: a cursor that flies around the
//! screen, an emblem that can be provoked into chasing it, a guided tutorial
//! and an animated about box. Everything here is plain state and arithmetic;
//! drawing and terminal input live with the caller.
pub mod geometry;
pub mod tint;
pub mod cursor;
pub mod input;
pub mod text;
pub mod tutorial;
pub mod menu;
pub mod layout;
pub mod emblem;
pub mod chase;
pub mod game;
pub mod laws;
