//! A procedurally generated city: a grid of tiles laid out in square blocks,
//! the border crossings through which cars enter it, and the cars themselves.

pub mod car;
pub mod city;
pub mod classify;
pub mod entry;
pub mod grid;
pub mod layout;
pub mod paint;
pub mod position;
pub mod render;
pub mod simulation;
pub mod target;
pub mod tile;
