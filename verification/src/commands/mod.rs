//! Command buffers: their levels, usage, bind points, copies and barriers.

pub mod command_buffers;
