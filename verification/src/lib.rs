//! Host-side planning for an offline N-body renderer.
//!
//! A run advances a set of bodies on a compute accelerator and writes one
//! still image per step. Everything the host has to get right for that is
//! arithmetic and ordering: how many bodies a generator lays out, how large
//! each device buffer is, how many workgroups cover the bodies, in which
//! order the commands of a step and of a frame are recorded, how the padded
//! rows of a staging buffer become a dense pixel buffer, and what the frame's
//! file is called. This crate holds those rules as verified functions on
//! plain values; the code that talks to the device executes what they return.

pub mod layout;
pub mod extract;
pub mod galaxy;
pub mod naming;
pub mod resource;
pub mod sim;
pub mod render;
pub mod driver;
pub mod state;
