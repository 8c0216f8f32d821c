//! The frame logic of a VR compositor that serves the OpenVR compositor interface on top of an
//! OpenXR session.
//!
//! The library decides; the host acts. A call of the interface changes the state of the
//! [`compositor::Compositor`] and yields the list of [`action::Action`]s that the host performs, in
//! order, on the OpenXR runtime and on the graphics backend. Where an action has an answer, the
//! host hands it back through the method that the action names.

pub mod action;
pub mod call_laws;
pub mod compositor;
pub mod controller;
pub mod frame_state;
pub mod history;
pub mod interface;
pub mod laws;
pub mod numbers;
pub mod poses;
pub mod projection;
pub mod runtime;
pub mod session;
pub mod skybox;
pub mod submit;
pub mod swapchain;
pub mod texture;
pub mod timing;
pub mod value_laws;
pub mod vulkan;
