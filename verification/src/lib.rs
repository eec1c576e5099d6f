//! Geometry and state core of an interactive image-cropping tool.
//!
//! A crop region is a rectangle in normalized image space, held in exact
//! fixed-point units so that every operation on it — clamping to the image,
//! translating, resizing by one of eight handles, locking to an aspect
//! ratio — is a total, verified function. Decoding, display and file
//! dialogs live outside this crate and talk to it through plain values.

pub mod aspect;
pub mod export;
pub mod geom;
pub mod handle;
pub mod session;
pub mod solver;
