//! Style resolution logic for a small family of presentational UI widgets
//! (avatar, badge, button, separator).
//!
//! Each widget maps enumerated style variants (size, variant, orientation) to
//! CSS class strings, and the avatar additionally owns a small display state
//! that reacts to image load and image error events. This crate holds that
//! logic with full contracts; the host rendering layer supplies props and
//! consumes the resolved strings.

pub mod avatar;
pub mod badge;
pub mod button;
pub mod separator;
pub mod text;
