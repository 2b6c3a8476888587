//! Typed font descriptors for a Roblox-style document model.
//!
//! A [`font::FontDescriptor`] names a font by family, weight and style. Legacy font
//! names resolve to descriptors through a fixed table ([`catalog`]), and
//! descriptors convert to and from the document model's own font type
//! ([`external`]). The [`release`] module holds the selection rules of the
//! release client that ships beside the font types.

pub mod catalog;
pub mod error;
pub mod external;
pub mod family;
pub mod font;
pub mod release;
pub mod style;
pub mod text;
pub mod weight;
