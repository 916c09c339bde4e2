//! A terminal text editor's core: grapheme-aware lines, a document buffer,
//! and a scrolling view with a caret and incremental search.

pub mod buffer;
pub mod command;
pub mod document;
pub mod documentstatus;
pub mod editor;
pub mod line;
pub mod location;
pub mod messagebar;
pub mod position;
pub mod searchinfo;
pub mod size;
pub mod statusbar;
pub mod text;
pub mod uicomponent;
pub mod unicode;
pub mod view;
pub mod viewstate;
