//! The tree-building side of a page parser that runs on hubbub, an HTML parsing
//! library: which DOM nodes the calls of hubbub create, which style sheets,
//! scripts and frames these ask for, and how what is loaded is put back together.

pub mod attr;
pub mod css;
pub mod delivery;
pub mod dom;
pub mod element;
pub mod messages;
pub mod page;
pub mod script;
pub mod tags;
pub mod text;
pub mod trace;
pub mod tree;
pub mod url;
