//! An interactive two-pane terminal toolbox: a list of small utilities on
//! the left, the mounted tool on the right.  This crate holds the verified
//! core: the focus and selection state machine, the message-routing
//! protocol with its bounded trampoline, the scrollable viewport with its
//! half-row scrollbar arithmetic, the help-line composer, and the state of
//! every tool page.  The terminal front end around it only paints what
//! these modules compute.

pub mod app;
pub mod key;
pub mod msg;
pub mod numfmt;
pub mod pages;
pub mod panes;
pub mod strutil;
pub mod textbuf;
pub mod util;
pub mod widget;
