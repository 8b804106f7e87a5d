use vstd::prelude::*;

pub mod text;
pub mod xcode;
pub mod gradle;
pub mod daemon;
pub mod keymap;
pub mod navigation;
pub mod network;
pub mod frames;
pub mod device_view;
pub mod session_view;
pub mod layout;
pub mod launch;
pub mod cli;
pub mod devtools;
pub mod widget_tree;
