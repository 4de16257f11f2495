//! Scaffolding of new project folders: names and specifications of the
//! projects, the files they start with, the command lines that set them up,
//! shell integration blocks, and the terminal theme of the output.
use vstd::prelude::*;

pub mod error;
pub mod names;
pub mod text;
pub mod shell;
pub mod theme;
pub mod background;
pub mod templates;
pub mod process;
pub mod cli;
pub mod messages;
pub mod project;
