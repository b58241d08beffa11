//! Backend of the desktop application: the update commands that its
//! front end invokes, and the capabilities that its runtime attaches at
//! startup.

pub mod commands;
pub mod plugins;
