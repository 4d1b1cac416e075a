use vstd::prelude::*;

pub mod basic_mount;
pub mod bootloader;
pub mod command;
pub mod config;
pub mod disk;
pub mod encryption;
pub mod filesystem;
pub mod hardware;
pub mod installer;
pub mod mount;
pub mod init;
pub mod kernel;
pub mod locale;
pub mod network;
pub mod partition;
pub mod platform;
pub mod profile;
pub mod recovery;
pub mod rootfs;
pub mod security;
pub mod text;
pub mod ui;
pub mod users;
pub mod verify;

verus! {

} // verus!
