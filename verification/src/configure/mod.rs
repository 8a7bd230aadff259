//! What is configured on the target.
pub mod boot_laws;
pub mod boot_texts;
pub mod bootloader;
pub mod display_manager;
pub mod encryption;
pub mod gamescope_update;
pub mod gaming;
pub mod gocryptfs;
pub mod greetd;
pub mod grub_btrfs;
pub mod handheld_quirks;
pub mod hook_texts;
pub mod hooks;
pub mod keyfiles;
pub mod locale;
pub mod mkinitcpio;
pub mod network;
pub mod package_laws;
pub mod package_texts;
pub mod packages;
pub mod pacman;
pub mod recovery;
pub mod secureboot;
pub mod services;
pub mod session_laws;
pub mod upkeep_laws;
