//! Control and protocol logic of a CAN-bus bootloader for the S32K family.

pub mod bootloader;
pub mod can;
pub mod controller;
pub mod flash;
pub mod frame;
pub mod hal;
pub mod memory;
pub mod memory_window;
pub mod protocol;
pub mod reg;
pub mod s32k118;
pub mod state;
pub mod utils;
pub mod validator;
