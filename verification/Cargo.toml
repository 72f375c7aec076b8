[package]
name = "openblt"
version = "0.1.0"
edition = "2021"
publish = false

[dependencies]
embedded-can = "0.4"
nb = "1"
cortex-m = "0.7"
cortex-m-rt = "0.7"
vcell = "0.1"
volatile-register = "0.2"
bitflags = "1.3"
thiserror = "1"
log = "0.4"
