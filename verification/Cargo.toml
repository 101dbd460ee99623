[package]
name = "darksouls3"
version = "0.1.0"
edition = "2021"
publish = false

[dependencies]
bitfield = "=0.20.0"
bitflags = "=2.13.2"
from-singleton = "=3.0.1"
ilhook = "=2.3.0"
pelite = "=0.10.0"
thiserror = "=2.0.21"
vtable-rs = "=0.1.5"
windows = { version = "=0.58.0", features = ["Win32_Foundation", "Win32_Security", "Win32_System_Kernel", "Win32_System_LibraryLoader", "Win32_System_Threading"] }
