[package]
name = "imago_file"
version = "0.1.0"
edition = "2021"
publish = false

[dependencies]
cfg-if = "1"
libc = "0.2"
nix = { version = "0.30", features = ["ioctl"] }
page_size = "0.6"
tracing = "0.1"
windows-sys = { version = "0.61", features = ["Win32_Foundation", "Win32_Storage_FileSystem", "Win32_System_IO", "Win32_System_Ioctl"] }
