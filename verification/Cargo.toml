[package]
name = "syscall_trace"
version = "0.1.0"
edition = "2021"
publish = false

[dependencies]
byteorder = "*"
libc = "*"
linux-personality = "*"
nix = { version = "*", features = ["ptrace", "process", "signal"] }
