[package]
name = "netsys"
version = "0.1.0"
edition = "2021"
publish = false

[dependencies]
axerrno = "=0.2.2"
axhal = "=0.2.2-preview.6"
axnet = "=0.2.2-preview.1"
axpoll = "=0.1.2"
axsync = "=0.2.2-preview.1"
axtask = "=0.2.2-preview.3"
linux-raw-sys = { version = "=0.12.1", default-features = false, features = ["general", "net", "no_std"] }
