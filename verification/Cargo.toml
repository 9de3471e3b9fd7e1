[package]
name = "drivelist"
version = "0.1.0"
edition = "2021"
publish = false

[dependencies]
anyhow = "1"
plist = "1"
serde = { version = "1", features = ["derive"] }
winapi = { version = "0.3", features = ["cfgmgr32", "errhandlingapi", "fileapi", "handleapi", "ioapiset", "minwindef", "processenv", "setupapi", "winbase", "winerror", "winioctl", "winnt"] }
