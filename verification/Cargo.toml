[package]
name = "iracingsdk"
version = "0.1.0"
edition = "2021"
publish = false

[dependencies]
winapi = { version = "0.3", features = ["minwindef", "errhandlingapi", "handleapi", "memoryapi", "synchapi", "winbase", "winnt"] }
