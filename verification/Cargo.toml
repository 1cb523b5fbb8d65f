[package]
name = "ums"
version = "0.1.0"
edition = "2021"
publish = false

[dependencies]
scopeguard = "1"
winapi = { version = "0.3", features = ["basetsd", "errhandlingapi", "handleapi", "minwindef", "ntdef", "processthreadsapi", "synchapi", "sysinfoapi", "winbase", "winerror", "winnt"] }
