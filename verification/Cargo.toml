[package]
name = "nab"
version = "0.1.0"
edition = "2021"
publish = false

[dependencies]
byteorder = "=1.5.0"
clap = { version = "4", features = ["derive"] }
cpal = "0.15"
crossterm = "0.28"
ratatui = "0.29"
ringbuf = "0.3"
rubato = "0.15"
tokio = { version = "1", features = ["rt-multi-thread", "macros", "time", "signal", "sync"] }
libc = "0.2"
