[package]
name = "sysmon"
version = "0.1.0"
edition = "2021"
publish = false

[dependencies]
nvml-wrapper = "=0.13.0"
adlx = "=0.0.0-alpha.1"
crossterm = "=0.29.0"
chrono = "=0.4.45"
anyhow = "=1.0.104"
ctrlc = "=3.5.2"
windows = { version = "=0.58.0", features = ["Win32_Foundation", "Win32_System_SystemInformation", "Win32_System_Threading"] }
