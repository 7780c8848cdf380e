[package]
name = "rc_ctl"
version = "0.1.0"
edition = "2021"
publish = false

[dependencies]
cortex-m = { version = "=0.7.10", features = ["critical-section-single-core"] }
cortex-m-rt = "=0.7.7"
defmt = "=0.3.101"
defmt-rtt = "=0.4.2"
panic-probe = { version = "=0.3.2", features = ["print-defmt"] }
embassy-executor = { version = "=0.7.0", features = ["arch-spin", "executor-thread", "defmt"] }
embassy-stm32 = { version = "=0.2.0", features = ["defmt", "stm32f401cc", "time-driver-any", "memory-x", "exti"] }
embassy-sync = { version = "=0.6.2", features = ["defmt"] }
embassy-time = { version = "=0.4.0", features = ["defmt"] }
embedded-io = "=0.6.1"
static_cell = "=2.1.1"
nmea = { version = "=0.7.0", default-features = false, features = ["all-sentences"] }
toml-cfg = "=0.2.0"
