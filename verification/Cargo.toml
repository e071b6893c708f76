[package]
name = "stage_core"
version = "0.1.0"
edition = "2021"
publish = false

[dependencies]
crossbeam-deque = "=0.8.8"
parking_lot = "=0.12.5"
proc-macro2 = "=1.0.107"
quote = "=1.0.47"
syn = { version = "=2.0.119", features = ["full", "visit-mut", "extra-traits"] }
tokio = { version = "=1.54.1", features = ["rt-multi-thread", "sync", "time"] }
