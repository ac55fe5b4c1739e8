[package]
name = "monorail"
version = "0.1.0"
edition = "2021"
publish = false

[dependencies]
num_cpus = "=1.17.0"
slab = "=0.4.12"
slotmap = "=1.1.1"
heapless = "=0.8.0"
flume = "=0.11.1"
smol = "=2.0.2"
async-task = "=4.7.1"
asyncnal = "=0.3.1"
io-uring = "=0.7.15"
nix = { version = "=0.29.0", features = ["sched", "event", "socket", "poll", "fs"] }
lfqueue = "=0.8.1"
futures = "=0.3.34"
anyhow = "=1.0.104"
thiserror = "=2.0.21"
pin-project = "=1.1.13"
syn = { version = "=2.0.119", features = ["full"] }
quote = "=1.0.47"
proc-macro2 = "=1.0.107"
