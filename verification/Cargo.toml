[package]
name = "mioco"
version = "0.1.0"
edition = "2021"
publish = false

[dependencies]
mio = "=0.5.1"
slab = "=0.1.3"
spin = "0.9"
num_cpus = "=1.17.0"
context = "=2.1.0"
thread-scoped = "=1.0.2"
log = "=0.3.9"
