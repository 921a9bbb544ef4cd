[package]
name = "sel4_platform"
version = "0.1.0"
edition = "2021"
publish = false

[dependencies]
axplat = { version = "*", features = ["irq"] }
axcpu = "*"
aarch64-cpu = "*"
arm_pl011 = "*"
int_ratio = "*"
kspin = "*"
lazyinit = "*"
log = "*"
memory_addr = "*"
num_enum = { version = "*", default-features = false }
