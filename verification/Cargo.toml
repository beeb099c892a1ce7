[package]
name = "embclox"
version = "0.1.0"
edition = "2021"
publish = false

[dependencies]
log = "=0.4.35"
x86_64 = { version = "=0.15.5", default-features = false, features = ["instructions"] }
spin = "=0.12.3"
uart_16550 = "=0.9.0"
embassy-net-driver = "=0.2.0"
embassy-sync = "=0.8.0"
embassy-time = "=0.5.1"
embassy-time-driver = "=0.2.2"
embassy-futures = "=0.1.2"
critical-section = "=1.2.0"
static_cell = "=2.1.1"
heapless = "=0.9.3"
embassy-executor = "*"
linked_list_allocator = { version = "*", default-features = false }
bootloader_api = "*"
