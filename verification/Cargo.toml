[package]
name = "arp_resolve"
version = "0.1.0"
edition = "2021"
publish = false

[dependencies]
libc = "0.2"
macaddr = "1.0"
os_socketaddr = "0.2"
tokio = { version = "1", features = ["macros", "net", "rt-multi-thread"] }
