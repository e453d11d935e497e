[package]
name = "vhost_user_net"
version = "0.1.0"
edition = "2021"
publish = false

[dependencies]
vhost = { version = "=0.17.0", features = ["vhost-user-frontend"] }
vmm-sys-util = "=0.15.0"
libc = "=0.2.190"
