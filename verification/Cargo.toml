[package]
name = "vhost-device-ssr"
version = "0.1.0"
edition = "2021"
publish = false

[dependencies]
clap = { version = "=4.6.7", features = ["derive"] }
env_logger = "=0.11.11"
log = "=0.4.35"
sd-notify = "=0.4.5"
thiserror = "=1.0.69"
vhost = { version = "=0.11.0", features = ["vhost-user-backend"] }
vhost-user-backend = "=0.15.0"
virtio-bindings = "=0.2.7"
virtio-queue = "=0.12.0"
vm-memory = { version = "=0.14.1", features = ["backend-mmap", "backend-atomic"] }
vmm-sys-util = "=0.12.1"

[dev-dependencies]
virtio-queue = { version = "=0.12.0", features = ["test-utils"] }
