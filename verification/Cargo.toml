[package]
name = "grand_slam"
version = "0.1.0"
edition = "2021"
publish = false

[dependencies]
aes = "0.8"
apple-codesign = { version = "0.29", default-features = false }
base64 = "0.22"
cbc = { version = "0.1", features = ["alloc", "block-padding"] }
clap = { version = "4", features = ["derive"] }
hex = "0.4"
hmac = "0.12"
pbkdf2 = "0.12"
pem = "3"
pem-rfc7468 = { version = "0.7", features = ["alloc"] }
plist = "1"
rand = "0.8"
rcgen = "0.12"
regex = "1"
reqwest = { version = "0.12", default-features = false, features = ["json", "rustls-tls"] }
rsa = "0.9"
serde = { version = "1", features = ["derive"] }
serde_json = "1"
sha1 = "0.10"
sha2 = "0.10"
srp = "0.6"
thiserror = "1"
tokio = { version = "1", features = ["rt-multi-thread", "macros"] }
uuid = { version = "1", features = ["v4"] }
x509-certificate = "0.24"
