[package]
name = "nano_runtime"
version = "0.1.0"
edition = "2021"
publish = false

[dependencies]
dashmap = "=6.2.1"
tar = "=0.4.46"
serde_json = "=1.0.154"
sha2 = "=0.11.1"
sha1 = "=0.11.0"
md-5 = "=0.11.0"
hmac = "=0.13.0"
pbkdf2 = "=0.13.0"
scrypt = { version = "=0.12.0", default-features = false }
hkdf = "=0.13.0"
aes = "=0.9.4"
aes-gcm = "=0.11.1"
cbc = { version = "=0.2.1", features = ["alloc"] }
ctr = "=0.10.1"
getrandom = "=0.4.3"
rand = "=0.10.3"
p256 = { version = "=0.14.0", features = ["ecdsa", "ecdh"] }
p384 = { version = "=0.14.0", features = ["ecdsa", "ecdh"] }
signature = "=3.0.0"
flate2 = "=1.1.10"
brotli = "=9.1.1"
base64 = "=0.23.1"
url = "=2.5.8"
chrono = "=0.4.45"
ring = "=0.17.14"
tempfile = "=3.27.0"
walkdir = "=2.5.0"
anyhow = "=1.0.104"
