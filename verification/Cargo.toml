[package]
name = "hyper"
version = "0.1.0"
edition = "2021"
publish = false

[dependencies]
log = "=0.3.9"
mio = "=0.5.1"
openssl = "=0.7.14"
rotor = "=0.6.3"
url = "=0.5.0"
vecio = "=0.1.0"
