[package]
name = "androidsink"
version = "0.1.0"
edition = "2021"
publish = false

[dependencies]
jni = "*"
dlopen = "*"
libc = "*"
