[package]
name = "space_eye"
version = "0.1.0"
edition = "2021"
publish = false

[dependencies]
clap = "3"
directories = "4"
cocoa = "0.24"
objc = "0.2"
