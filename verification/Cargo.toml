[package]
name = "electron-audio-native"
version = "0.1.0"
edition = "2021"
publish = false

[dependencies]
cpal = "0.15"
symphonia = "0.5"
once_cell = "1"
napi = "2"
napi-derive = "2"
