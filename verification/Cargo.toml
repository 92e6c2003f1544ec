[package]
name = "tuitar"
version = "0.1.0"
edition = "2021"
publish = false

[dependencies]
cpal = "=0.18.2"
fastrand = "=2.5.0"
microfft = "=0.6.0"
num-complex = "=0.4.6"
pitchy = "=0.1.2"
ratatui = "=0.30.2"
