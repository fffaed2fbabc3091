[package]
name = "qt_bridge"
version = "0.1.0"
edition = "2021"
publish = false

[dependencies]
cxx = "=1.0.205"
cxx-qt-lib = "=0.1.0"
