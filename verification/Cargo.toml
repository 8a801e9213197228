[package]
name = "find_folder"
version = "0.1.0"
edition = "2021"
publish = false
