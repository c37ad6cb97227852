[package]
name = "lgba"
version = "0.1.0"
edition = "2021"
publish = false

[dependencies]
enumset = "1"
num_enum = "0.7"
log = "0.4"
linked_list_allocator = "0.10"
anyhow = "1"
kanji = "*"
unic-ucd = "0.9"
