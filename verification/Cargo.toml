[package]
name = "pglsp"
version = "0.1.0"
edition = "2021"
publish = false

[dependencies]
line-index = "*"
text-size = "1"
pg_query = "*"
regex = "1"
logos = "*"
cstree = "*"
bpaf = { version = "0.9", features = ["derive"] }
anyhow = "1"
sqlx = { version = "*", default-features = false, features = ["postgres", "runtime-tokio"] }
log = "0.4"
