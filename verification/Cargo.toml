[package]
name = "unitgen"
version = "0.1.0"
edition = "2021"
publish = false

[dependencies]
clap = "=3.0.0-beta.2"
# The derive half of clap. clap 3.0.0-beta.2 accepts later betas of it, which
# do not fit it, so the matching version is named here.
clap_derive = "=3.0.0-beta.2"
