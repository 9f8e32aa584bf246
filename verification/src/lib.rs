pub mod config_file;
pub mod encoding;
pub mod error;
pub mod keepass;
pub mod keepasshttp;
pub mod keepassxcbrowser;
pub mod kphcrypto;
pub mod protocol;
pub mod proxy_socket;
pub mod sealed;
