//! The SOCKS5 wire structures and their codec.
pub mod address;
pub mod buffer;
pub mod command;
pub mod constant;
pub mod error;
pub mod proxy;
pub mod reply;
pub mod shake_hands;
pub mod stream;
pub mod text;

pub use address::{Address, AddressView, SocketAddress};
pub use command::Command;
pub use error::Error;
pub use proxy::{Proxy, ProxyView};
pub use reply::Reply;
pub use shake_hands::{MethodChoice, ShakeHands};
pub use stream::{ByteStream, Decoded};
