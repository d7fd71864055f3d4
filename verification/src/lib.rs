//! A typed container for secret text.
//!
//! A [`Password`] is built from a plaintext of a minimum length. The
//! plaintext is brought into canonical form, reduced by a one-way function and
//! wiped; only the reduced bytes are kept. Containers compare with each other
//! and with candidate texts, travel as bytes or hexadecimal text, print as a
//! fixed marker, and overwrite what they hold when they are dropped.

pub mod canonical;
pub mod compare;
pub mod error;
pub mod hex_text;
pub mod laws;
pub mod password;
pub mod reduction;
pub mod wipe;

pub use error::{Error, ParseFault};
pub use password::Password;
pub use reduction::{Reduction, Sha256};
