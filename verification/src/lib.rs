//! Chrome DevTools Protocol client: protocol model, code generation and
//! the decision logic of the client, with contracts checked by Verus.

pub mod browser;
pub mod context;
pub mod features;
pub mod process;
pub mod protocol;
pub mod receive;
pub mod render;
pub mod text;
