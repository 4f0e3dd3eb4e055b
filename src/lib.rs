//! Invoice-to-PDF conversion: the error type, the contact and payment records, and the
//! rules for driving the external renderer that prints the invoice document.

pub mod error;
pub mod render;
pub mod types;
