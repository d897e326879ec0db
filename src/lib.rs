//! An error-reporting client: it filters a captured call stack down to the
//! application's own frames, assembles an error event, renders it as a
//! block-based chat document and prepares it for delivery to a webhook.

pub mod frames;
pub mod event;
pub mod document;
pub mod client;
pub mod payment;
