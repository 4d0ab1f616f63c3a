pub mod invoice_service;
pub mod payment_service;
pub mod webhook_service;
