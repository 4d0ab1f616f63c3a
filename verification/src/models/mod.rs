pub mod business;
pub mod customer;
pub mod invoice;
pub mod payment_attempt;
pub mod webhook;
