pub mod business;
pub mod customer;
pub mod invoice;
pub mod mock_psp;
pub mod payment;
pub mod webhook;
