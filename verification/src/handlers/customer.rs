use vstd::prelude::*;
use crate::entropy::new_ulid;
use crate::errors::AppError;
use crate::models::customer::Customer;
use crate::text::owned;

verus! {

/// A request to add a customer to the caller's business.
#[derive(Debug)]
pub struct CreateCustomerRequest {
    pub name: String,
    pub email: String,
}

/// A customer about to be stored, with a fresh id.
#[derive(Debug)]
pub struct NewCustomer {
    pub id: String,
    pub business_id: String,
    pub name: String,
    pub email: String,
}

/// The customer that a creation request adds to `business_id`.
pub fn create_customer(business_id: &str, request: CreateCustomerRequest) -> (r: NewCustomer)
    ensures
        r.id@.len() == 26,
        r.business_id@ == business_id@,
        r.name == request.name,
        r.email == request.email,
{
    NewCustomer {
        id: new_ulid(),
        business_id: owned(business_id),
        name: request.name,
        email: request.email,
    }
}

/// The answer to a lookup of a customer of the caller's business: the customer, or
/// `NotFound`.
pub fn get_customer(found: Option<Customer>) -> (r: Result<Customer, AppError>)
    ensures
        found matches Some(c) ==> r == Ok::<Customer, AppError>(c),
        found is None ==> (r matches Err(AppError::NotFound(m)) && m@ == "Customer not found"@),
{
    match found {
        Some(c) => Ok(c),
        None => Err(AppError::NotFound(owned("Customer not found"))),
    }
}

} // verus!
