//! Coercion of untyped request fields into the typed values the core
//! operations require: present and non-empty text, present numbers, parsed
//! 32-byte public keys, and strictly positive amounts.  Each helper reports
//! the first violated precondition as a message naming the field.

use vstd::prelude::*;
use vstd::string::StringExecFns;

use crate::codec::base58_of;
use crate::keys::PublicKey;

verus! {

/// The message reported for an absent required field.
pub open spec fn missing_field_msg(name: Seq<char>) -> Seq<char> {
    "Missing required field: "@ + name
}

/// The message reported for a present but empty text field.
pub open spec fn empty_field_msg(name: Seq<char>) -> Seq<char> {
    "Field '"@ + name + "' cannot be empty"@
}

/// The message reported for an address field that does not parse.
pub open spec fn invalid_address_msg(name: Seq<char>) -> Seq<char> {
    "Invalid '"@ + name + "' address provided"@
}

fn missing_field_message(name: &str) -> (r: String)
    ensures
        r@ == missing_field_msg(name@),
{
    let mut m = String::from_str("Missing required field: ");
    m.append(name);
    m
}

fn empty_field_message(name: &str) -> (r: String)
    ensures
        r@ == empty_field_msg(name@),
{
    let mut m = String::from_str("Field '");
    m.append(name);
    m.append("' cannot be empty");
    m
}

fn invalid_address_message(name: &str) -> (r: String)
    ensures
        r@ == invalid_address_msg(name@),
{
    let mut m = String::from_str("Invalid '");
    m.append(name);
    m.append("' address provided");
    m
}

/// Accepts a present, non-empty text field and returns its value; reports an
/// absent or empty field by name.
pub fn validate_required_string(field: &Option<String>, field_name: &str) -> (r: Result<
    String,
    String,
>)
    ensures
        field matches Some(s) ==> ({
            &&& s@.len() > 0 ==> (r matches Ok(v) && v@ == s@)
            &&& s@.len() == 0 ==> (r matches Err(m) && m@ == empty_field_msg(field_name@))
        }),
        field is None ==> (r matches Err(m) && m@ == missing_field_msg(field_name@)),
{
    match field {
        Some(s) => {
            if s.as_str().is_empty() {
                Err(empty_field_message(field_name))
            } else {
                Ok(s.clone())
            }
        },
        None => Err(missing_field_message(field_name)),
    }
}

/// Accepts a present numeric field and returns its value; reports an absent
/// field by name.
pub fn validate_required_numeric<T: Copy>(field: &Option<T>, field_name: &str) -> (r: Result<
    T,
    String,
>)
    ensures
        field matches Some(v) ==> (r matches Ok(rv) && rv == v),
        field is None ==> (r matches Err(m) && m@ == missing_field_msg(field_name@)),
{
    match field {
        Some(v) => Ok(*v),
        None => Err(missing_field_message(field_name)),
    }
}

/// Accepts a present, strictly positive amount; a zero amount and an absent
/// field are distinct failures.
pub fn validate_amount(amount: Option<u64>, field_name: &str) -> (r: Result<u64, String>)
    ensures
        amount matches Some(a) ==> ({
            &&& a > 0 ==> (r matches Ok(v) && v == a)
            &&& a == 0 ==> (r matches Err(m) && m@ == "Amount must be greater than 0"@)
        }),
        amount is None ==> (r matches Err(m) && m@ == missing_field_msg(field_name@)),
{
    match amount {
        Some(a) => {
            if a > 0 {
                Ok(a)
            } else {
                Err(String::from_str("Amount must be greater than 0"))
            }
        },
        None => Err(missing_field_message(field_name)),
    }
}

/// Parses a 32-byte public key from base58 text; reports a failure by field
/// name.  Succeeds exactly on the base58 form of some 32-byte value.
pub fn validate_pubkey(pubkey_str: &str, field_name: &str) -> (r: Result<PublicKey, String>)
    ensures
        r matches Ok(pk) ==> pk.wf() && pubkey_str@ == base58_of(pk@),
        (exists|w: Seq<u8>|
            #![trigger base58_of(w)]
            base58_of(w) == pubkey_str@ && w.len() == 32) ==> r is Ok,
        r matches Err(m) ==> m@ == invalid_address_msg(field_name@),
{
    match PublicKey::from_base58(pubkey_str) {
        Ok(pk) => Ok(pk),
        Err(_) => Err(invalid_address_message(field_name)),
    }
}

} // verus!
