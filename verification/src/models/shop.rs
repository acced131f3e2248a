//! Shop product and checkout delivery-form types.
use vstd::prelude::*;
use crate::components::validation::{is_valid_email, spec_is_valid_email};
use crate::text::{byte_len, encode_utf8_len, is_ascii_digit, is_ascii_digit_char, text_eq, trim, trimmed};

verus! {

/// Product data: stock per size label, or a single stock for one-size
/// items.
#[derive(Debug, Clone, Default)]
pub struct ShopProduct {
    pub post_id: String,
    /// Size label and stock count, e.g. `("S", 5), ("M", 3), ("L", 0)`.
    pub sizes: Option<Vec<(String, u32)>>,
    /// Stock for single-size (one-size) items.
    pub one_size_stock: Option<u32>,
}

impl ShopProduct {
    /// No size label occurs twice, as in the map the API sends.
    pub open spec fn wf(&self) -> bool {
        self.sizes matches Some(v) ==> forall|i: int, j: int|
            0 <= i < j < v.len() ==> v[i].0@ != v[j].0@
    }

    /// The product has at least one size to choose.
    pub open spec fn spec_has_sizes(&self) -> bool {
        self.sizes matches Some(v) && v.len() > 0
    }

    /// No stock left: a one-size stock of zero; otherwise every size at
    /// zero; and a product with neither counts as out of stock.
    pub open spec fn spec_is_out_of_stock(&self) -> bool {
        match self.one_size_stock {
            Some(stock) => stock == 0,
            None => match self.sizes {
                Some(v) => forall|i: int| 0 <= i < v@.len() ==> (#[trigger] v@[i]).1 == 0,
                None => true,
            },
        }
    }

    /// Whether this product has selectable sizes.
    pub fn has_sizes(&self) -> (r: bool)
        ensures
            r == self.spec_has_sizes(),
    {
        match &self.sizes {
            Some(v) => v.len() > 0,
            None => false,
        }
    }

    /// Whether this is a one-size product.
    pub fn is_one_size(&self) -> (r: bool)
        ensures
            r == self.one_size_stock.is_some(),
    {
        self.one_size_stock.is_some()
    }

    /// Whether the product is completely out of stock.
    pub fn is_out_of_stock(&self) -> (r: bool)
        ensures
            r == self.spec_is_out_of_stock(),
    {
        if let Some(stock) = self.one_size_stock {
            return stock == 0;
        }
        if let Some(sizes) = &self.sizes {
            let mut i: usize = 0;
            while i < sizes.len()
                invariant
                    self.one_size_stock is None,
                    self.sizes == Some(*sizes),
                    i <= sizes.len(),
                    forall|k: int| 0 <= k < i ==> (#[trigger] sizes@[k]).1 == 0,
                decreases sizes.len() - i,
            {
                if sizes[i].1 != 0 {
                    assert(sizes@[i as int].1 != 0);
                    assert(self.sizes matches Some(v) && v@[i as int].1 != 0);
                    assert(self.one_size_stock is None);
                    assert(!self.spec_is_out_of_stock());
                    return false;
                }
                i = i + 1;
            }
            return true;
        }
        true
    }
}

/// Input of the delivery form in the checkout flow.
#[derive(Debug, Clone, Default)]
pub struct DeliveryFormData {
    pub name: String,
    pub email: String,
    pub address_line_1: String,
    pub address_line_2: String,
    pub city: String,
    pub zipcode: String,
}

/// Result of validating the delivery form: one message per failing field.
#[derive(Debug, Clone, Default)]
pub struct DeliveryFormErrors {
    pub name: Option<String>,
    pub email: Option<String>,
    pub address_line_1: Option<String>,
    pub city: Option<String>,
    pub zipcode: Option<String>,
    pub size: Option<String>,
}

impl DeliveryFormErrors {
    /// Some field carries an error.
    pub open spec fn spec_has_errors(&self) -> bool {
        self.name.is_some() || self.email.is_some() || self.address_line_1.is_some()
            || self.city.is_some() || self.zipcode.is_some() || self.size.is_some()
    }

    /// Whether any field failed.
    pub fn has_errors(&self) -> (r: bool)
        ensures
            r == self.spec_has_errors(),
    {
        self.name.is_some() || self.email.is_some() || self.address_line_1.is_some()
            || self.city.is_some() || self.zipcode.is_some() || self.size.is_some()
    }
}

/// A ZIP code: exactly five ASCII digits once trimmed.
pub open spec fn spec_is_valid_zip(s: Seq<char>) -> bool {
    let t = trimmed(s);
    &&& encode_utf8_len(t) == 5
    &&& forall|i: int| 0 <= i < t.len() ==> is_ascii_digit(#[trigger] t[i])
}

/// `Some(msg)` when `failed`, `None` otherwise.
pub open spec fn error_if(failed: bool, msg: Seq<char>) -> Option<Seq<char>> {
    if failed {
        Some(msg)
    } else {
        None
    }
}

/// The view of an optional message.
pub open spec fn opt_text(o: Option<String>) -> Option<Seq<char>> {
    match o {
        Some(s) => Some(s@),
        None => None,
    }
}

fn is_valid_zip(s: &str) -> (r: bool)
    ensures
        r == spec_is_valid_zip(s@),
{
    let t = trim(s);
    if byte_len(t) != 5 {
        return false;
    }
    let n = t.unicode_len();
    let mut i: usize = 0;
    while i < n
        invariant
            n == t@.len(),
            t@ == trimmed(s@),
            encode_utf8_len(t@) == 5,
            i <= n,
            forall|k: int| 0 <= k < i ==> is_ascii_digit(#[trigger] t@[k]),
        decreases n - i,
    {
        if !is_ascii_digit_char(t.get_char(i)) {
            return false;
        }
        i = i + 1;
    }
    true
}

fn message_if(failed: bool, msg: &str) -> (r: Option<String>)
    ensures
        opt_text(r) == error_if(failed, msg@),
{
    if failed {
        Some(msg.to_owned())
    } else {
        None
    }
}

/// Validate the delivery form data; `size_required` holds for products
/// with sizes.
pub fn validate_delivery_form(
    data: &DeliveryFormData,
    size_required: bool,
    size_selected: &Option<String>,
) -> (r: DeliveryFormErrors)
    ensures
        opt_text(r.name) == error_if(
            encode_utf8_len(trimmed(data.name@)) < 2,
            "Name is required"@,
        ),
        opt_text(r.email) == error_if(!spec_is_valid_email(data.email@), "Enter a valid email"@),
        opt_text(r.address_line_1) == error_if(
            encode_utf8_len(trimmed(data.address_line_1@)) < 5,
            "Address is required"@,
        ),
        opt_text(r.city) == error_if(
            encode_utf8_len(trimmed(data.city@)) < 2,
            "City is required"@,
        ),
        opt_text(r.zipcode) == error_if(
            !spec_is_valid_zip(data.zipcode@),
            "Enter valid ZIP code"@,
        ),
        opt_text(r.size) == error_if(
            size_required && size_selected.is_none(),
            "Please select a size"@,
        ),
{
    DeliveryFormErrors {
        name: message_if(byte_len(trim(data.name.as_str())) < 2, "Name is required"),
        email: message_if(!is_valid_email(data.email.as_str()), "Enter a valid email"),
        address_line_1: message_if(
            byte_len(trim(data.address_line_1.as_str())) < 5,
            "Address is required",
        ),
        city: message_if(byte_len(trim(data.city.as_str())) < 2, "City is required"),
        zipcode: message_if(!is_valid_zip(data.zipcode.as_str()), "Enter valid ZIP code"),
        size: message_if(size_required && size_selected.is_none(), "Please select a size"),
    }
}

/// Response from the `performShopOrder` mutation.
#[derive(Debug, Clone)]
pub struct PerformShopOrderResponse {
    pub status: String,
    pub request_id: Option<String>,
    pub response_code: Option<String>,
    pub response_message: Option<String>,
}

impl PerformShopOrderResponse {
    /// The status is exactly `success`.
    pub fn is_success(&self) -> (r: bool)
        ensures
            r == (self.status@ == "success"@),
    {
        text_eq(self.status.as_str(), "success")
    }
}

/// Every one of the six fields of a validation result counts: a message
/// in any of them means the form has errors, and a result with none has
/// no errors.
pub proof fn lemma_each_field_error_counts(e: DeliveryFormErrors)
    ensures
        e.name is Some ==> e.spec_has_errors(),
        e.email is Some ==> e.spec_has_errors(),
        e.address_line_1 is Some ==> e.spec_has_errors(),
        e.city is Some ==> e.spec_has_errors(),
        e.zipcode is Some ==> e.spec_has_errors(),
        e.size is Some ==> e.spec_has_errors(),
        e.name is None && e.email is None && e.address_line_1 is None && e.city is None
            && e.zipcode is None && e.size is None ==> !e.spec_has_errors(),
{
}

/// A product with sizes validated while no size is chosen has errors,
/// whatever the other fields hold.
pub proof fn lemma_missing_size_blocks(
    e: DeliveryFormErrors,
    size_required: bool,
    size_selected: Option<String>,
)
    requires
        opt_text(e.size) == error_if(
            size_required && size_selected.is_none(),
            "Please select a size"@,
        ),
        size_required,
        size_selected is None,
    ensures
        e.spec_has_errors(),
{
}

} // verus!
