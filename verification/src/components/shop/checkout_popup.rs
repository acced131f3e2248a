//! The checkout popup's flow: delivery form, review, payment outcome.
use vstd::prelude::*;
use crate::models::post::Post;
use crate::models::shop::{opt_text, DeliveryFormData, DeliveryFormErrors, PerformShopOrderResponse};
use crate::text::{decimal, push_decimal, trim, trimmed};

verus! {

/// Checkout steps.
#[derive(Debug, Clone, Copy, PartialEq, Eq, Structural)]
pub enum CheckoutStep {
    DeliveryForm,
    ReviewPayment,
}

/// Where the payment stands.
#[derive(Debug, Clone, Copy, PartialEq, Eq, Structural)]
pub enum PaymentState {
    Idle,
    Processing,
    Success,
    Failed,
}

/// The popup's state.
#[derive(Debug, Clone, Copy, PartialEq, Eq, Structural)]
pub struct CheckoutFlow {
    pub is_open: bool,
    pub step: CheckoutStep,
    pub payment: PaymentState,
}

/// The closed popup, ready for a new checkout.
pub open spec fn closed_flow() -> CheckoutFlow {
    CheckoutFlow { is_open: false, step: CheckoutStep::DeliveryForm, payment: PaymentState::Idle }
}

impl CheckoutFlow {
    /// A popup opened on the delivery form.
    pub fn open() -> (r: Self)
        ensures
            r == (CheckoutFlow {
                is_open: true,
                step: CheckoutStep::DeliveryForm,
                payment: PaymentState::Idle,
            }),
    {
        CheckoutFlow { is_open: true, step: CheckoutStep::DeliveryForm, payment: PaymentState::Idle }
    }

    /// Close the popup (close button or backdrop) and start over.
    pub fn reset(&mut self)
        ensures
            *final(self) == closed_flow(),
    {
        self.is_open = false;
        self.step = CheckoutStep::DeliveryForm;
        self.payment = PaymentState::Idle;
    }

    /// "Next" on the delivery form: the review step comes only when the
    /// form validated without errors. Returns whether it moved on.
    pub fn next(&mut self, errors: &DeliveryFormErrors) -> (r: bool)
        ensures
            r == !errors.spec_has_errors(),
            r ==> *final(self) == (CheckoutFlow { step: CheckoutStep::ReviewPayment, ..*old(self) }),
            !r ==> *final(self) == *old(self),
    {
        if errors.has_errors() {
            false
        } else {
            self.step = CheckoutStep::ReviewPayment;
            true
        }
    }

    /// Back: from the review to the form; from the form it closes.
    pub fn back(&mut self)
        ensures
            old(self).step == CheckoutStep::ReviewPayment ==> *final(self) == (CheckoutFlow {
                step: CheckoutStep::DeliveryForm,
                ..*old(self)
            }),
            old(self).step == CheckoutStep::DeliveryForm ==> *final(self) == closed_flow(),
    {
        match self.step {
            CheckoutStep::ReviewPayment => {
                self.step = CheckoutStep::DeliveryForm;
            },
            CheckoutStep::DeliveryForm => {
                self.reset();
            },
        }
    }

    /// "Pay" pressed: the order is being placed.
    pub fn start_payment(&mut self)
        ensures
            *final(self) == (CheckoutFlow { payment: PaymentState::Processing, ..*old(self) }),
    {
        self.payment = PaymentState::Processing;
    }

    /// The order request answered: success or failure.
    pub fn finish_payment(&mut self, success: bool)
        ensures
            *final(self) == (CheckoutFlow {
                payment: if success {
                    PaymentState::Success
                } else {
                    PaymentState::Failed
                },
                ..*old(self)
            }),
    {
        self.payment = if success {
            PaymentState::Success
        } else {
            PaymentState::Failed
        };
    }

    /// "Try again" after a failure: back to the review, payment idle.
    pub fn retry(&mut self)
        ensures
            *final(self) == (CheckoutFlow {
                step: CheckoutStep::ReviewPayment,
                payment: PaymentState::Idle,
                ..*old(self)
            }),
    {
        self.payment = PaymentState::Idle;
        self.step = CheckoutStep::ReviewPayment;
    }

    /// The pay button is disabled while the order is processing.
    pub fn pay_disabled(&self) -> (r: bool)
        ensures
            r == (self.payment == PaymentState::Processing),
    {
        matches!(self.payment, PaymentState::Processing)
    }

    /// The checkout form and review are shown while the payment is idle or
    /// processing; the outcome screens replace them otherwise.
    pub fn shows_checkout(&self) -> (r: bool)
        ensures
            r == (self.payment == PaymentState::Idle || self.payment == PaymentState::Processing),
    {
        matches!(self.payment, PaymentState::Idle | PaymentState::Processing)
    }

    /// The label in front of the price on the pay button.
    pub fn pay_label(&self) -> (r: &'static str)
        ensures
            r@ == if self.payment == PaymentState::Processing {
                "Processing... "@
            } else {
                "Pay "@
            },
    {
        if matches!(self.payment, PaymentState::Processing) {
            "Processing... "
        } else {
            "Pay "
        }
    }
}

/// The arguments `perform_shop_order` is called with when "Pay" is
/// pressed.
#[derive(Debug, Clone)]
pub struct ShopOrderRequest {
    /// The price in tokens, as decimal text.
    pub token_amount: String,
    /// The id of the post that sells the product.
    pub shop_item_id: String,
    pub name: String,
    pub email: String,
    pub address_line_1: String,
    /// The second address line; `None` when it is blank.
    pub address_line_2: Option<String>,
    pub city: String,
    pub zipcode: String,
    /// The size chosen, if any.
    pub size: Option<String>,
}

/// `r` is the order for a product of `price` tokens sold by post
/// `post_id`, delivered as the form `d` says, in size `size`.
pub open spec fn is_order_request(
    r: ShopOrderRequest,
    price: u32,
    post_id: Seq<char>,
    d: DeliveryFormData,
    size: Option<String>,
) -> bool {
    &&& r.token_amount@ == decimal(price as nat)
    &&& r.shop_item_id@ == post_id
    &&& r.name@ == d.name@
    &&& r.email@ == d.email@
    &&& r.address_line_1@ == d.address_line_1@
    &&& opt_text(r.address_line_2) == if trimmed(d.address_line_2@).len() == 0 {
        None
    } else {
        Some(d.address_line_2@)
    }
    &&& r.city@ == d.city@
    &&& r.zipcode@ == d.zipcode@
    &&& opt_text(r.size) == opt_text(size)
}

fn clone_opt(o: &Option<String>) -> (r: Option<String>)
    ensures
        opt_text(r) == opt_text(*o),
{
    match o {
        Some(s) => Some(s.clone()),
        None => None,
    }
}

/// The order sent for the form `d`: the price as text, the post's id,
/// the form's fields as typed (the second address line left out when
/// blank) and the chosen size.
pub fn shop_order_request(
    price: u32,
    post_id: &str,
    d: &DeliveryFormData,
    size: &Option<String>,
) -> (r: ShopOrderRequest)
    ensures
        is_order_request(r, price, post_id@, *d, *size),
{
    let line2 = optional_address_line(d.address_line_2.clone());
    ShopOrderRequest {
        token_amount: price_display(price, false),
        shop_item_id: post_id.to_owned(),
        name: d.name.clone(),
        email: d.email.clone(),
        address_line_1: d.address_line_1.clone(),
        address_line_2: line2,
        city: d.city.clone(),
        zipcode: d.zipcode.clone(),
        size: clone_opt(size),
    }
}

impl CheckoutFlow {
    /// "Pay" pressed on the review: the payment is processing and the
    /// order to send is returned.
    pub fn pay(
        &mut self,
        price: u32,
        post_id: &str,
        d: &DeliveryFormData,
        size: &Option<String>,
    ) -> (r: ShopOrderRequest)
        ensures
            *final(self) == (CheckoutFlow { payment: PaymentState::Processing, ..*old(self) }),
            is_order_request(r, price, post_id@, *d, *size),
    {
        self.start_payment();
        shop_order_request(price, post_id, d, size)
    }

    /// The order request ended: `response` is its answer, `None` when the
    /// call itself failed. The payment succeeded exactly when an answer
    /// came that reports success.
    pub fn finish_order(&mut self, response: &Option<PerformShopOrderResponse>)
        ensures
            *final(self) == (CheckoutFlow {
                payment: if response matches Some(resp) && resp.status@ == "success"@ {
                    PaymentState::Success
                } else {
                    PaymentState::Failed
                },
                ..*old(self)
            }),
    {
        let ok = match response {
            Some(resp) => resp.is_success(),
            None => false,
        };
        self.finish_payment(ok);
    }
}

/// A failed payment followed by "Try again" leads back to a review that
/// can be paid again.
pub proof fn lemma_retry_allows_payment(f: CheckoutFlow)
    requires
        f.payment == PaymentState::Failed,
    ensures
        ({
            let r = CheckoutFlow { step: CheckoutStep::ReviewPayment, payment: PaymentState::Idle, ..f };
            r.step == CheckoutStep::ReviewPayment && r.payment != PaymentState::Processing
        }),
{
}

/// The second address line as sent: none when it is blank.
pub fn optional_address_line(line: String) -> (r: Option<String>)
    ensures
        trimmed(line@).len() == 0 ==> r is None,
        trimmed(line@).len() > 0 ==> r == Some(line),
{
    if trim(line.as_str()).unicode_len() == 0 {
        None
    } else {
        Some(line)
    }
}

/// The price as shown on the form (`42`) and on the review (`42.00`).
pub fn price_display(price: u32, with_cents: bool) -> (r: String)
    ensures
        r@ == if with_cents {
            decimal(price as nat) + ".00"@
        } else {
            decimal(price as nat)
        },
{
    let mut r = String::new();
    push_decimal(&mut r, price as u64);
    if with_cents {
        r.append(".00");
    }
    assert(r@ =~= if with_cents {
        decimal(price as nat) + ".00"@
    } else {
        decimal(price as nat)
    });
    r
}

/// Whether a size with this stock can be chosen.
pub fn size_in_stock(stock: u32) -> (r: bool)
    ensures
        r == (stock > 0),
{
    stock > 0
}

/// What `serde_json::from_str::<Vec<serde_json::Value>>(s)` yields for
/// `s`, each element read as the string in its field `key` (`None` where
/// the element has no such string); `None` when `s` is not a JSON array.
pub uninterp spec fn json_array_fields(s: Seq<char>, key: Seq<char>) -> Option<Seq<Option<Seq<char>>>>;

/// The optional texts of a list, as sequences of characters.
pub open spec fn opt_views(v: Seq<Option<String>>) -> Seq<Option<Seq<char>>> {
    v.map_values(|o: Option<String>| match o {
        Some(s) => Some(s@),
        None => None,
    })
}

/// `serde_json::from_str::<Vec<serde_json::Value>>`, each element mapped
/// to its field `key` read by `Value::get` and `Value::as_str`. The
/// result is a function of `s` and `key`.
#[verifier::external_body]
fn parse_json_fields(s: &str, key: &str) -> (r: Option<Vec<Option<String>>>)
    ensures
        match r {
            Some(v) => json_array_fields(s@, key@) == Some(opt_views(v@)),
            None => json_array_fields(s@, key@) is None,
        },
{
    match serde_json::from_str::<Vec<serde_json::Value>>(s) {
        Ok(values) => Some(
            values.iter().map(|v| v.get(key).and_then(|p| p.as_str()).map(|p| p.to_owned())).collect(),
        ),
        Err(_) => None,
    }
}

/// The text of an optional string, empty when there is none.
pub open spec fn text_or_empty(o: Option<String>) -> Seq<char> {
    match o {
        Some(s) => s@,
        None => Seq::empty(),
    }
}

/// The product image of the checkout: when the post's media is a JSON
/// array, the `path` of its first element (empty when it has none);
/// otherwise the cover, else the media, else nothing.
pub open spec fn spec_checkout_image(post: Post) -> Seq<char> {
    match json_array_fields(text_or_empty(post.media), "path"@) {
        Some(paths) => if paths.len() > 0 {
            match paths[0] {
                Some(p) => p,
                None => Seq::empty(),
            }
        } else {
            Seq::empty()
        },
        None => match post.cover {
            Some(c) => c@,
            None => text_or_empty(post.media),
        },
    }
}

/// The image shown for the product being bought.
pub fn checkout_image(post: &Post) -> (r: String)
    ensures
        r@ == spec_checkout_image(*post),
{
    let media = match &post.media {
        Some(m) => m.clone(),
        None => String::new(),
    };
    match parse_json_fields(media.as_str(), "path") {
        Some(paths) => {
            if paths.len() > 0 {
                match &paths[0] {
                    Some(p) => p.clone(),
                    None => String::new(),
                }
            } else {
                String::new()
            }
        },
        None => match &post.cover {
            Some(c) => c.clone(),
            None => media,
        },
    }
}

} // verus!
