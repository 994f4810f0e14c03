use vstd::prelude::*;

verus! {

/// A key and a value of the audit trail.
#[derive(Clone, Debug, PartialEq, Eq)]
pub struct Attribute {
    pub key: String,
    pub value: String,
}

pub struct AttributeView {
    pub key: Seq<char>,
    pub value: Seq<char>,
}

impl View for Attribute {
    type V = AttributeView;

    open spec fn view(&self) -> AttributeView {
        AttributeView { key: self.key@, value: self.value@ }
    }
}

/// An instruction to the bank: send `amount` of `denom` to `to_address`.
#[derive(Clone, Debug, PartialEq, Eq)]
pub struct Payment {
    pub to_address: String,
    pub amount: u128,
    pub denom: String,
}

pub struct PaymentView {
    pub to_address: Seq<char>,
    pub amount: u128,
    pub denom: Seq<char>,
}

impl View for Payment {
    type V = PaymentView;

    open spec fn view(&self) -> PaymentView {
        PaymentView { to_address: self.to_address@, amount: self.amount, denom: self.denom@ }
    }
}

/// What a successful operation hands back: the payments to carry out, in
/// order, and the attributes of its audit event.
#[derive(Clone, Debug, PartialEq, Eq)]
pub struct Response {
    pub messages: Vec<Payment>,
    pub attributes: Vec<Attribute>,
}

pub struct ResponseView {
    pub messages: Seq<PaymentView>,
    pub attributes: Seq<AttributeView>,
}

impl ResponseView {
    pub open spec fn empty() -> ResponseView {
        ResponseView { messages: Seq::empty(), attributes: Seq::empty() }
    }

    pub open spec fn with_attribute(self, key: Seq<char>, value: Seq<char>) -> ResponseView {
        ResponseView {
            messages: self.messages,
            attributes: self.attributes.push(AttributeView { key, value }),
        }
    }

    pub open spec fn with_message(self, payment: PaymentView) -> ResponseView {
        ResponseView { messages: self.messages.push(payment), attributes: self.attributes }
    }
}

impl View for Response {
    type V = ResponseView;

    open spec fn view(&self) -> ResponseView {
        ResponseView {
            messages: Seq::new(self.messages@.len(), |i: int| self.messages@[i]@),
            attributes: Seq::new(self.attributes@.len(), |i: int| self.attributes@[i]@),
        }
    }
}

impl Response {
    /// A response with no payment and no attribute.
    pub fn new() -> (response: Response)
        ensures
            response@ == ResponseView::empty(),
    {
        let response = Response { messages: Vec::new(), attributes: Vec::new() };
        assert(response@.messages =~= Seq::empty());
        assert(response@.attributes =~= Seq::empty());
        response
    }

    /// The response with one more attribute at the end of its audit event.
    pub fn add_attribute(self, key: &str, value: &str) -> (response: Response)
        ensures
            response@ == self@.with_attribute(key@, value@),
    {
        let mut response = self;
        response.attributes.push(Attribute { key: key.to_owned(), value: value.to_owned() });
        assert(response@.messages =~= self@.messages);
        assert(response@.attributes =~= self@.attributes.push(
            AttributeView { key: key@, value: value@ },
        ));
        response
    }

    /// The response with one more payment after those it holds.
    pub fn add_message(self, payment: Payment) -> (response: Response)
        ensures
            response@ == self@.with_message(payment@),
    {
        let mut response = self;
        response.messages.push(payment);
        assert(response@.messages =~= self@.messages.push(payment@));
        assert(response@.attributes =~= self@.attributes);
        response
    }
}

} // verus!
