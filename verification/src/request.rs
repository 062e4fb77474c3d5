use vstd::prelude::*;

use crate::currency::{CryptoCurrency, FiatCurrency};

verus! {

/// Timeout accepted by the server, in minutes.
#[derive(Debug, Copy, Clone, Eq, PartialEq, Ord, PartialOrd, Hash)]
pub struct Timeout(u8);

/// The smallest timeout, in minutes, that the server accepts.
pub const MIN_TIMEOUT: u8 = 5;

/// The largest timeout, in minutes, that the server accepts.
pub const MAX_TIMEOUT: u8 = 30;

impl Timeout {
    /// A timeout always lies within the range the server accepts.
    #[verifier::type_invariant]
    closed spec fn in_range(self) -> bool {
        MIN_TIMEOUT <= self.0 <= MAX_TIMEOUT
    }

    /// The number of minutes this timeout stands for.
    pub closed spec fn minutes(self) -> u8 {
        self.0
    }

    /// Attempts to instantiate a timeout value.
    ///
    /// The parameter `timeout` is the number of minutes to wait.
    /// The timeout must be at least 5 min and at most 30 min.
    pub fn new(timeout: u8) -> (res: Option<Self>)
        ensures
            res is Some <==> MIN_TIMEOUT <= timeout <= MAX_TIMEOUT,
            res matches Some(t) ==> t.minutes() == timeout,
    {
        if timeout >= MIN_TIMEOUT && timeout <= MAX_TIMEOUT {
            Some(Timeout(timeout))
        } else {
            None
        }
    }
}

impl From<Timeout> for u8 {
    fn from(timeout: Timeout) -> (minutes: u8)
        ensures
            MIN_TIMEOUT <= minutes <= MAX_TIMEOUT,
    {
        proof {
            use_type_invariant(&timeout);
        }
        timeout.0
    }
}

impl vstd::std_specs::convert::FromSpecImpl<Timeout> for u8 {
    open spec fn obeys_from_spec() -> bool {
        true
    }

    open spec fn from_spec(timeout: Timeout) -> u8 {
        timeout.minutes()
    }
}

/// The longest order ID, in characters, that the server accepts.
pub const MAX_ORDER_ID_LEN: usize = 20;

/// Characters allowed in an order ID: ASCII letters and digits, `-` and `_`.
pub open spec fn is_order_id_char(c: char) -> bool {
    ||| '0' <= c <= '9'
    ||| 'a' <= c <= 'z'
    ||| 'A' <= c <= 'Z'
    ||| c == '-'
    ||| c == '_'
}

/// The strings that make an order ID: at most 20 characters, each allowed.
pub open spec fn is_valid_order_id(s: Seq<char>) -> bool {
    &&& s.len() <= MAX_ORDER_ID_LEN
    &&& forall|i: int| 0 <= i < s.len() ==> is_order_id_char(#[trigger] s[i])
}

/// The characters allowed in an order ID are the characters that
/// percent-encoding leaves as they are, except `.` and `~`: every ASCII
/// digit and letter, `-` and `_`. So every string of at most 20 of them is an
/// order ID, and no other string is.
pub proof fn lemma_order_id_chars(c: char, s: Seq<char>)
    ensures
        is_order_id_char(c) <==> (crate::urlenc::is_unreserved_char(c) && c != '.' && c != '~'),
        ('0' <= c <= '9' || 'a' <= c <= 'z' || 'A' <= c <= 'Z' || c == '-' || c == '_')
            ==> is_order_id_char(c),
        (s.len() <= 20 && forall|i: int|
            0 <= i < s.len() ==> {
                let d = #[trigger] s[i];
                '0' <= d <= '9' || 'a' <= d <= 'z' || 'A' <= d <= 'Z' || d == '-' || d == '_'
            }) <==> is_valid_order_id(s),
{
    assert((s.len() <= 20 && forall|i: int|
        0 <= i < s.len() ==> {
            let d = #[trigger] s[i];
            '0' <= d <= '9' || 'a' <= d <= 'z' || 'A' <= d <= 'Z' || d == '-' || d == '_'
        }) <==> is_valid_order_id(s));
}

/// User-defined order ID.
///
/// This is a newtype in order to avoid potential mistakes
/// and make the code more clear.
pub struct OrderID(String);

impl View for OrderID {
    type V = Seq<char>;

    closed spec fn view(&self) -> Seq<char> {
        self.0@
    }
}

fn is_order_id_char_exec(c: char) -> (b: bool)
    ensures
        b == is_order_id_char(c),
{
    (c >= '0' && c <= '9') || (c >= 'a' && c <= 'z') || (c >= 'A' && c <= 'Z') || c == '-' || c
        == '_'
}

impl OrderID {
    /// An order ID is always a valid one.
    #[verifier::type_invariant]
    pub(crate) closed spec fn valid(self) -> bool {
        is_valid_order_id(self.0@)
    }

    /// The string this order ID holds.
    pub closed spec fn as_string(self) -> String {
        self.0
    }

    /// Creates `OrderID` from the given string: it must hold at most 20
    /// characters, each an ASCII letter or digit, `-` or `_`.
    pub fn new(order_id: String) -> (res: Option<Self>)
        ensures
            res is Some <==> is_valid_order_id(order_id@),
            res matches Some(id) ==> id.as_string() == order_id && id@ == order_id@,
            (order_id@.len() <= 20 && forall|i: int|
                0 <= i < order_id@.len() ==> {
                    let d = #[trigger] order_id@[i];
                    '0' <= d <= '9' || 'a' <= d <= 'z' || 'A' <= d <= 'Z' || d == '-' || d == '_'
                }) <==> res is Some,
    {
        proof {
            lemma_order_id_chars('0', order_id@);
        }
        broadcast use vstd::string::axiom_spec_iter;

        let mut count: usize = 0;
        for c in it: order_id.as_str().chars()
            invariant
                it.seq() == order_id@,
                count == it.index(),
                count <= MAX_ORDER_ID_LEN,
                forall|j: int| 0 <= j < it.index() ==> is_order_id_char(#[trigger] order_id@[j]),
        {
            if count == MAX_ORDER_ID_LEN || !is_order_id_char_exec(c) {
                return None;
            }
            count += 1;
        }
        Some(OrderID(order_id))
    }

    /// The order ID as a string slice.
    pub fn as_str(&self) -> (s: &str)
        ensures
            s@ == self@,
            is_valid_order_id(s@),
    {
        proof {
            use_type_invariant(self);
        }
        self.0.as_str()
    }
}

impl From<OrderID> for String {
    fn from(order_id: OrderID) -> (s: String) {
        order_id.0
    }
}

impl vstd::std_specs::convert::FromSpecImpl<OrderID> for String {
    open spec fn obeys_from_spec() -> bool {
        true
    }

    open spec fn from_spec(order_id: OrderID) -> String {
        order_id.as_string()
    }
}

/// Contains all information required to initiate the payment.
pub struct RequestData {
    /// How long the request is valid.
    pub timeout: Timeout,
    /// User-selected order ID.
    pub order_id: OrderID,
    /// The amount of fiat currency to be paid **in cents**.
    pub amount: u64,
    /// The fiat currency to use to specify amount.
    pub fiat_currency: FiatCurrency,
    /// The crypto currency a user wants to use for payment.
    pub crypto_currency: CryptoCurrency,
    /// Selects whether to wait for blockchain confirmations.
    ///
    /// In order to not risk too much, you should set this to `true`,
    /// if the amount is large.
    pub wait_for_confirmantions: bool,
}

impl<'a> From<&'a OrderID> for &'a str {
    fn from(order_id: &'a OrderID) -> (s: &'a str)
        ensures
            s@ == order_id@,
    {
        order_id.0.as_str()
    }
}

/// A spec function cannot borrow a `&str` out of a `String`, so this
/// conversion is not described by `from_spec`; the `ensures` of `from` above
/// states what it returns: the characters of the order ID.
impl<'a> vstd::std_specs::convert::FromSpecImpl<&'a OrderID> for &'a str {
    open spec fn obeys_from_spec() -> bool {
        false
    }

    open spec fn from_spec(order_id: &'a OrderID) -> &'a str {
        choose|s: &'a str| s@ == order_id@
    }
}

/// The characters of an order ID are those of the string it holds.
pub proof fn lemma_order_id_view(order_id: OrderID)
    ensures
        order_id@ == order_id.as_string()@,
{
}

impl AsRef<str> for OrderID {
    fn as_ref(&self) -> (s: &str)
        ensures
            s@ == self@,
    {
        self.0.as_str()
    }
}

} // verus!
