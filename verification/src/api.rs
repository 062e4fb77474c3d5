use vstd::prelude::*;

use crate::currency::{crypto_code, fiat_code};
use crate::request::{RequestData, Timeout};
use crate::request::is_valid_order_id;
use crate::query::{
    field, field_pair, has_char, join_params, lemma_field_pair, lemma_join_params_read_back,
    lemma_no_char_join, lemma_split_cons, lemma_split_single, lemma_url_parts, query_params,
    split_on, url_head, well_separated,
};
use crate::text::{decimal, decimal_value, digit_char, lemma_decimal_digits, lemma_decimal_value, push_decimal, push_str};
use crate::urlenc::{
    is_url_safe_char, lemma_url_encoded_injective, lemma_url_encoded_safe,
    lemma_url_encoded_unreserved, percent_decode, url_encode, url_encoded,
};
use vstd::utf8::decode_utf8;

verus! {

/// The start of every API call's URL, up to the query: the host differs
/// between the main network and the test network.
pub open spec fn api_base(is_testnet: bool) -> Seq<char> {
    "https://www.cryptodiggers"@ + (if is_testnet {
        "test"@
    } else {
        Seq::<char>::empty()
    }) + ".eu/api/api.php?"@
}

/// An amount given in cents, as the decimal number of whole units, a dot,
/// and the two digits of the cents.
pub open spec fn amount_text(amount: nat) -> Seq<char> {
    decimal(amount / 100) + seq!['.'] + seq![
        digit_char(((amount % 100) / 10) as int),
        digit_char((amount % 10) as int),
    ]
}

/// The URL that requests a new payment address.
pub open spec fn payment_request_url(api_key: Seq<char>, is_testnet: bool, request: RequestData) -> Seq<
    char,
> {
    api_base(is_testnet) + "apikey="@ + url_encoded(api_key) + "&a=new_address&timeout="@ + decimal(
        request.timeout.minutes() as nat,
    ) + "&order_id="@ + request.order_id@ + "&amount="@ + amount_text(request.amount as nat)
        + "&currency="@ + decimal(fiat_code(request.fiat_currency) as nat) + "&currency_crypto="@
        + decimal(crypto_code(request.crypto_currency) as nat) + "&wait="@ + decimal(
        if request.wait_for_confirmantions {
            1nat
        } else {
            0nat
        },
    )
}

/// The URL that asks for the status of the payment with the given iframe ID.
pub open spec fn payment_status_url(iframe_id: Seq<char>, is_testnet: bool) -> Seq<char> {
    api_base(is_testnet) + "iframe="@ + url_encoded(iframe_id) + "&a=get_iframe_status"@
}

/// Every character of `s` can stand in a query value.
pub open spec fn is_url_safe(s: Seq<char>) -> bool {
    forall|i: int| 0 <= i < s.len() ==> is_url_safe_char(#[trigger] s[i])
}

proof fn lemma_decimal_safe(n: nat)
    ensures
        is_url_safe(decimal(n)),
{
    lemma_decimal_digits(n);
}

/// The amount text is a decimal number with exactly two digits after its
/// single dot, and it denotes the amount in cents: whole units times 100
/// plus the cents.
pub proof fn lemma_amount_text(amount: nat)
    ensures
        ({
            let t = amount_text(amount);
            let k = t.len() - 3;
            &&& k >= 1
            &&& t[k] == '.'
            &&& forall|i: int| 0 <= i < t.len() && i != k ==> '0' <= #[trigger] t[i] <= '9'
            &&& decimal_value(t.take(k)) * 100 + decimal_value(t.skip(k + 1)) == amount
        }),
{
    let units = decimal(amount / 100);
    let c1 = digit_char(((amount % 100) / 10) as int);
    let c2 = digit_char((amount % 10) as int);
    let t = amount_text(amount);
    lemma_decimal_digits(amount / 100);
    lemma_decimal_value(amount / 100);
    let k = t.len() - 3;
    assert(k == units.len());
    assert(t.take(k) =~= units);
    let cents = t.skip(k + 1);
    assert(cents =~= seq![c1, c2]);
    assert(cents.drop_last() =~= seq![c1]);
    assert(seq![c1].drop_last() =~= Seq::<char>::empty());
    assert(decimal_value(Seq::<char>::empty()) == 0);
    assert(c1 as int == 48 + (amount % 100) / 10);
    assert(c2 as int == 48 + amount % 10);
    assert(decimal_value(seq![c1]) == c1 as int - 48);
    assert(decimal_value(cents) == decimal_value(seq![c1]) * 10 + (c2 as int - 48));
    assert(amount == (amount / 100) * 100 + ((amount % 100) / 10) * 10 + amount % 10);
    assert forall|i: int| 0 <= i < t.len() && i != k implies '0' <= #[trigger] t[i] <= '9' by {
        if i < k {
            assert(t[i] == units[i]);
        }
    }
}

/// Every value put into the query of a payment request can stand there
/// unchanged: none holds `&`, `=`, `#` or any other character that would
/// change the structure of the URL. The order ID needs no percent-encoding:
/// it is its own encoding.
pub proof fn lemma_payment_request_values_safe(api_key: Seq<char>, request: RequestData)
    requires
        is_valid_order_id(request.order_id@),
    ensures
        is_url_safe(url_encoded(api_key)),
        is_url_safe(decimal(request.timeout.minutes() as nat)),
        is_url_safe(request.order_id@),
        url_encoded(request.order_id@) == request.order_id@,
        is_url_safe(amount_text(request.amount as nat)),
        is_url_safe(decimal(fiat_code(request.fiat_currency) as nat)),
        is_url_safe(decimal(crypto_code(request.crypto_currency) as nat)),
        is_url_safe(decimal(1)),
        is_url_safe(decimal(0)),
{
    lemma_url_encoded_safe(api_key);
    lemma_decimal_safe(request.timeout.minutes() as nat);
    lemma_decimal_safe(fiat_code(request.fiat_currency) as nat);
    lemma_decimal_safe(crypto_code(request.crypto_currency) as nat);
    lemma_decimal_safe(1);
    lemma_decimal_safe(0);
    lemma_url_encoded_unreserved(request.order_id@);
    lemma_amount_text(request.amount as nat);
}

/// The iframe ID put into a status query can stand there unchanged.
pub proof fn lemma_status_value_safe(iframe_id: Seq<char>)
    ensures
        is_url_safe(url_encoded(iframe_id)),
{
    lemma_url_encoded_safe(iframe_id);
}

/// A URL-safe string holds no `&` and no `=`.
proof fn lemma_safe_has_no_separator(s: Seq<char>)
    requires
        is_url_safe(s),
    ensures
        !has_char(s, '&'),
        !has_char(s, '='),
{
    if has_char(s, '&') {
        let i = choose|i: int| 0 <= i < s.len() && s[i] == '&';
        assert(is_url_safe_char(s[i]));
    }
    if has_char(s, '=') {
        let i = choose|i: int| 0 <= i < s.len() && s[i] == '=';
        assert(is_url_safe_char(s[i]));
    }
}

/// The field `key=value`, when the key holds no `&` or `=` and the value is
/// URL-safe, holds no `&` and reads as `(key, value)`.
proof fn lemma_field(key: Seq<char>, value: Seq<char>)
    requires
        !has_char(key, '&'),
        !has_char(key, '='),
        is_url_safe(value),
    ensures
        !has_char(key + seq!['='] + value, '&'),
        field_pair(key + seq!['='] + value) == (key, value),
{
    lemma_safe_has_no_separator(value);
    assert(!has_char(seq!['='], '&'));
    lemma_no_char_join(key, seq!['='], '&');
    lemma_no_char_join(key + seq!['='], value, '&');
    lemma_field_pair(key, value);
}

/// The address every API call goes to, with the `?` that opens the query:
/// the test network has its own host.
pub open spec fn api_address(is_testnet: bool) -> Seq<char> {
    if is_testnet {
        "https://www.cryptodiggerstest.eu/api/api.php?"@
    } else {
        "https://www.cryptodiggers.eu/api/api.php?"@
    }
}

proof fn lemma_api_base(is_testnet: bool)
    ensures
        api_base(is_testnet) == api_address(is_testnet),
        api_base(is_testnet).len() > 0,
        api_base(is_testnet).last() == '?',
        !has_char(api_base(is_testnet).drop_last(), '?'),
{
    reveal_strlit("https://www.cryptodiggers");
    reveal_strlit("test");
    reveal_strlit(".eu/api/api.php?");
    reveal_strlit("https://www.cryptodiggerstest.eu/api/api.php?");
    reveal_strlit("https://www.cryptodiggers.eu/api/api.php?");
    assert(api_base(is_testnet) =~= api_address(is_testnet));
    let h = api_base(is_testnet).drop_last();
    if has_char(h, '?') {
        let i = choose|i: int| 0 <= i < h.len() && h[i] == '?';
        assert(h[i] == api_address(is_testnet)[i]);
    }
}

/// What a server reads from a status query: the API's address (on the test
/// network's host exactly when `is_testnet`), then exactly two parameters,
/// `iframe` and `a=get_iframe_status`; the `iframe` value decodes to the
/// whole iframe ID, whatever its length or characters.
pub proof fn lemma_status_url_params(iframe_id: Seq<char>, is_testnet: bool)
    ensures
        url_head(payment_status_url(iframe_id, is_testnet)) == api_address(is_testnet),
        query_params(payment_status_url(iframe_id, is_testnet)) == seq![
            ("iframe"@, url_encoded(iframe_id)),
            ("a"@, "get_iframe_status"@),
        ],
        decode_utf8(percent_decode(query_params(payment_status_url(iframe_id, is_testnet))[0].1))
            == iframe_id,
{
    reveal_strlit("iframe=");
    reveal_strlit("&a=get_iframe_status");
    reveal_strlit("iframe");
    reveal_strlit("a");
    reveal_strlit("get_iframe_status");
    let enc = url_encoded(iframe_id);
    lemma_url_encoded_safe(iframe_id);
    lemma_url_encoded_injective(iframe_id, iframe_id);
    lemma_api_base(is_testnet);
    let f1 = "iframe"@ + seq!['='] + enc;
    let f2 = "a"@ + seq!['='] + "get_iframe_status"@;
    let query = f1 + seq!['&'] + f2;
    assert(payment_status_url(iframe_id, is_testnet) =~= api_base(is_testnet) + query);
    lemma_url_parts(api_base(is_testnet), query);
    lemma_field("iframe"@, enc);
    assert(is_url_safe("get_iframe_status"@));
    lemma_field("a"@, "get_iframe_status"@);
    lemma_split_cons(f1, '&', f2);
    lemma_split_single(f2, '&');
    assert(split_on(query, '&') =~= seq![f1, f2]);
    assert(query_params(payment_status_url(iframe_id, is_testnet)) =~= seq![
        ("iframe"@, enc),
        ("a"@, "get_iframe_status"@),
    ]);
}

/// The parameters written into a payment request, in order.
pub open spec fn request_params(api_key: Seq<char>, request: RequestData) -> Seq<
    (Seq<char>, Seq<char>),
> {
    seq![
        ("apikey"@, url_encoded(api_key)),
        ("a"@, "new_address"@),
        ("timeout"@, decimal(request.timeout.minutes() as nat)),
        ("order_id"@, request.order_id@),
        ("amount"@, amount_text(request.amount as nat)),
        ("currency"@, decimal(fiat_code(request.fiat_currency) as nat)),
        ("currency_crypto"@, decimal(crypto_code(request.crypto_currency) as nat)),
        ("wait"@, decimal(if request.wait_for_confirmantions { 1nat } else { 0nat })),
    ]
}

proof fn lemma_join_cons(p: (Seq<char>, Seq<char>), rest: Seq<(Seq<char>, Seq<char>)>)
    requires
        rest.len() >= 1,
    ensures
        join_params(seq![p] + rest) == field(p) + seq!['&'] + join_params(rest),
{
    assert((seq![p] + rest).drop_first() =~= rest);
}

proof fn lemma_request_params_joined(api_key: Seq<char>, request: RequestData)
    ensures
        ({
            let p = request_params(api_key, request);
            join_params(p) == field(p[0]) + seq!['&'] + field(p[1]) + seq!['&'] + field(p[2])
                + seq!['&'] + field(p[3]) + seq!['&'] + field(p[4]) + seq!['&'] + field(p[5])
                + seq!['&'] + field(p[6]) + seq!['&'] + field(p[7])
        }),
{
    let p = request_params(api_key, request);
    let p8 = seq![p[7]];
    let p7 = seq![p[6]] + p8;
    let p6 = seq![p[5]] + p7;
    let p5 = seq![p[4]] + p6;
    let p4 = seq![p[3]] + p5;
    let p3 = seq![p[2]] + p4;
    let p2 = seq![p[1]] + p3;
    let p1 = seq![p[0]] + p2;
    assert(p1 =~= p);
    lemma_join_cons(p[6], p8);
    lemma_join_cons(p[5], p7);
    lemma_join_cons(p[4], p6);
    lemma_join_cons(p[3], p5);
    lemma_join_cons(p[2], p4);
    lemma_join_cons(p[1], p3);
    lemma_join_cons(p[0], p2);
    assert(join_params(p8) == field(p[7]));
    assert(join_params(p) =~= field(p[0]) + seq!['&'] + field(p[1]) + seq!['&'] + field(p[2])
        + seq!['&'] + field(p[3]) + seq!['&'] + field(p[4]) + seq!['&'] + field(p[5])
        + seq!['&'] + field(p[6]) + seq!['&'] + field(p[7]));
}

proof fn lemma_request_url_joined(api_key: Seq<char>, is_testnet: bool, request: RequestData)
    ensures
        payment_request_url(api_key, is_testnet, request) == api_base(is_testnet) + join_params(
            request_params(api_key, request),
        ),
{
    reveal_strlit("apikey=");
    reveal_strlit("&a=new_address&timeout=");
    reveal_strlit("&order_id=");
    reveal_strlit("&amount=");
    reveal_strlit("&currency=");
    reveal_strlit("&currency_crypto=");
    reveal_strlit("&wait=");
    reveal_strlit("apikey");
    reveal_strlit("a");
    reveal_strlit("new_address");
    reveal_strlit("timeout");
    reveal_strlit("order_id");
    reveal_strlit("amount");
    reveal_strlit("currency");
    reveal_strlit("currency_crypto");
    reveal_strlit("wait");
    lemma_request_params_joined(api_key, request);
    let p = request_params(api_key, request);
    assert(payment_request_url(api_key, is_testnet, request) =~= api_base(is_testnet) + (field(
        p[0],
    ) + seq!['&'] + field(p[1]) + seq!['&'] + field(p[2]) + seq!['&'] + field(p[3]) + seq!['&']
        + field(p[4]) + seq!['&'] + field(p[5]) + seq!['&'] + field(p[6]) + seq!['&'] + field(
        p[7],
    )));
}

proof fn lemma_request_params_separated(api_key: Seq<char>, request: RequestData)
    requires
        is_valid_order_id(request.order_id@),
    ensures
        well_separated(request_params(api_key, request)),
{
    reveal_strlit("apikey");
    reveal_strlit("a");
    reveal_strlit("new_address");
    reveal_strlit("timeout");
    reveal_strlit("order_id");
    reveal_strlit("amount");
    reveal_strlit("currency");
    reveal_strlit("currency_crypto");
    reveal_strlit("wait");
    lemma_payment_request_values_safe(api_key, request);
    let p = request_params(api_key, request);
    assert(is_url_safe("new_address"@));
    assert forall|i: int| 0 <= i < p.len() implies {
        &&& !has_char(#[trigger] p[i].0, '&')
        &&& !has_char(p[i].0, '=')
        &&& !has_char(p[i].1, '&')
    } by {
        lemma_safe_has_no_separator(p[i].1);
    }
}

/// What a server reads from a payment request: the API's address (on the
/// test network's host exactly when `is_testnet`), then exactly these
/// parameters in this order: `apikey` (decoding to the API key), `a`
/// (`new_address`), `timeout` (the minutes), `order_id` (the order ID),
/// `amount` (whole units, a dot and two cent digits that together make the
/// amount in cents), `currency` (the API code of the fiat currency),
/// `currency_crypto` (the API code of the crypto currency) and `wait` (1 when
/// confirmations are awaited, else 0).
pub proof fn lemma_payment_request_params(api_key: Seq<char>, is_testnet: bool, request: RequestData)
    requires
        is_valid_order_id(request.order_id@),
    ensures
        ({
            let url = payment_request_url(api_key, is_testnet, request);
            let params = query_params(url);
            let wait: nat = if request.wait_for_confirmantions {
                1
            } else {
                0
            };
            let amount = params[4].1;
            let k = amount.len() - 3;
            &&& url_head(url) == api_address(is_testnet)
            &&& params == seq![
                ("apikey"@, url_encoded(api_key)),
                ("a"@, "new_address"@),
                ("timeout"@, decimal(request.timeout.minutes() as nat)),
                ("order_id"@, request.order_id@),
                ("amount"@, amount_text(request.amount as nat)),
                ("currency"@, decimal(fiat_code(request.fiat_currency) as nat)),
                ("currency_crypto"@, decimal(crypto_code(request.crypto_currency) as nat)),
                ("wait"@, decimal(wait)),
            ]
            &&& decode_utf8(percent_decode(params[0].1)) == api_key
            &&& decimal_value(params[2].1) == request.timeout.minutes()
            &&& params[3].1 == request.order_id@
            &&& k >= 1 && amount[k] == '.'
            &&& decimal_value(amount.take(k)) * 100 + decimal_value(amount.skip(k + 1))
                == request.amount
            &&& decimal_value(params[5].1) == fiat_code(request.fiat_currency)
            &&& decimal_value(params[6].1) == crypto_code(request.crypto_currency)
            &&& decimal_value(params[7].1) == wait
        }),
{
    let wait: nat = if request.wait_for_confirmantions {
        1
    } else {
        0
    };
    let url = payment_request_url(api_key, is_testnet, request);
    let p = request_params(api_key, request);
    lemma_request_url_joined(api_key, is_testnet, request);
    lemma_request_params_separated(api_key, request);
    lemma_join_params_read_back(p);
    lemma_api_base(is_testnet);
    lemma_url_parts(api_base(is_testnet), join_params(p));
    assert(query_params(url) == p);
    lemma_url_encoded_injective(api_key, api_key);
    lemma_decimal_value(request.timeout.minutes() as nat);
    lemma_decimal_value(fiat_code(request.fiat_currency) as nat);
    lemma_decimal_value(crypto_code(request.crypto_currency) as nat);
    lemma_decimal_value(wait);
    lemma_amount_text(request.amount as nat);
}

/// Appends the start of an API call's URL.
pub(crate) fn push_api_base(url: &mut String, is_testnet: bool)
    ensures
        final(url)@ == old(url)@ + api_base(is_testnet),
{
    push_str(url, "https://www.cryptodiggers");
    if is_testnet {
        push_str(url, "test");
    }
    push_str(url, ".eu/api/api.php?");
    assert(final(url)@ =~= old(url)@ + api_base(is_testnet));
}

/// The payment gateway.
///
/// This struct contains all necessary information used to connect to
/// the payment gateway.
pub struct CDPayBuilder {
    api_key: String,
    is_testnet: bool,
}

impl CDPayBuilder {
    /// The API key requests are made with.
    pub closed spec fn api_key(self) -> Seq<char> {
        self.api_key@
    }

    /// Whether requests go to the test network.
    pub closed spec fn is_testnet(self) -> bool {
        self.is_testnet
    }

    /// Initiates payment builder.
    pub fn new(api_key: String) -> (builder: Self)
        ensures
            builder.api_key() == api_key@,
            !builder.is_testnet(),
    {
        CDPayBuilder { api_key, is_testnet: false }
    }

    /// Initiates payment builder using **test network**.
    ///
    /// **Warning**: This doesn't use real coins - only test coins. It is
    /// guaranteed that using this in exchange for real products will lead
    /// to loss!
    pub fn new_test(api_key: String) -> (builder: Self)
        ensures
            builder.api_key() == api_key@,
            builder.is_testnet(),
    {
        CDPayBuilder { api_key, is_testnet: true }
    }

    /// Whether requests go to the test network.
    pub fn testnet(&self) -> (b: bool)
        ensures
            b == self.is_testnet(),
    {
        self.is_testnet
    }

    /// The URL of the API call that requests a new payment.
    pub fn payment_request_url(&self, request_data: &RequestData) -> (url: String)
        ensures
            url@ == payment_request_url(self.api_key(), self.is_testnet(), *request_data),
            query_params(url@) == seq![
                ("apikey"@, url_encoded(self.api_key())),
                ("a"@, "new_address"@),
                ("timeout"@, decimal(request_data.timeout.minutes() as nat)),
                ("order_id"@, request_data.order_id@),
                ("amount"@, amount_text(request_data.amount as nat)),
                ("currency"@, decimal(fiat_code(request_data.fiat_currency) as nat)),
                ("currency_crypto"@, decimal(crypto_code(request_data.crypto_currency) as nat)),
                ("wait"@, decimal(if request_data.wait_for_confirmantions { 1nat } else { 0nat })),
            ],
            decimal_value(query_params(url@)[5].1) == fiat_code(request_data.fiat_currency),
            decimal_value(query_params(url@)[6].1) == crypto_code(request_data.crypto_currency),
    {
        let mut url = String::new();
        push_api_base(&mut url, self.is_testnet);
        push_str(&mut url, "apikey=");
        let key = url_encode(self.api_key.as_str());
        push_str(&mut url, key.as_str());
        push_str(&mut url, "&a=new_address&timeout=");
        push_decimal(&mut url, u8::from(request_data.timeout) as u64);
        push_str(&mut url, "&order_id=");
        push_str(&mut url, request_data.order_id.as_str());
        push_str(&mut url, "&amount=");
        push_decimal(&mut url, request_data.amount / 100);
        push_str(&mut url, ".");
        let cents = request_data.amount % 100;
        push_decimal(&mut url, cents / 10);
        push_decimal(&mut url, cents % 10);
        push_str(&mut url, "&currency=");
        push_decimal(&mut url, request_data.fiat_currency.code());
        push_str(&mut url, "&currency_crypto=");
        push_decimal(&mut url, request_data.crypto_currency.code());
        push_str(&mut url, "&wait=");
        push_decimal(&mut url, if request_data.wait_for_confirmantions { 1 } else { 0 });
        proof {
            reveal_strlit(".");
            let a = request_data.amount as nat;
            assert(decimal(((a % 100) / 10) as nat) == seq![digit_char(((a % 100) / 10) as int)]);
            assert(decimal((a % 10) as nat) == seq![digit_char((a % 10) as int)]);
            assert(url@ =~= payment_request_url(self.api_key(), self.is_testnet(), *request_data));
        }
        proof {
            use_type_invariant(&request_data.order_id);
            lemma_payment_request_params(self.api_key(), self.is_testnet(), *request_data);
        }
        url
    }
}

} // verus!
