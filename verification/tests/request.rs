use cdpay::{CDPayBuilder, CryptoCurrency, FiatCurrency, OrderID, RequestData, Timeout};

fn sample_request(amount: u64) -> RequestData {
    RequestData {
        timeout: Timeout::new(10).unwrap(),
        order_id: OrderID::new("12345".into()).unwrap(),
        amount,
        fiat_currency: FiatCurrency::Eur,
        crypto_currency: CryptoCurrency::BTC,
        wait_for_confirmantions: false,
    }
}

#[test]
fn timeout_accepts_documented_range() {
    assert!(Timeout::new(4).is_none());
    assert!(Timeout::new(5).is_some());
    assert!(Timeout::new(10).is_some());
    assert!(Timeout::new(30).is_some());
    assert!(Timeout::new(31).is_none());
    assert!(Timeout::new(0).is_none());
    assert!(Timeout::new(255).is_none());
}

#[test]
fn timeout_converts_back_to_minutes() {
    for minutes in 5u8..=30 {
        assert_eq!(u8::from(Timeout::new(minutes).unwrap()), minutes);
    }
}

#[test]
fn order_id_accepts_allowed_characters() {
    let id = OrderID::new("Order-12_ab".to_string()).unwrap();
    assert_eq!(id.as_str(), "Order-12_ab");
    assert_eq!(id.as_ref(), "Order-12_ab");
    let borrowed: &str = <&str>::from(&id);
    assert_eq!(borrowed, "Order-12_ab");
    assert_eq!(String::from(id), "Order-12_ab");
    assert!(OrderID::new(String::new()).is_some());
}

#[test]
fn order_id_length_limit() {
    assert!(OrderID::new("a".repeat(20)).is_some());
    assert!(OrderID::new("a".repeat(21)).is_none());
}

#[test]
fn order_id_rejects_other_characters() {
    assert!(OrderID::new("abc!".to_string()).is_none());
    assert!(OrderID::new("a b".to_string()).is_none());
    assert!(OrderID::new("a&b=c".to_string()).is_none());
    assert!(OrderID::new("caf\u{e9}".to_string()).is_none());
    assert!(OrderID::new("a.b".to_string()).is_none());
}

#[test]
fn currency_codes() {
    assert_eq!(FiatCurrency::Eur.code(), 1);
    assert_eq!(FiatCurrency::USD.code(), 2);
    assert_eq!(FiatCurrency::GBP.code(), 3);
    assert_eq!(FiatCurrency::CAD.code(), 4);
    assert_eq!(FiatCurrency::AUD.code(), 5);
    assert_eq!(FiatCurrency::JPY.code(), 9);
    assert_eq!(FiatCurrency::CNY.code(), 13);
    assert_eq!(FiatCurrency::CZK.code(), 16);
    assert_eq!(FiatCurrency::AED.code(), 17);
    assert_eq!(CryptoCurrency::BTC.code(), 6);
    assert_eq!(CryptoCurrency::WDC.code(), 7);
    assert_eq!(CryptoCurrency::LTC.code(), 8);
    assert_eq!(CryptoCurrency::Dash.code(), 19);
}

#[test]
fn currency_code_roundtrip() {
    for c in [
        FiatCurrency::Eur,
        FiatCurrency::USD,
        FiatCurrency::GBP,
        FiatCurrency::CAD,
        FiatCurrency::AUD,
        FiatCurrency::JPY,
        FiatCurrency::CNY,
        FiatCurrency::CZK,
        FiatCurrency::AED,
    ] {
        assert_eq!(FiatCurrency::from_code(c.code()), Some(c));
    }
    for c in [CryptoCurrency::BTC, CryptoCurrency::WDC, CryptoCurrency::LTC, CryptoCurrency::Dash] {
        assert_eq!(CryptoCurrency::from_code(c.code()), Some(c));
    }
    for code in 0u64..40 {
        if let Some(c) = FiatCurrency::from_code(code) {
            assert_eq!(c.code(), code);
        }
        if let Some(c) = CryptoCurrency::from_code(code) {
            assert_eq!(c.code(), code);
        }
    }
    assert_eq!(FiatCurrency::from_code(6), None);
    assert_eq!(CryptoCurrency::from_code(1), None);
    assert_eq!(CryptoCurrency::from_code(u64::MAX), None);
}

#[test]
fn payment_request_url_on_testnet() {
    let builder = CDPayBuilder::new_test("cc97ef07-0654-11e6-88cc-00155d00c800".into());
    assert!(builder.testnet());
    assert_eq!(
        builder.payment_request_url(&sample_request(1337)),
        "https://www.cryptodiggerstest.eu/api/api.php?apikey=cc97ef07-0654-11e6-88cc-00155d00c800\
         &a=new_address&timeout=10&order_id=12345&amount=13.37&currency=1&currency_crypto=6&wait=0"
    );
}

#[test]
fn payment_request_url_on_mainnet() {
    let builder = CDPayBuilder::new("key".into());
    assert!(!builder.testnet());
    let data = RequestData {
        timeout: Timeout::new(30).unwrap(),
        order_id: OrderID::new("A-1_z".into()).unwrap(),
        amount: 2_000_000,
        fiat_currency: FiatCurrency::AED,
        crypto_currency: CryptoCurrency::Dash,
        wait_for_confirmantions: true,
    };
    assert_eq!(
        builder.payment_request_url(&data),
        "https://www.cryptodiggers.eu/api/api.php?apikey=key&a=new_address&timeout=30\
         &order_id=A-1_z&amount=20000.00&currency=17&currency_crypto=19&wait=1"
    );
}

#[test]
fn payment_request_amount_keeps_two_cent_digits() {
    let builder = CDPayBuilder::new("k".into());
    let url = builder.payment_request_url(&sample_request(1305));
    assert!(url.contains("&amount=13.05&"));
    let url = builder.payment_request_url(&sample_request(5));
    assert!(url.contains("&amount=0.05&"));
    let url = builder.payment_request_url(&sample_request(0));
    assert!(url.contains("&amount=0.00&"));
    let url = builder.payment_request_url(&sample_request(u64::MAX));
    assert!(url.contains("&amount=184467440737095516.15&"));
}

#[test]
fn payment_request_amount_reads_back_as_cents() {
    let builder = CDPayBuilder::new("k".into());
    for amount in [0u64, 1, 9, 10, 99, 100, 101, 1305, 1337, 99_999, 123_456_789] {
        let url = builder.payment_request_url(&sample_request(amount));
        let start = url.find("&amount=").unwrap() + "&amount=".len();
        let rest = &url[start..];
        let text = &rest[..rest.find('&').unwrap()];
        let (units, cents) = text.split_once('.').unwrap();
        assert_eq!(cents.len(), 2);
        let value = units.parse::<u64>().unwrap() * 100 + cents.parse::<u64>().unwrap();
        assert_eq!(value, amount);
    }
}

#[test]
fn payment_request_api_key_is_percent_encoded() {
    let builder = CDPayBuilder::new("a b&c=d/\u{e9}".into());
    let url = builder.payment_request_url(&sample_request(100));
    assert!(url.starts_with(
        "https://www.cryptodiggers.eu/api/api.php?apikey=a%20b%26c%3Dd%2F%C3%A9&a=new_address&"
    ));
    assert_eq!(url.matches('&').count(), 7);
    assert_eq!(url.matches('=').count(), 8);
}

#[test]
fn payment_request_url_documented_example() {
    let builder = CDPayBuilder::new("key".into());
    let data = RequestData {
        timeout: Timeout::new(30).unwrap(),
        order_id: OrderID::new("A-7".into()).unwrap(),
        amount: 1305,
        fiat_currency: FiatCurrency::CZK,
        crypto_currency: CryptoCurrency::LTC,
        wait_for_confirmantions: true,
    };
    assert_eq!(
        builder.payment_request_url(&data),
        "https://www.cryptodiggers.eu/api/api.php?apikey=key&a=new_address&timeout=30\
         &order_id=A-7&amount=13.05&currency=16&currency_crypto=8&wait=1"
    );
}
