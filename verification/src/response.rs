use vstd::prelude::*;

use crate::api::{lemma_status_url_params, payment_status_url, push_api_base};
use crate::query::query_params;
use crate::urlenc::{percent_decode, url_encoded};
use vstd::utf8::decode_utf8;
use crate::currency::CryptoCurrency;
use crate::text::push_str;
use crate::urlenc::url_encode;

verus! {

/// Error that might happen when communicating with payment API.
#[derive(Debug)]
pub enum APIError {
    /// The server reported success but sent no payment address.
    MissingData,
    /// Error returned by the server as specified by the API.
    Error { code: u64, message: String },
    /// Parsing the response as JSON failed; the parser's description.
    Deserialization(String),
    /// Underlying HTTP communication failed; the description of the failure.
    Http(String),
    /// HTTP protocol returned an unexpected status (its numeric code).
    UnexpectedStatus(u16),
    /// TLS communication failed; the description of the failure.
    Tls(String),
}

/// The ways payment might fail
#[derive(Debug)]
pub enum PaymentError {
    /// The amount of cryptocurrency sent to the address wasn't correct.
    IncorrectAmount,
    /// The payment wasn't received.
    NotReceived,
    /// Communication failed
    Communication(APIError),
    /// Other error returned by te server.
    Other { status_id: u64, status_message: Option<String> },
}

impl From<APIError> for PaymentError {
    fn from(error: APIError) -> (res: PaymentError) {
        PaymentError::Communication(error)
    }
}

impl vstd::std_specs::convert::FromSpecImpl<APIError> for PaymentError {
    open spec fn obeys_from_spec() -> bool {
        true
    }

    open spec fn from_spec(error: APIError) -> PaymentError {
        PaymentError::Communication(error)
    }
}

/// One payment address, as the server describes it.
#[derive(Debug)]
pub struct PaymentInfoInternal {
    pub address: String,
    pub amount: String,
    pub iframe_id: String,
    pub currency_id: CryptoCurrency,
    pub currency: String,
    pub msg: String,
}

/// The answer of the server to a payment request.
pub struct InitResponse {
    pub address: Vec<PaymentInfoInternal>,
    pub error: u64,
    pub error_msg: String,
}

/// A payment identifier that can be used to wait for payment.
#[derive(Debug)]
pub struct PaymentHandle {
    iframe_id: String,
    is_testnet: bool,
}

impl PaymentHandle {
    /// The iframe ID of the payment.
    pub closed spec fn iframe_id(self) -> Seq<char> {
        self.iframe_id@
    }

    /// Whether the payment was made on the test network.
    pub closed spec fn is_testnet(self) -> bool {
        self.is_testnet
    }

    /// Returns iframe ID associated with the payment.
    pub fn get_iframe_id(&self) -> (id: &str)
        ensures
            id@ == self.iframe_id(),
    {
        self.iframe_id.as_str()
    }

    /// Whether the payment was made on the test network.
    pub fn testnet(&self) -> (b: bool)
        ensures
            b == self.is_testnet(),
    {
        self.is_testnet
    }

    /// The URL of the API call that asks for the status of this payment.
    pub fn status_url(&self) -> (url: String)
        ensures
            url@ == payment_status_url(self.iframe_id(), self.is_testnet()),
            query_params(url@) == seq![
                ("iframe"@, url_encoded(self.iframe_id())),
                ("a"@, "get_iframe_status"@),
            ],
            decode_utf8(percent_decode(query_params(url@)[0].1)) == self.iframe_id(),
    {
        let mut url = String::new();
        push_api_base(&mut url, self.is_testnet);
        push_str(&mut url, "iframe=");
        let id = url_encode(self.iframe_id.as_str());
        push_str(&mut url, id.as_str());
        push_str(&mut url, "&a=get_iframe_status");
        assert(url@ =~= payment_status_url(self.iframe_id(), self.is_testnet()));
        proof {
            lemma_status_url_params(self.iframe_id(), self.is_testnet());
        }
        url
    }
}

/// Information about payment
#[derive(Debug)]
pub struct PaymentInfo {
    /// The address to pay to.
    pub address: String,
    /// The amount of currency - as string to avoid problems with rounding.
    pub amount: String,
    /// The selected crypto currency.
    pub currency_id: CryptoCurrency,
    /// The selected crypto currency as string.
    pub currency: String,
    /// Message
    pub msg: String,
    /// Payment handle.
    ///
    /// Allows waiting for payment or getting iframe ID.
    pub handle: PaymentHandle,
}

impl PaymentInfo {
    /// This information is what the server described in `internal`, for a
    /// payment on the test network exactly when `is_testnet`.
    pub open spec fn describes(self, internal: PaymentInfoInternal, is_testnet: bool) -> bool {
        &&& self.address == internal.address
        &&& self.amount == internal.amount
        &&& self.currency_id == internal.currency_id
        &&& self.currency == internal.currency
        &&& self.msg == internal.msg
        &&& self.handle.iframe_id() == internal.iframe_id@
        &&& self.handle.is_testnet() == is_testnet
    }

    /// The information the server described in `internal`, for a payment on
    /// the test network exactly when `is_testnet`.
    pub fn new(internal: PaymentInfoInternal, is_testnet: bool) -> (info: Self)
        ensures
            info.describes(internal, is_testnet),
    {
        PaymentInfo {
            address: internal.address,
            amount: internal.amount,
            currency_id: internal.currency_id,
            currency: internal.currency,
            msg: internal.msg,
            handle: PaymentHandle { iframe_id: internal.iframe_id, is_testnet },
        }
    }
}

impl InitResponse {
    /// Reads the answer to a payment request: the payment described by the
    /// last address the server sent when it reports no error.
    pub fn into_payment_info(self, is_testnet: bool) -> (res: Result<PaymentInfo, APIError>)
        ensures
            self.error != 0 ==> res == Err::<PaymentInfo, APIError>(
                APIError::Error { code: self.error, message: self.error_msg },
            ),
            self.error == 0 && self.address@.len() == 0 ==> res == Err::<PaymentInfo, APIError>(
                APIError::MissingData,
            ),
            self.error == 0 && self.address@.len() > 0 ==> (res matches Ok(info) && info.describes(
                self.address@.last(),
                is_testnet,
            )),
    {
        if self.error == 0 {
            let mut addresses = self.address;
            match addresses.pop() {
                Some(internal) => Ok(PaymentInfo::new(internal, is_testnet)),
                None => Err(APIError::MissingData),
            }
        } else {
            Err(APIError::Error { code: self.error, message: self.error_msg })
        }
    }
}

/// The HTTP status of a successful answer.
pub const HTTP_OK: u16 = 200;

/// Whether an answer's HTTP status lets its body be read: only `200 OK`
/// does; any other status is an `UnexpectedStatus` error.
pub fn check_http_status(status: u16) -> (res: Result<(), APIError>)
    ensures
        status == HTTP_OK ==> res == Ok::<(), APIError>(()),
        status != HTTP_OK ==> res == Err::<(), APIError>(APIError::UnexpectedStatus(status)),
{
    if status == HTTP_OK {
        Ok(())
    } else {
        Err(APIError::UnexpectedStatus(status))
    }
}

/// The status the server reports for a paid payment.
pub const STATUS_PAID: u64 = 1;

/// The status the server reports when the wrong amount was paid.
pub const STATUS_INCORRECT_AMOUNT: u64 = 2;

/// The status the server reports while the payment is awaited.
pub const STATUS_PENDING: u64 = 4;

/// The status the server reports when no payment was received.
pub const STATUS_NOT_RECEIVED: u64 = 5;

/// The answer of the server to a status query.
pub struct StatusResponse {
    pub error: u64,
    pub error_msg: String,
    pub status_msg: Option<String>,
    pub status_id: u64,
}

/// What a status answer means: `Ok` when the payment is done, `Err(None)`
/// while it is still awaited, `Err(Some(e))` when it failed with `e`.
pub open spec fn status_outcome(response: StatusResponse) -> Result<(), Option<PaymentError>> {
    if response.error == 0 {
        if response.status_id == STATUS_PAID {
            Ok(())
        } else if response.status_id == STATUS_INCORRECT_AMOUNT {
            Err(Some(PaymentError::IncorrectAmount))
        } else if response.status_id == STATUS_PENDING {
            Err(None)
        } else if response.status_id == STATUS_NOT_RECEIVED {
            Err(Some(PaymentError::NotReceived))
        } else {
            Err(
                Some(
                    PaymentError::Other {
                        status_id: response.status_id,
                        status_message: response.status_msg,
                    },
                ),
            )
        }
    } else {
        Err(
            Some(
                PaymentError::Communication(
                    APIError::Error { code: response.error, message: response.error_msg },
                ),
            ),
        )
    }
}

impl StatusResponse {
    /// Reads the answer: `Ok` when paid, `Err(None)` while the payment is
    /// still awaited, `Err(Some(e))` when it failed.
    pub fn into_result(self) -> (res: Result<(), Option<PaymentError>>)
        ensures
            res == status_outcome(self),
            res is Ok <==> (self.error == 0 && self.status_id == STATUS_PAID),
            res == Err::<(), Option<PaymentError>>(None) <==> (self.error == 0 && self.status_id
                == STATUS_PENDING),
            self.error != 0 ==> res == Err::<(), Option<PaymentError>>(
                Some(
                    PaymentError::Communication(
                        APIError::Error { code: self.error, message: self.error_msg },
                    ),
                ),
            ),
    {
        if self.error == 0 {
            match self.status_id {
                STATUS_PAID => Ok(()),
                STATUS_INCORRECT_AMOUNT => Err(Some(PaymentError::IncorrectAmount)),
                STATUS_PENDING => Err(None),
                STATUS_NOT_RECEIVED => Err(Some(PaymentError::NotReceived)),
                _ => Err(
                    Some(
                        PaymentError::Other {
                            status_id: self.status_id,
                            status_message: self.status_msg,
                        },
                    ),
                ),
            }
        } else {
            Err(
                Some(
                    PaymentError::Communication(
                        APIError::Error { code: self.error, message: self.error_msg },
                    ),
                ),
            )
        }
    }
}

impl From<StatusResponse> for Result<(), Option<PaymentError>> {
    fn from(response: StatusResponse) -> (res: Result<(), Option<PaymentError>>)
        ensures
            res is Ok <==> (response.error == 0 && response.status_id == STATUS_PAID),
            res == Err::<(), Option<PaymentError>>(None) <==> (response.error == 0
                && response.status_id == STATUS_PENDING),
    {
        response.into_result()
    }
}

impl vstd::std_specs::convert::FromSpecImpl<StatusResponse> for Result<(), Option<PaymentError>> {
    open spec fn obeys_from_spec() -> bool {
        true
    }

    open spec fn from_spec(response: StatusResponse) -> Result<(), Option<PaymentError>> {
        status_outcome(response)
    }
}

/// Whether a failed status query is asked again: only while the outcome
/// carries no error, that is while the payment is still awaited.
pub fn should_retry<T>(error: &Option<T>) -> (retry: bool)
    ensures
        retry == error is None,
{
    error.is_none()
}

/// The status query is asked again exactly while the server reports the
/// payment as awaited, and the wait ends in success exactly when it reports
/// the payment as paid.
pub proof fn lemma_wait_outcome(response: StatusResponse)
    ensures
        status_outcome(response) == Err::<(), Option<PaymentError>>(None) <==> (response.error
            == 0 && response.status_id == STATUS_PENDING),
        status_outcome(response) is Ok <==> (response.error == 0 && response.status_id
            == STATUS_PAID),
{
}

/// How each answer to a status query is read. An answer with a non-zero
/// error is the server's error, whatever its status; with no error, status 1
/// is paid, 2 the wrong amount, 4 still awaited, 5 not received, and any
/// other status is reported with its number and message.
pub proof fn lemma_status_answers(response: StatusResponse)
    ensures
        response.error != 0 ==> status_outcome(response) == Err::<(), Option<PaymentError>>(
            Some(
                PaymentError::Communication(
                    APIError::Error { code: response.error, message: response.error_msg },
                ),
            ),
        ),
        response.error == 0 && response.status_id == 1 ==> status_outcome(response) == Ok::<
            (),
            Option<PaymentError>,
        >(()),
        response.error == 0 && response.status_id == 2 ==> status_outcome(response) == Err::<
            (),
            Option<PaymentError>,
        >(Some(PaymentError::IncorrectAmount)),
        response.error == 0 && response.status_id == 4 ==> status_outcome(response) == Err::<
            (),
            Option<PaymentError>,
        >(None),
        response.error == 0 && response.status_id == 5 ==> status_outcome(response) == Err::<
            (),
            Option<PaymentError>,
        >(Some(PaymentError::NotReceived)),
        response.error == 0 && response.status_id != 1 && response.status_id != 2
            && response.status_id != 4 && response.status_id != 5 ==> status_outcome(response)
            == Err::<(), Option<PaymentError>>(
            Some(
                PaymentError::Other {
                    status_id: response.status_id,
                    status_message: response.status_msg,
                },
            ),
        ),
{
}

} // verus!
