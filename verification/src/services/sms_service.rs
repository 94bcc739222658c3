//! Text messages to residents: what is sent, to whom, and when nothing is.
//!
//! The service composes messages and reads the gateway's reply. Delivery
//! itself, the request over the network, is the caller's business.

use vstd::prelude::*;
use crate::config::Config;
use crate::error::{AppError, AppResult};
use crate::utils::text::{push_signed_decimal, signed_decimal};

verus! {

/// Composes the text messages of the service.
pub struct SmsService {
    pub config: Config,
}

/// A text message as it is handed to the gateway.
#[derive(Debug)]
pub struct OutgoingSms {
    pub recipient: String,
    pub text: String,
    pub from: String,
}

/// What to do about a message.
#[derive(Debug)]
pub enum SmsDecision {
    /// Messages are switched off: nothing is sent, and that counts as
    /// delivered.
    Skip,
    /// Hand this message to the gateway.
    Send(OutgoingSms),
}

/// The text that carries a confirmation code.
pub open spec fn code_text(code: Seq<char>) -> Seq<char> {
    "Ваш код подтверждения LocalHood: "@ + code + ". Никому не сообщайте этот код."@
}

/// The text that tells a resident of a guest's entry.
pub open spec fn guest_entry_text(guest_name: Seq<char>, time: Seq<char>) -> Seq<char> {
    "LocalHood: Гость "@ + guest_name + " въехал в "@ + time + "."@
}

/// The text that tells a resident that a guest has not left in time.
pub open spec fn overstay_text(guest_name: Seq<char>, minutes: i32) -> Seq<char> {
    "LocalHood: Гость "@ + guest_name + " не выехал. Прошло "@ + signed_decimal(minutes as int)
        + " мин."@
}

/// The address of the gateway for the account with `api_key`.
pub open spec fn gateway_url(api_key: Seq<char>) -> Seq<char> {
    "https://api.mobizon.kz/service/message/sendsmsmessage?apiKey="@ + api_key
}

/// The text of the refusal when the gateway answers with an HTTP status
/// that is no success.
pub open spec fn gateway_status_text(status: Seq<char>) -> Seq<char> {
    "SMS API error: "@ + status
}

impl SmsService {
    pub fn new(config: Config) -> (r: Self)
        ensures
            r.config == config,
    {
        SmsService { config }
    }

    /// The decision that this service takes about a message with `text` for
    /// `phone`.
    pub open spec fn decides(&self, d: SmsDecision, phone: Seq<char>, text: Seq<char>) -> bool {
        if self.config.sms_enabled {
            d matches SmsDecision::Send(m) && m.recipient@ == phone && m.text@ == text && m.from@
                == self.config.sms_sender@
        } else {
            d is Skip
        }
    }

    /// The message with `text` for `phone`, from the sender this service is
    /// set up with.
    pub fn message(&self, phone: &str, text: String) -> (m: OutgoingSms)
        ensures
            m.recipient@ == phone@,
            m.text@ == text@,
            m.from@ == self.config.sms_sender@,
    {
        OutgoingSms { recipient: phone.to_owned(), text, from: self.config.sms_sender.clone() }
    }

    fn decide(&self, phone: &str, text: String) -> (d: SmsDecision)
        ensures
            self.decides(d, phone@, text@),
    {
        if self.config.sms_enabled {
            SmsDecision::Send(self.message(phone, text))
        } else {
            SmsDecision::Skip
        }
    }

    /// The confirmation `code` for `phone`.
    pub fn code_message(&self, phone: &str, code: &str) -> (d: SmsDecision)
        ensures
            self.decides(d, phone@, code_text(code@)),
    {
        let mut text = String::from_str("Ваш код подтверждения LocalHood: ");
        text.append(code);
        text.append(". Никому не сообщайте этот код.");
        self.decide(phone, text)
    }

    /// The word to the resident at `phone` that the guest `guest_name` came
    /// in at `time`.
    pub fn guest_entry_message(&self, phone: &str, guest_name: &str, time: &str) -> (d:
        SmsDecision)
        ensures
            self.decides(d, phone@, guest_entry_text(guest_name@, time@)),
    {
        let mut text = String::from_str("LocalHood: Гость ");
        text.append(guest_name);
        text.append(" въехал в ");
        text.append(time);
        text.append(".");
        self.decide(phone, text)
    }

    /// The word to the resident at `phone` that the guest `guest_name` is
    /// still inside after the `minutes` granted.
    pub fn overstay_message(&self, phone: &str, guest_name: &str, minutes: i32) -> (d:
        SmsDecision)
        ensures
            self.decides(d, phone@, overstay_text(guest_name@, minutes)),
    {
        let mut text = String::from_str("LocalHood: Гость ");
        text.append(guest_name);
        text.append(" не выехал. Прошло ");
        push_signed_decimal(&mut text, minutes);
        text.append(" мин.");
        self.decide(phone, text)
    }

    /// The address to which messages are posted.
    pub fn request_url(&self) -> (url: String)
        ensures
            url@ == gateway_url(self.config.sms_api_key@),
    {
        let mut url = String::from_str(
            "https://api.mobizon.kz/service/message/sendsmsmessage?apiKey=",
        );
        url.append(self.config.sms_api_key.as_str());
        url
    }

    /// What the gateway's reply means. The message was delivered where the
    /// HTTP status is a success and the reply carries the code 0. Any other
    /// status is refused under the status's own text, any other code under
    /// the message that came with it.
    pub fn read_reply(status_is_success: bool, status: &str, code: i32, message: String) -> (r:
        AppResult<()>)
        ensures
            r is Ok <==> status_is_success && code == 0,
            !status_is_success ==> (r matches Err(AppError::Sms(text)) && text@
                == gateway_status_text(status@)),
            status_is_success && code != 0 ==> (r matches Err(AppError::Sms(text)) && text@
                == message@),
    {
        if !status_is_success {
            let mut text = String::from_str("SMS API error: ");
            text.append(status);
            Err(AppError::Sms(text))
        } else if code != 0 {
            Err(AppError::Sms(message))
        } else {
            Ok(())
        }
    }
}

} // verus!
