use vstd::prelude::*;
use vstd::string::*;
use crate::config::Config;

verus! {

/// Where quote notifications are sent from and to, and the key of the
/// sending service.
#[derive(Debug, Clone)]
pub struct EmailService {
    from: String,
    to: String,
    api_key: String,
}

impl EmailService {
    pub closed spec fn spec_from(&self) -> Seq<char> {
        self.from@
    }

    pub closed spec fn spec_to(&self) -> Seq<char> {
        self.to@
    }

    pub closed spec fn spec_api_key(&self) -> Seq<char> {
        self.api_key@
    }

    pub fn new(config: &Config) -> (s: Self)
        ensures
            s.spec_from() == config.email_from@,
            s.spec_to() == config.email_to@,
            s.spec_api_key() == config.email_api_key@,
    {
        EmailService {
            from: config.email_from.clone(),
            to: config.email_to.clone(),
            api_key: config.email_api_key.clone(),
        }
    }

    pub fn from(&self) -> (r: &str)
        ensures
            r@ == self.spec_from(),
    {
        self.from.as_str()
    }

    pub fn to(&self) -> (r: &str)
        ensures
            r@ == self.spec_to(),
    {
        self.to.as_str()
    }

    pub fn api_key(&self) -> (r: &str)
        ensures
            r@ == self.spec_api_key(),
    {
        self.api_key.as_str()
    }
}

/// A quote notification, ready to be rendered and sent: sender, recipient,
/// subject and the values the message shows.
#[derive(Debug, Clone, PartialEq, Eq)]
pub struct QuoteNotification {
    pub from: String,
    pub to: String,
    pub subject: String,
    pub company_name: String,
    pub ruc: String,
    pub contact_name: String,
    pub email: String,
    pub phone: String,
    pub products: String,
    pub message: String,
}

/// The subject of a quote notification.
pub open spec fn quote_subject(company_name: Seq<char>, ruc: Seq<char>) -> Seq<char> {
    "Cotización - "@ + company_name + " (RUC: "@ + ruc + ")"@
}

/// An optional value as shown in a message, with its stand-in when absent.
pub open spec fn shown(value: Option<&str>, absent: Seq<char>) -> Seq<char> {
    match value {
        Some(v) => v@,
        None => absent,
    }
}

fn shown_exec(value: Option<&str>, absent: &str) -> (r: String)
    ensures
        r@ == shown(value, absent@),
{
    match value {
        Some(v) => String::from_str(v),
        None => String::from_str(absent),
    }
}

impl EmailService {
    /// The notification of a new quote request, sent from the configured
    /// sender to the configured recipient.
    pub fn quote_notification(
        &self,
        company_name: &str,
        contact_name: &str,
        email: &str,
        phone: Option<&str>,
        ruc: &str,
        products: &str,
        message: Option<&str>,
    ) -> (n: QuoteNotification)
        ensures
            n.from@ == self.spec_from(),
            n.to@ == self.spec_to(),
            n.subject@ == quote_subject(company_name@, ruc@),
            n.company_name@ == company_name@,
            n.ruc@ == ruc@,
            n.contact_name@ == contact_name@,
            n.email@ == email@,
            n.phone@ == shown(phone, "No proporcionado"@),
            n.products@ == products@,
            n.message@ == shown(message, "Ninguno"@),
    {
        let mut subject = String::from_str("Cotización - ");
        subject.append(company_name);
        subject.append(" (RUC: ");
        subject.append(ruc);
        subject.append(")");
        QuoteNotification {
            from: self.from.clone(),
            to: self.to.clone(),
            subject,
            company_name: String::from_str(company_name),
            ruc: String::from_str(ruc),
            contact_name: String::from_str(contact_name),
            email: String::from_str(email),
            phone: shown_exec(phone, "No proporcionado"),
            products: String::from_str(products),
            message: shown_exec(message, "Ninguno"),
        }
    }
}

} // verus!
