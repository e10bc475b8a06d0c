//! The fixed record of credentials: one optional entry per known connector,
//! each of the shape that the connector is known to need.

use crate::records::{BodyKey, HeaderKey, MultiAuthKey, SignatureKey};
use vstd::prelude::*;

verus! {

/// The credentials of every known connector. A connector that the
/// configuration leaves out has no entry.
pub struct ConnectorAuthentication {
    pub aci: Option<BodyKey>,
    pub adyen: Option<BodyKey>,
    pub adyen_uk: Option<BodyKey>,
    pub airwallex: Option<BodyKey>,
    pub authorizedotnet: Option<BodyKey>,
    pub bambora: Option<BodyKey>,
    pub bitpay: Option<HeaderKey>,
    pub bluesnap: Option<BodyKey>,
    pub cashtocode: Option<BodyKey>,
    pub checkout: Option<SignatureKey>,
    pub coinbase: Option<HeaderKey>,
    pub cryptopay: Option<BodyKey>,
    pub cybersource: Option<SignatureKey>,
    pub dlocal: Option<SignatureKey>,
    /// Filled only where the dummy connector is part of the build.
    pub dummyconnector: Option<HeaderKey>,
    pub fiserv: Option<SignatureKey>,
    pub forte: Option<MultiAuthKey>,
    pub globalpay: Option<BodyKey>,
    pub globepay: Option<BodyKey>,
    pub iatapay: Option<SignatureKey>,
    pub mollie: Option<BodyKey>,
    pub multisafepay: Option<HeaderKey>,
    pub nexinets: Option<BodyKey>,
    pub noon: Option<SignatureKey>,
    pub nmi: Option<HeaderKey>,
    pub nuvei: Option<SignatureKey>,
    pub opayo: Option<HeaderKey>,
    pub opennode: Option<HeaderKey>,
    pub payeezy: Option<SignatureKey>,
    pub payme: Option<BodyKey>,
    pub paypal: Option<BodyKey>,
    pub payu: Option<BodyKey>,
    pub powertranz: Option<BodyKey>,
    pub rapyd: Option<BodyKey>,
    pub shift4: Option<HeaderKey>,
    pub stripe: Option<HeaderKey>,
    pub stripe_au: Option<HeaderKey>,
    pub stripe_uk: Option<HeaderKey>,
    pub trustpay: Option<SignatureKey>,
    pub tsys: Option<SignatureKey>,
    pub worldpay: Option<BodyKey>,
    pub worldline: Option<SignatureKey>,
    pub zen: Option<HeaderKey>,
    pub automation_configs: Option<AutomationConfigs>,
}

/// Settings of the browser automation that drives the connectors' pages.
#[derive(Debug)]
pub struct AutomationConfigs {
    pub hs_base_url: Option<String>,
    pub hs_api_key: Option<String>,
    pub hs_test_browser: Option<String>,
    pub chrome_profile_path: Option<String>,
    pub firefox_profile_path: Option<String>,
    pub pypl_email: Option<String>,
    pub pypl_pass: Option<String>,
    pub gmail_email: Option<String>,
    pub gmail_pass: Option<String>,
    pub configs_url: Option<String>,
    pub stripe_pub_key: Option<String>,
    pub testcases_path: Option<String>,
    pub bluesnap_gateway_merchant_id: Option<String>,
    pub globalpay_gateway_merchant_id: Option<String>,
    pub run_minimum_steps: Option<bool>,
    pub airwallex_merchant_name: Option<String>,
}

/// A copy of an optional single key.
fn copy_header(entry: &Option<HeaderKey>) -> (r: Option<HeaderKey>)
    ensures
        r == *entry,
{
    match entry {
        Some(value) => Some(value.clone()),
        None => None,
    }
}

/// A copy of an optional pair of keys.
fn copy_body(entry: &Option<BodyKey>) -> (r: Option<BodyKey>)
    ensures
        r == *entry,
{
    match entry {
        Some(value) => Some(value.clone()),
        None => None,
    }
}

/// A copy of an optional triple of keys.
fn copy_signature(entry: &Option<SignatureKey>) -> (r: Option<SignatureKey>)
    ensures
        r == *entry,
{
    match entry {
        Some(value) => Some(value.clone()),
        None => None,
    }
}

/// A copy of an optional quadruple of keys.
fn copy_multi(entry: &Option<MultiAuthKey>) -> (r: Option<MultiAuthKey>)
    ensures
        r == *entry,
{
    match entry {
        Some(value) => Some(value.clone()),
        None => None,
    }
}

/// A copy of optional automation settings.
fn copy_configs(entry: &Option<AutomationConfigs>) -> (r: Option<AutomationConfigs>)
    ensures
        r == *entry,
{
    match entry {
        Some(value) => Some(value.clone()),
        None => None,
    }
}

/// A copy of an optional text.
fn copy_text(entry: &Option<String>) -> (r: Option<String>)
    ensures
        r == *entry,
{
    match entry {
        Some(value) => Some(value.clone()),
        None => None,
    }
}

/// A copy of an optional flag.
fn copy_flag(entry: &Option<bool>) -> (r: Option<bool>)
    ensures
        r == *entry,
{
    match entry {
        Some(value) => Some(*value),
        None => None,
    }
}

impl Clone for AutomationConfigs {
    /// A second set of the same settings.
    fn clone(&self) -> (r: Self)
        ensures
            r == *self,
    {
        AutomationConfigs {
            hs_base_url: copy_text(&self.hs_base_url),
            hs_api_key: copy_text(&self.hs_api_key),
            hs_test_browser: copy_text(&self.hs_test_browser),
            chrome_profile_path: copy_text(&self.chrome_profile_path),
            firefox_profile_path: copy_text(&self.firefox_profile_path),
            pypl_email: copy_text(&self.pypl_email),
            pypl_pass: copy_text(&self.pypl_pass),
            gmail_email: copy_text(&self.gmail_email),
            gmail_pass: copy_text(&self.gmail_pass),
            configs_url: copy_text(&self.configs_url),
            stripe_pub_key: copy_text(&self.stripe_pub_key),
            testcases_path: copy_text(&self.testcases_path),
            bluesnap_gateway_merchant_id: copy_text(&self.bluesnap_gateway_merchant_id),
            globalpay_gateway_merchant_id: copy_text(&self.globalpay_gateway_merchant_id),
            run_minimum_steps: copy_flag(&self.run_minimum_steps),
            airwallex_merchant_name: copy_text(&self.airwallex_merchant_name),
        }
    }
}

impl Clone for ConnectorAuthentication {
    /// A second record with the same entries.
    fn clone(&self) -> (r: Self)
        ensures
            r == *self,
    {
        ConnectorAuthentication {
            aci: copy_body(&self.aci),
            adyen: copy_body(&self.adyen),
            adyen_uk: copy_body(&self.adyen_uk),
            airwallex: copy_body(&self.airwallex),
            authorizedotnet: copy_body(&self.authorizedotnet),
            bambora: copy_body(&self.bambora),
            bitpay: copy_header(&self.bitpay),
            bluesnap: copy_body(&self.bluesnap),
            cashtocode: copy_body(&self.cashtocode),
            checkout: copy_signature(&self.checkout),
            coinbase: copy_header(&self.coinbase),
            cryptopay: copy_body(&self.cryptopay),
            cybersource: copy_signature(&self.cybersource),
            dlocal: copy_signature(&self.dlocal),
            dummyconnector: copy_header(&self.dummyconnector),
            fiserv: copy_signature(&self.fiserv),
            forte: copy_multi(&self.forte),
            globalpay: copy_body(&self.globalpay),
            globepay: copy_body(&self.globepay),
            iatapay: copy_signature(&self.iatapay),
            mollie: copy_body(&self.mollie),
            multisafepay: copy_header(&self.multisafepay),
            nexinets: copy_body(&self.nexinets),
            noon: copy_signature(&self.noon),
            nmi: copy_header(&self.nmi),
            nuvei: copy_signature(&self.nuvei),
            opayo: copy_header(&self.opayo),
            opennode: copy_header(&self.opennode),
            payeezy: copy_signature(&self.payeezy),
            payme: copy_body(&self.payme),
            paypal: copy_body(&self.paypal),
            payu: copy_body(&self.payu),
            powertranz: copy_body(&self.powertranz),
            rapyd: copy_body(&self.rapyd),
            shift4: copy_header(&self.shift4),
            stripe: copy_header(&self.stripe),
            stripe_au: copy_header(&self.stripe_au),
            stripe_uk: copy_header(&self.stripe_uk),
            trustpay: copy_signature(&self.trustpay),
            tsys: copy_signature(&self.tsys),
            worldpay: copy_body(&self.worldpay),
            worldline: copy_signature(&self.worldline),
            zen: copy_header(&self.zen),
            automation_configs: copy_configs(&self.automation_configs),
        }
    }
}

} // verus!
