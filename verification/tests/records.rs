use connector_auth::auth::ConnectorAuthType;
use connector_auth::records::{BodyKey, HeaderKey, MultiAuthKey, SignatureKey};
use connector_auth::schema::{AutomationConfigs, ConnectorAuthentication};
use connector_auth::secret::{Secret, REDACTED};

const PLACEHOLDER: &str = "*** alloc::string::String ***";

fn secret(s: &str) -> Secret {
    Secret::new(s.to_string())
}

fn no_connectors() -> ConnectorAuthentication {
    ConnectorAuthentication {
        aci: None,
        adyen: None,
        adyen_uk: None,
        airwallex: None,
        authorizedotnet: None,
        bambora: None,
        bitpay: None,
        bluesnap: None,
        cashtocode: None,
        checkout: None,
        coinbase: None,
        cryptopay: None,
        cybersource: None,
        dlocal: None,
        dummyconnector: None,
        fiserv: None,
        forte: None,
        globalpay: None,
        globepay: None,
        iatapay: None,
        mollie: None,
        multisafepay: None,
        nexinets: None,
        noon: None,
        nmi: None,
        nuvei: None,
        opayo: None,
        opennode: None,
        payeezy: None,
        payme: None,
        paypal: None,
        payu: None,
        powertranz: None,
        rapyd: None,
        shift4: None,
        stripe: None,
        stripe_au: None,
        stripe_uk: None,
        trustpay: None,
        tsys: None,
        worldpay: None,
        worldline: None,
        zen: None,
        automation_configs: None,
    }
}

#[test]
fn peek_reads_what_was_wrapped() {
    assert_eq!(secret("sk_live_1").peek(), "sk_live_1");
    assert_eq!(secret("").peek(), "");
}

#[test]
fn placeholder_names_the_type() {
    assert_eq!(REDACTED, PLACEHOLDER);
}

#[test]
fn redacted_is_the_placeholder() {
    assert_eq!(secret("sk_live_1").redacted(), PLACEHOLDER);
    assert_eq!(secret("").redacted(), PLACEHOLDER);
    assert_eq!(secret(PLACEHOLDER).redacted(), PLACEHOLDER);
}

#[test]
fn redacted_does_not_show_the_text() {
    let text = "very-secret-value";
    assert!(!secret(text).redacted().contains(text));
}

#[test]
fn clone_of_a_secret_keeps_the_text() {
    let first = secret("abc");
    let second = first.clone();
    assert_eq!(first.peek(), second.peek());
}

#[test]
fn header_key_keeps_its_text() {
    let key = HeaderKey { api_key: secret("k1") };
    assert_eq!(
        ConnectorAuthType::from(key),
        ConnectorAuthType::HeaderKey { api_key: "k1".to_string() }
    );
}

#[test]
fn body_key_keeps_its_text() {
    let key = BodyKey { api_key: secret("k1"), key1: secret("k2") };
    assert_eq!(
        ConnectorAuthType::from(key),
        ConnectorAuthType::BodyKey { api_key: "k1".to_string(), key1: "k2".to_string() }
    );
}

#[test]
fn signature_key_keeps_its_text() {
    let key = SignatureKey { api_key: secret("k1"), key1: secret("k2"), api_secret: secret("k3") };
    assert_eq!(
        ConnectorAuthType::from(key),
        ConnectorAuthType::SignatureKey {
            api_key: "k1".to_string(),
            key1: "k2".to_string(),
            api_secret: "k3".to_string(),
        }
    );
}

#[test]
fn multi_auth_key_keeps_its_text() {
    let key = MultiAuthKey {
        api_key: secret("k1"),
        key1: secret("k2"),
        api_secret: secret("k3"),
        key2: secret("k4"),
    };
    assert_eq!(
        ConnectorAuthType::from(key),
        ConnectorAuthType::MultiAuthKey {
            api_key: "k1".to_string(),
            key1: "k2".to_string(),
            api_secret: "k3".to_string(),
            key2: "k4".to_string(),
        }
    );
}

#[test]
fn conversion_keeps_empty_and_unusual_text() {
    let key = BodyKey { api_key: secret(""), key1: secret(" \u{1f511}\t\"quoted\" ") };
    assert_eq!(
        ConnectorAuthType::from(key),
        ConnectorAuthType::BodyKey {
            api_key: String::new(),
            key1: " \u{1f511}\t\"quoted\" ".to_string(),
        }
    );
}

#[test]
fn into_gives_the_same_as_from() {
    let auth: ConnectorAuthType = HeaderKey { api_key: secret("k1") }.into();
    assert_eq!(auth, ConnectorAuthType::from(HeaderKey { api_key: secret("k1") }));
}

#[test]
fn conversion_of_a_clone_leaves_the_record() {
    let key = SignatureKey { api_key: secret("a"), key1: secret("b"), api_secret: secret("c") };
    let auth = ConnectorAuthType::from(key.clone());
    assert_eq!(key.api_key.peek(), "a");
    assert_eq!(key.key1.peek(), "b");
    assert_eq!(key.api_secret.peek(), "c");
    assert_eq!(
        auth,
        ConnectorAuthType::SignatureKey {
            api_key: "a".to_string(),
            key1: "b".to_string(),
            api_secret: "c".to_string(),
        }
    );
}

#[test]
fn record_holds_each_connector_in_its_shape() {
    let mut record = no_connectors();
    record.stripe = Some(HeaderKey { api_key: secret("sk") });
    record.forte = Some(MultiAuthKey {
        api_key: secret("a"),
        key1: secret("b"),
        api_secret: secret("c"),
        key2: secret("d"),
    });
    let copy = record.clone();
    assert!(copy.aci.is_none());
    assert_eq!(
        ConnectorAuthType::from(copy.stripe.unwrap()),
        ConnectorAuthType::HeaderKey { api_key: "sk".to_string() }
    );
    assert_eq!(
        ConnectorAuthType::from(copy.forte.unwrap()),
        ConnectorAuthType::MultiAuthKey {
            api_key: "a".to_string(),
            key1: "b".to_string(),
            api_secret: "c".to_string(),
            key2: "d".to_string(),
        }
    );
}

#[test]
fn record_carries_the_automation_settings() {
    let mut record = no_connectors();
    record.automation_configs = Some(AutomationConfigs {
        hs_base_url: Some("http://localhost:8080".to_string()),
        hs_api_key: None,
        hs_test_browser: Some("firefox".to_string()),
        chrome_profile_path: None,
        firefox_profile_path: None,
        pypl_email: None,
        pypl_pass: None,
        gmail_email: None,
        gmail_pass: None,
        configs_url: None,
        stripe_pub_key: None,
        testcases_path: None,
        bluesnap_gateway_merchant_id: None,
        globalpay_gateway_merchant_id: None,
        run_minimum_steps: Some(true),
        airwallex_merchant_name: None,
    });
    let configs = record.automation_configs.unwrap();
    assert_eq!(configs.hs_base_url.as_deref(), Some("http://localhost:8080"));
    assert_eq!(configs.hs_test_browser.as_deref(), Some("firefox"));
    assert_eq!(configs.run_minimum_steps, Some(true));
    assert!(format!("{:?}", configs).contains("run_minimum_steps"));
}

#[test]
fn clone_of_an_authentication_value_is_equal() {
    let values = vec![
        ConnectorAuthType::NoKey,
        ConnectorAuthType::HeaderKey { api_key: "a".to_string() },
        ConnectorAuthType::BodyKey { api_key: "a".to_string(), key1: "b".to_string() },
        ConnectorAuthType::SignatureKey {
            api_key: "a".to_string(),
            key1: "b".to_string(),
            api_secret: "c".to_string(),
        },
        ConnectorAuthType::MultiAuthKey {
            api_key: "a".to_string(),
            key1: "b".to_string(),
            api_secret: "c".to_string(),
            key2: "d".to_string(),
        },
    ];
    for value in values {
        assert_eq!(value.clone(), value);
    }
}

#[test]
fn shapes_with_the_same_text_differ() {
    assert_ne!(
        ConnectorAuthType::HeaderKey { api_key: String::new() },
        ConnectorAuthType::NoKey
    );
    assert_ne!(
        ConnectorAuthType::BodyKey { api_key: "a".to_string(), key1: String::new() },
        ConnectorAuthType::HeaderKey { api_key: "a".to_string() }
    );
}

#[test]
fn clone_of_a_record_keeps_every_secret() {
    let key = MultiAuthKey {
        api_key: secret("a"),
        key1: secret("b"),
        api_secret: secret("c"),
        key2: secret("d"),
    };
    let copy = key.clone();
    assert_eq!(copy.api_key.peek(), "a");
    assert_eq!(copy.key1.peek(), "b");
    assert_eq!(copy.api_secret.peek(), "c");
    assert_eq!(copy.key2.peek(), "d");
}

#[test]
fn clone_of_the_automation_settings_keeps_them() {
    let configs = AutomationConfigs {
        hs_base_url: Some("u".to_string()),
        hs_api_key: Some("k".to_string()),
        hs_test_browser: None,
        chrome_profile_path: None,
        firefox_profile_path: None,
        pypl_email: None,
        pypl_pass: None,
        gmail_email: None,
        gmail_pass: None,
        configs_url: None,
        stripe_pub_key: None,
        testcases_path: None,
        bluesnap_gateway_merchant_id: None,
        globalpay_gateway_merchant_id: None,
        run_minimum_steps: Some(false),
        airwallex_merchant_name: Some("m".to_string()),
    };
    let copy = configs.clone();
    assert_eq!(copy.hs_base_url, configs.hs_base_url);
    assert_eq!(copy.hs_api_key, configs.hs_api_key);
    assert_eq!(copy.hs_test_browser, None);
    assert_eq!(copy.run_minimum_steps, Some(false));
    assert_eq!(copy.airwallex_merchant_name, configs.airwallex_merchant_name);
}
