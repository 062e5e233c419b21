use kafka_crd::authentication::{
    AuthenticationClass, AuthenticationClassProvider, Error, ResolvedAuthenticationClasses,
};

fn tls_class(name: &str, override_class: Option<&str>) -> AuthenticationClass {
    AuthenticationClass {
        name: name.to_string(),
        provider: AuthenticationClassProvider::Tls {
            client_cert_secret_class: override_class.map(|s| s.to_string()),
        },
    }
}

#[test]
fn empty_reference_list_validates() {
    let resolved = ResolvedAuthenticationClasses::validate(vec![]).unwrap();
    assert!(resolved.get_tls_authentication_class().is_none());
}

#[test]
fn single_tls_class_validates() {
    let resolved =
        ResolvedAuthenticationClasses::validate(vec![tls_class("mtls", Some("secret"))]).unwrap();
    let class = resolved.get_tls_authentication_class().unwrap();
    assert_eq!(class.name, "mtls");
    match &class.provider {
        AuthenticationClassProvider::Tls {
            client_cert_secret_class,
        } => assert_eq!(client_cert_secret_class.as_deref(), Some("secret")),
        other => panic!("expected the TLS provider, got {:?}", other),
    }
}

#[test]
fn two_tls_classes_are_ambiguous() {
    let result = ResolvedAuthenticationClasses::validate(vec![
        tls_class("a", None),
        tls_class("b", None),
    ]);
    assert!(matches!(
        result,
        Err(Error::MultipleTlsAuthenticationClasses {})
    ));
}

#[test]
fn unsupported_provider_is_rejected() {
    let result = ResolvedAuthenticationClasses::validate(vec![AuthenticationClass {
        name: "ldap-auth".to_string(),
        provider: AuthenticationClassProvider::Ldap {},
    }]);
    match result {
        Err(Error::AuthenticationProviderNotSupported {
            authentication_class,
            provider,
        }) => {
            assert_eq!(authentication_class, "ldap-auth");
            assert_eq!(provider, "Ldap");
        }
        other => panic!("expected a provider rejection, got {:?}", other),
    }
}

#[test]
fn static_provider_is_rejected() {
    let result = ResolvedAuthenticationClasses::validate(vec![AuthenticationClass {
        name: "basic".to_string(),
        provider: AuthenticationClassProvider::Static {},
    }]);
    match result {
        Err(Error::AuthenticationProviderNotSupported { provider, .. }) => {
            assert_eq!(provider, "Static");
        }
        other => panic!("expected a provider rejection, got {:?}", other),
    }
}

#[test]
fn first_problem_wins() {
    // An unsupported provider ahead of the second TLS class is reported.
    let result = ResolvedAuthenticationClasses::validate(vec![
        tls_class("a", None),
        AuthenticationClass {
            name: "ldap-auth".to_string(),
            provider: AuthenticationClassProvider::Ldap {},
        },
        tls_class("b", None),
    ]);
    assert!(matches!(
        result,
        Err(Error::AuthenticationProviderNotSupported { .. })
    ));
}
