//! Authentication-class references and their resolved, validated form.
//!
//! A cluster names authentication classes by reference; an external lookup
//! turns each name into an [`AuthenticationClass`]. Validation then rejects
//! unsupported provider variants and ambiguous sets (more than one
//! TLS-provider class).

use vstd::prelude::*;

verus! {

/// A reference to an authentication class, by name.
#[derive(Debug, PartialEq)]
pub struct KafkaAuthentication {
    /// Name of the externally defined authentication class.
    pub authentication_class: String,
}

/// The provider variants an authentication class can carry.
#[derive(Debug, PartialEq)]
pub enum AuthenticationClassProvider {
    /// TLS client-certificate authentication; the client-certificate secret
    /// class, when present, overrides the server secret class.
    Tls { client_cert_secret_class: Option<String> },
    /// LDAP-backed authentication; not supported for this product.
    Ldap {},
    /// A static credential list; not supported for this product.
    Static {},
}

/// An authentication class resolved from its reference.
#[derive(Debug, PartialEq)]
pub struct AuthenticationClass {
    /// The name it was referenced by.
    pub name: String,
    /// The provider it carries.
    pub provider: AuthenticationClassProvider,
}

/// Why a set of resolved authentication classes is rejected.
#[derive(Debug, PartialEq)]
pub enum Error {
    /// A class carries a provider variant this product cannot use.
    AuthenticationProviderNotSupported { authentication_class: String, provider: String },
    /// More than one TLS-provider class was given; which one governs the
    /// client listener would be ambiguous.
    MultipleTlsAuthenticationClasses {},
}

/// True iff the class carries the TLS provider.
pub open spec fn spec_is_tls(c: AuthenticationClass) -> bool {
    c.provider matches AuthenticationClassProvider::Tls { .. }
}

/// How many classes of the sequence carry the TLS provider.
pub open spec fn spec_tls_count(s: Seq<AuthenticationClass>) -> int
    decreases s.len(),
{
    if s.len() == 0 {
        0
    } else {
        spec_tls_count(s.drop_last()) + if spec_is_tls(s.last()) {
            1int
        } else {
            0int
        }
    }
}

/// The first class of the sequence that carries the TLS provider.
pub open spec fn spec_first_tls(s: Seq<AuthenticationClass>) -> Option<AuthenticationClass>
    decreases s.len(),
{
    if s.len() == 0 {
        None
    } else if spec_is_tls(s[0]) {
        Some(s[0])
    } else {
        spec_first_tls(s.drop_first())
    }
}

/// The first class of the sequence that carries an unsupported provider.
pub open spec fn spec_first_unsupported(s: Seq<AuthenticationClass>) -> Option<AuthenticationClass>
    decreases s.len(),
{
    if s.len() == 0 {
        None
    } else if !spec_is_tls(s[0]) {
        Some(s[0])
    } else {
        spec_first_unsupported(s.drop_first())
    }
}

/// Whether a left-to-right scan meets a second TLS-provider class before it
/// meets any unsupported provider. `seen_tls` carries whether a TLS class
/// was already passed.
pub open spec fn spec_scan_multiple_tls(s: Seq<AuthenticationClass>, seen_tls: bool) -> bool
    decreases s.len(),
{
    if s.len() == 0 {
        false
    } else if spec_is_tls(s[0]) {
        seen_tls || spec_scan_multiple_tls(s.drop_first(), true)
    } else {
        false
    }
}

/// The provider's name, as it appears in error reports.
pub open spec fn spec_provider_name(p: AuthenticationClassProvider) -> Seq<char> {
    match p {
        AuthenticationClassProvider::Tls { .. } => "Tls"@,
        AuthenticationClassProvider::Ldap { .. } => "Ldap"@,
        AuthenticationClassProvider::Static { .. } => "Static"@,
    }
}

/// The resolved, validated set of authentication classes.
///
/// Validation keeps the invariant that every member carries a supported
/// provider and at most one carries the TLS provider.
#[derive(Debug, PartialEq)]
pub struct ResolvedAuthenticationClasses {
    /// The classes, in reference order.
    pub resolved_classes: Vec<AuthenticationClass>,
}

impl ResolvedAuthenticationClasses {
    /// A set is well formed when every class carries the TLS provider (the
    /// only supported one) and at most one does.
    pub open spec fn well_formed(&self) -> bool {
        &&& forall|i: int|
            0 <= i < self.resolved_classes@.len() ==> spec_is_tls(#[trigger] self.resolved_classes@[i])
        &&& spec_tls_count(self.resolved_classes@) <= 1
    }

    /// Wraps an already validated list.
    pub fn new(resolved_classes: Vec<AuthenticationClass>) -> (r: Self)
        ensures
            r.resolved_classes == resolved_classes,
    {
        Self { resolved_classes }
    }

    /// Validates a list of resolved classes: every provider must be
    /// supported, and at most one class may carry the TLS provider (more
    /// would leave the client listener ambiguous).
    pub fn validate(classes: Vec<AuthenticationClass>) -> (r: Result<Self, Error>)
        ensures
            match r {
                Ok(res) => {
                    &&& res.resolved_classes@ == classes@
                    &&& res.well_formed()
                    &&& !spec_scan_multiple_tls(classes@, false)
                    &&& spec_first_unsupported(classes@) is None
                },
                Err(Error::MultipleTlsAuthenticationClasses { .. }) => {
                    &&& spec_scan_multiple_tls(classes@, false)
                    &&& spec_tls_count(classes@) > 1
                },
                Err(Error::AuthenticationProviderNotSupported { authentication_class: c, provider: p }) => {
                    &&& !spec_scan_multiple_tls(classes@, false)
                    &&& spec_first_unsupported(classes@) matches Some(u) && c@ == u.name@ && p@
                        == spec_provider_name(u.provider)
                },
            },
    {
        let n = classes.len();
        let mut i: usize = 0;
        let mut seen_tls = false;
        proof {
            assert(classes@.skip(0) =~= classes@);
        }
        while i < n
            invariant
                i <= n,
                n == classes@.len(),
                forall|k: int| 0 <= k < i ==> spec_is_tls(#[trigger] classes@[k]),
                spec_tls_count(classes@.take(i as int)) == if seen_tls {
                    1int
                } else {
                    0int
                },
                spec_scan_multiple_tls(classes@, false) == spec_scan_multiple_tls(
                    classes@.skip(i as int),
                    seen_tls,
                ),
                spec_first_unsupported(classes@) == spec_first_unsupported(classes@.skip(i as int)),
            decreases n - i,
        {
            proof {
                assert(classes@.take(i as int + 1).drop_last() =~= classes@.take(i as int));
                assert(classes@.take(i as int + 1).last() == classes@[i as int]);
                assert(classes@.skip(i as int)[0] == classes@[i as int]);
                assert(classes@.skip(i as int).drop_first() =~= classes@.skip(i as int + 1));
            }
            match &classes[i].provider {
                AuthenticationClassProvider::Tls { .. } => {
                    if seen_tls {
                        proof {
                            lemma_tls_count_monotonic(classes@, i as int + 1);
                        }
                        return Err(Error::MultipleTlsAuthenticationClasses {});
                    }
                    seen_tls = true;
                },
                AuthenticationClassProvider::Ldap { .. } => {
                    return Err(
                        Error::AuthenticationProviderNotSupported {
                            authentication_class: classes[i].name.clone(),
                            provider: String::from_str("Ldap"),
                        },
                    );
                },
                AuthenticationClassProvider::Static { .. } => {
                    return Err(
                        Error::AuthenticationProviderNotSupported {
                            authentication_class: classes[i].name.clone(),
                            provider: String::from_str("Static"),
                        },
                    );
                },
            }
            i = i + 1;
        }
        proof {
            assert(classes@.take(n as int) =~= classes@);
        }
        Ok(Self { resolved_classes: classes })
    }

    /// The TLS-provider class of the set, if one is present: the first one,
    /// which validation guarantees to be the only one.
    pub fn get_tls_authentication_class(&self) -> (r: Option<&AuthenticationClass>)
        ensures
            match r {
                Some(c) => spec_first_tls(self.resolved_classes@) == Some(*c),
                None => spec_first_tls(self.resolved_classes@) is None,
            },
    {
        let n = self.resolved_classes.len();
        let mut i: usize = 0;
        proof {
            assert(self.resolved_classes@.skip(0) =~= self.resolved_classes@);
        }
        while i < n
            invariant
                i <= n,
                n == self.resolved_classes@.len(),
                spec_first_tls(self.resolved_classes@) == spec_first_tls(
                    self.resolved_classes@.skip(i as int),
                ),
                forall|k: int| 0 <= k < i ==> !spec_is_tls(#[trigger] self.resolved_classes@[k]),
            decreases n - i,
        {
            proof {
                assert(self.resolved_classes@.skip(i as int)[0] == self.resolved_classes@[i as int]);
                assert(self.resolved_classes@.skip(i as int).drop_first() =~= self.resolved_classes@.skip(
                    i as int + 1,
                ));
            }
            match &self.resolved_classes[i].provider {
                AuthenticationClassProvider::Tls { .. } => {
                    return Some(&self.resolved_classes[i]);
                },
                _ => {},
            }
            i = i + 1;
        }
        None
    }
}

/// A prefix holding two TLS classes forces the whole count above one.
proof fn lemma_tls_count_monotonic(s: Seq<AuthenticationClass>, i: int)
    requires
        0 <= i <= s.len(),
    ensures
        spec_tls_count(s) >= spec_tls_count(s.take(i)),
    decreases s.len() - i,
{
    if i < s.len() {
        lemma_tls_count_monotonic(s, i + 1);
        assert(s.take(i + 1).drop_last() =~= s.take(i));
    } else {
        assert(s.take(i) =~= s);
    }
}

} // verus!
