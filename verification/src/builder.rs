use crate::client::builder::{ChoicesView, ClientConfigBuilder};
use crate::error::{Error, ErrorView};
use crate::kx::{all_groups, all_kx_groups, SupportedKxGroup};
use crate::server::{ServerConfigBuilder, ServerConfigBuilderView};
use crate::suites::{
    default_tls12_cipher_suites, default_tls13_cipher_suites, default_tls13_suites,
    is_default_tls12_suites, Tls12CipherSuite, Tls13CipherSuite,
};
use vstd::prelude::*;
use vstd::slice::slice_to_vec;

verus! {

/// Building a server or client configuration in a linker-friendly way.
///
/// Linker-friendly: meaning unused cipher suites, protocol
/// versions, key exchange mechanisms, etc. can be discarded
/// by the linker as they'll be unreferenced.
///
/// The types used here fit together like this:
///
/// 1. You must make a decision on which cipher suites to use, typically
///    by calling [`ConfigBuilder::with_safe_default_cipher_suites()`].
/// 2. You now have a [`ConfigBuilderWithAllSuites`].  You must make a decision
///    on key exchange groups: typically by calling
///    [`ConfigBuilderWithAllSuites::with_safe_default_kx_groups()`].
/// 3. You now have a [`ConfigBuilderWithKxGroups`] and need to decide whether to
///    make a server or a client configuration -- call
///    [`ConfigBuilderWithKxGroups::for_server()`] or
///    [`ConfigBuilderWithKxGroups::for_client()`] respectively.
/// 4. Now see [`ServerConfigBuilder`] or [`ClientConfigBuilder`] for further steps.
pub struct ConfigBuilder;

impl ConfigBuilder {
    /// Start building a server or client configuration, and accept
    /// defaults for underlying cryptography.
    ///
    /// These are safe defaults, useful for 99% of applications.
    pub fn with_safe_defaults() -> (r: ConfigBuilderWithKxGroups)
        ensures
            r@.tls13_cipher_suites == default_tls13_suites(),
            is_default_tls12_suites(r@.tls12_cipher_suites),
            r@.kx_groups == all_groups(),
            r@.usable(),
    {
        ConfigBuilder::with_safe_default_tls13_cipher_suites().with_safe_default_tls12_cipher_suites().with_safe_default_kx_groups()
    }

    /// Choose the default set of cipher suites.
    ///
    /// Note that this default provides only high-quality suites: there is no need
    /// to filter out low-, export- or NULL-strength cipher suites: this
    /// library does not implement these.
    pub fn with_safe_default_cipher_suites() -> (r: ConfigBuilderWithAllSuites)
        ensures
            r.suites().0 == default_tls13_suites(),
            is_default_tls12_suites(r.suites().1),
    {
        ConfigBuilder::with_safe_default_tls13_cipher_suites().with_safe_default_tls12_cipher_suites()
    }

    /// Choose a specific set of cipher suites.
    pub fn with_tls13_cipher_suites(tls13_cipher_suites: &[Tls13CipherSuite]) -> (r:
        ConfigBuilderWithTls13Suites)
        ensures
            r.suites() == tls13_cipher_suites@,
    {
        ConfigBuilderWithTls13Suites { tls13_cipher_suites: slice_to_vec(tls13_cipher_suites) }
    }

    /// Choose the default set of TLS 1.3 cipher suites.
    ///
    /// Note that this default provides only high-quality suites: there is no need
    /// to filter out low-, export- or NULL-strength cipher suites: this
    /// library does not implement these.
    pub fn with_safe_default_tls13_cipher_suites() -> (r: ConfigBuilderWithTls13Suites)
        ensures
            r.suites() == default_tls13_suites(),
    {
        Self::with_tls13_cipher_suites(default_tls13_cipher_suites().as_slice())
    }
}

/// A [`ConfigBuilder`] where we know the TLS 1.3 cipher suites.
pub struct ConfigBuilderWithTls13Suites {
    tls13_cipher_suites: Vec<Tls13CipherSuite>,
}

impl ConfigBuilderWithTls13Suites {
    /// The TLS 1.3 suites chosen.
    pub closed spec fn suites(&self) -> Seq<Tls13CipherSuite> {
        self.tls13_cipher_suites@
    }

    /// Choose a specific set of cipher suites.
    pub fn with_tls12_cipher_suites(self, tls12_cipher_suites: &[Tls12CipherSuite]) -> (r:
        ConfigBuilderWithAllSuites)
        ensures
            r.suites() == (self.suites(), tls12_cipher_suites@),
    {
        ConfigBuilderWithAllSuites {
            tls13_cipher_suites: self.tls13_cipher_suites,
            tls12_cipher_suites: slice_to_vec(tls12_cipher_suites),
        }
    }

    /// Choose the default set of cipher suites.
    ///
    /// Note that this default provides only high-quality suites: there is no need
    /// to filter out low-, export- or NULL-strength cipher suites: this
    /// library does not implement these.
    pub fn with_safe_default_tls12_cipher_suites(self) -> (r: ConfigBuilderWithAllSuites)
        ensures
            r.suites().0 == self.suites(),
            is_default_tls12_suites(r.suites().1),
    {
        self.with_tls12_cipher_suites(default_tls12_cipher_suites().as_slice())
    }
}

/// A [`ConfigBuilder`] where we know the cipher suites for all versions.
pub struct ConfigBuilderWithAllSuites {
    tls13_cipher_suites: Vec<Tls13CipherSuite>,
    tls12_cipher_suites: Vec<Tls12CipherSuite>,
}

impl ConfigBuilderWithAllSuites {
    /// The TLS 1.3 and the TLS 1.2 suites chosen.
    pub closed spec fn suites(&self) -> (Seq<Tls13CipherSuite>, Seq<Tls12CipherSuite>) {
        (self.tls13_cipher_suites@, self.tls12_cipher_suites@)
    }

    /// Choose a specific set of key exchange groups.
    pub fn with_kx_groups(self, kx_groups: &[SupportedKxGroup]) -> (r: ConfigBuilderWithKxGroups)
        ensures
            r@ == (ChoicesView {
                tls13_cipher_suites: self.suites().0,
                tls12_cipher_suites: self.suites().1,
                kx_groups: kx_groups@,
            }),
    {
        ConfigBuilderWithKxGroups {
            tls13_cipher_suites: self.tls13_cipher_suites,
            tls12_cipher_suites: self.tls12_cipher_suites,
            kx_groups: slice_to_vec(kx_groups),
        }
    }

    /// Choose the default set of key exchange groups.
    ///
    /// This is a safe default: this library doesn't implement any
    /// poor-quality groups.
    pub fn with_safe_default_kx_groups(self) -> (r: ConfigBuilderWithKxGroups)
        ensures
            r@ == (ChoicesView {
                tls13_cipher_suites: self.suites().0,
                tls12_cipher_suites: self.suites().1,
                kx_groups: all_groups(),
            }),
    {
        self.with_kx_groups(all_kx_groups().as_slice())
    }
}

/// A [`ConfigBuilder`] where we know the cipher suites and key exchange
/// groups.
pub struct ConfigBuilderWithKxGroups {
    tls13_cipher_suites: Vec<Tls13CipherSuite>,
    tls12_cipher_suites: Vec<Tls12CipherSuite>,
    kx_groups: Vec<SupportedKxGroup>,
}

impl View for ConfigBuilderWithKxGroups {
    type V = ChoicesView;

    closed spec fn view(&self) -> ChoicesView {
        ChoicesView {
            tls13_cipher_suites: self.tls13_cipher_suites@,
            tls12_cipher_suites: self.tls12_cipher_suites@,
            kx_groups: self.kx_groups@,
        }
    }
}

/// What validating the choices `c` gives: without any cipher suite, the
/// error that says so; else, without any key exchange group, the error that
/// says so; else success.
pub open spec fn validated(c: ChoicesView) -> Result<(), ErrorView> {
    if c.tls13_cipher_suites.len() == 0 && c.tls12_cipher_suites.len() == 0 {
        Err(ErrorView::General("no usable cipher suites configured"@))
    } else if c.kx_groups.len() == 0 {
        Err(ErrorView::General("no kx groups configured"@))
    } else {
        Ok(())
    }
}

impl ConfigBuilderWithKxGroups {
    /// Checks that there is a cipher suite and a key exchange group.
    fn validate(&self) -> (r: Result<(), Error>)
        ensures
            match r {
                Ok(()) => validated(self@) is Ok && self@.usable(),
                Err(e) => validated(self@) == Err::<(), ErrorView>(e@),
            },
    {
        if self.tls13_cipher_suites.len() == 0 && self.tls12_cipher_suites.len() == 0 {
            return Err(Error::general("no usable cipher suites configured"));
        }
        if self.kx_groups.len() == 0 {
            return Err(Error::general("no kx groups configured"));
        }
        Ok(())
    }

    /// Continue building a client configuration.
    ///
    /// This fails where no cipher suite or no key exchange group was
    /// chosen.
    pub fn for_client(self) -> (r: Result<ClientConfigBuilder, Error>)
        ensures
            match r {
                Ok(b) => validated(self@) is Ok && b@ == self@ && b@.usable(),
                Err(e) => validated(self@) == Err::<(), ErrorView>(e@),
            },
    {
        match self.validate() {
            Ok(()) => {},
            Err(e) => {
                return Err(e);
            },
        }
        Ok(
            ClientConfigBuilder::new(
                self.tls13_cipher_suites,
                self.tls12_cipher_suites,
                self.kx_groups,
            ),
        )
    }

    /// Continue building a server configuration.
    ///
    /// This fails where no cipher suite or no key exchange group was
    /// chosen.
    pub fn for_server(self) -> (r: Result<ServerConfigBuilder, Error>)
        ensures
            match r {
                Ok(b) => validated(self@) is Ok && b@ == (ServerConfigBuilderView {
                    tls13_cipher_suites: self@.tls13_cipher_suites,
                    tls12_cipher_suites: self@.tls12_cipher_suites,
                    kx_groups: self@.kx_groups,
                }),
                Err(e) => validated(self@) == Err::<(), ErrorView>(e@),
            },
    {
        match self.validate() {
            Ok(()) => {},
            Err(e) => {
                return Err(e);
            },
        }
        Ok(
            ServerConfigBuilder::new(
                self.tls13_cipher_suites,
                self.tls12_cipher_suites,
                self.kx_groups,
            ),
        )
    }
}

} // verus!
