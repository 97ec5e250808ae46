use vstd::prelude::*;

use crate::error::CertificateError;
use x509_parser::extensions::GeneralName;

verus! {

/// One entry of a certificate's subject alternative name extension: a DNS
/// name, or a name of another kind.
#[derive(Debug)]
pub enum AltName {
    Dns(String),
    Other,
}

/// The mathematical value of an [`AltName`].
pub enum AltNameView {
    Dns(Seq<char>),
    Other,
}

impl View for AltName {
    type V = AltNameView;

    open spec fn view(&self) -> AltNameView {
        match self {
            AltName::Dns(name) => AltNameView::Dns(name@),
            AltName::Other => AltNameView::Other,
        }
    }
}

/// What the host reads from a parsed X.509 certificate.
#[derive(Debug)]
pub struct ParsedCertificate {
    /// The subject's distinguished name, as text.
    pub subject: String,
    /// The issuer's distinguished name, as text.
    pub issuer: String,
    /// The common name attributes of the subject, in order: each one's
    /// text, or `None` when it is not held as a string.
    pub common_names: Vec<Option<String>>,
    /// The entries of the subject alternative name extension, when the
    /// certificate carries one that can be read.
    pub alt_names: Option<Vec<AltName>>,
}

/// The mathematical value of a [`ParsedCertificate`].
pub struct ParsedCertificateView {
    pub subject: Seq<char>,
    pub issuer: Seq<char>,
    pub common_names: Seq<Option<Seq<char>>>,
    pub alt_names: Option<Seq<AltNameView>>,
}

impl View for ParsedCertificate {
    type V = ParsedCertificateView;

    open spec fn view(&self) -> ParsedCertificateView {
        ParsedCertificateView {
            subject: self.subject@,
            issuer: self.issuer@,
            common_names: self.common_names@.map_values(|cn: Option<String>| optional_text(cn)),
            alt_names: match self.alt_names {
                Some(names) => Some(names@.map_values(|n: AltName| n@)),
                None => None,
            },
        }
    }
}

/// The text of an optional string.
pub open spec fn optional_text(s: Option<String>) -> Option<Seq<char>> {
    match s {
        Some(t) => Some(t@),
        None => None,
    }
}

/// What `x509_parser::parse_x509_certificate` reads from DER bytes, or,
/// when they do not start with an X.509 certificate, the text of its error.
pub uninterp spec fn x509_certificate(der: Seq<u8>) -> Result<ParsedCertificateView, Seq<char>>;

/// Parses DER bytes with `x509_parser::parse_x509_certificate` and converts
/// the certificate into the library's value: the subject and issuer (as
/// `X509Name` displays them), every common name of the subject, and the
/// subject alternative names; a parse error is converted into its text.
/// The contract claims only that the answer is the named function of the
/// bytes.
#[verifier::external_body]
fn parse_x509(der: &[u8]) -> (res: Result<ParsedCertificate, String>)
    ensures
        match res {
            Ok(p) => x509_certificate(der@) == Ok::<ParsedCertificateView, Seq<char>>(p@),
            Err(e) => x509_certificate(der@) == Err::<ParsedCertificateView, Seq<char>>(e@),
        },
{
    let cert = match x509_parser::parse_x509_certificate(der) {
        Ok((_, cert)) => cert,
        Err(e) => return Err(e.to_string()),
    };
    let alt_names = match cert.subject_alternative_name() {
        Ok(Some(ext)) => Some(ext.value.general_names.iter().map(|n| match n {
            GeneralName::DNSName(d) => AltName::Dns(d.to_string()),
            _ => AltName::Other,
        }).collect()),
        _ => None,
    };
    let common_names = cert.subject().iter_common_name().map(|a| a.as_str().ok().map(|s| s.to_string())).collect();
    Ok(ParsedCertificate { subject: cert.subject().to_string(), issuer: cert.issuer().to_string(), common_names, alt_names })
}

/// Whether a certificate is issued to `host`: its subject's first common
/// name is `host`, or one of its subject alternative names is the DNS name
/// `host`.
pub open spec fn names_host(p: ParsedCertificateView, host: Seq<char>) -> bool {
    ||| (p.common_names.len() > 0 && p.common_names[0] == Some(host))
    ||| (p.alt_names matches Some(names) && names.contains(AltNameView::Dns(host)))
}

/// A certificate is issued to `host` when any entry of its subject
/// alternative names, at any position, is the DNS name `host`, or when its
/// subject's first common name is `host`; and only then.
pub proof fn lemma_names_host_exactly(p: ParsedCertificateView, host: Seq<char>)
    ensures
        (p.alt_names matches Some(names) && (exists|i: int| 0 <= i < names.len() && #[trigger] names[i]
            == AltNameView::Dns(host))) ==> names_host(p, host),
        (p.common_names.len() > 0 && p.common_names[0] == Some(host)) ==> names_host(p, host),
        names_host(p, host) ==> ((p.common_names.len() > 0 && p.common_names[0] == Some(host))
            || (p.alt_names matches Some(names) && exists|i: int| 0 <= i < names.len() && #[trigger] names[i]
            == AltNameView::Dns(host))),
{
}

/// The last subject alternative name counts like every other: a
/// certificate whose last entry is the DNS name `host` is issued to `host`.
pub proof fn lemma_names_host_last_alt_name(p: ParsedCertificateView, host: Seq<char>)
    requires
        p.alt_names matches Some(names) && names.len() > 0 && names.last() == AltNameView::Dns(host),
    ensures
        names_host(p, host),
{
    lemma_names_host_exactly(p, host);
    let names = p.alt_names->0;
    assert(names[names.len() - 1] == AltNameView::Dns(host));
}

impl ParsedCertificate {
    /// Whether the certificate is issued to `hostname`: the first common
    /// name is checked first, then the DNS names among the subject
    /// alternative names, in order.
    pub fn names_host(&self, hostname: &String) -> (res: bool)
        ensures
            res == names_host(self@, hostname@),
    {
        if self.common_names.len() > 0 {
            if let Some(cn) = &self.common_names[0] {
                if *cn == *hostname {
                    return true;
                }
            }
        }
        if let Some(names) = &self.alt_names {
            let n: usize = names.len();
            for i in 0..n
                invariant
                    n == names@.len(),
                    self.alt_names == Some(*names),
                    forall|j: int| 0 <= j < i ==> names@[j]@ != AltNameView::Dns(hostname@),
            {
                if let AltName::Dns(dns) = &names[i] {
                    if *dns == *hostname {
                        assert(names@.map_values(|a: AltName| a@)[i as int] == AltNameView::Dns(hostname@));
                        assert(names@.map_values(|a: AltName| a@).contains(AltNameView::Dns(hostname@)));
                        return true;
                    }
                }
            }
            assert(!names@.map_values(|a: AltName| a@).contains(AltNameView::Dns(hostname@)));
        }
        false
    }
}

/// A certificate held by the host: its DER bytes, and what was read from
/// them once they were first needed.
#[derive(Debug)]
pub struct HostCertificate {
    cert: Vec<u8>,
    parsed: Option<ParsedCertificate>,
}

impl HostCertificate {
    /// What was read from the bytes, once read, is what the parser reads
    /// from them.
    #[verifier::type_invariant]
    spec fn parsed_matches_bytes(self) -> bool {
        self.parsed matches Some(p) ==> x509_certificate(self.cert@) == Ok::<ParsedCertificateView, Seq<char>>(p@)
    }

    /// The certificate's DER bytes.
    pub closed spec fn der(self) -> Seq<u8> {
        self.cert@
    }

    /// Whether the bytes have been parsed already.
    pub closed spec fn is_parsed(self) -> bool {
        self.parsed is Some
    }

    /// A certificate holding `cert`, not parsed yet.
    pub fn new(cert: Vec<u8>) -> (res: HostCertificate)
        ensures
            res.der() == cert@,
            !res.is_parsed(),
    {
        HostCertificate { cert, parsed: None }
    }

    /// The certificate's DER bytes.
    pub fn cert(&self) -> (res: &Vec<u8>)
        ensures
            res@ == self.der(),
    {
        &self.cert
    }

    /// What the parser reads from the certificate, or its error; the bytes
    /// are parsed on the first call and a successful parse is kept for
    /// later calls. A certificate is only ever parsed when its bytes parse.
    pub fn get_parsed(&mut self) -> (res: Result<&ParsedCertificate, CertificateError>)
        ensures
            old(self).is_parsed() ==> x509_certificate(old(self).der()) is Ok,
            final(self).der() == old(self).der(),
            final(self).is_parsed() == (x509_certificate(old(self).der()) is Ok),
            match x509_certificate(old(self).der()) {
                Ok(p) => res matches Ok(q) && q@ == p,
                Err(msg) => res matches Err(CertificateError::Malformed(m)) && m@ == msg,
            },
    {
        proof {
            use_type_invariant(&*self);
        }
        if self.parsed.is_none() {
            match parse_x509(self.cert.as_slice()) {
                Ok(p) => {
                    self.parsed = Some(p);
                },
                Err(msg) => {
                    return Err(CertificateError::Malformed(msg));
                },
            }
        }
        match &self.parsed {
            Some(p) => Ok(p),
            None => Err(CertificateError::Malformed(String::new())),
        }
    }

    /// The subject's distinguished name, as text.
    pub fn subject(&mut self) -> (res: Result<String, CertificateError>)
        ensures
            old(self).is_parsed() ==> x509_certificate(old(self).der()) is Ok,
            final(self).der() == old(self).der(),
            final(self).is_parsed() == (x509_certificate(old(self).der()) is Ok),
            match x509_certificate(old(self).der()) {
                Ok(p) => res matches Ok(s) && s@ == p.subject,
                Err(msg) => res matches Err(CertificateError::Malformed(m)) && m@ == msg,
            },
    {
        let parsed = self.get_parsed()?;
        Ok(parsed.subject.clone())
    }

    /// The issuer's distinguished name, as text.
    pub fn issuer(&mut self) -> (res: Result<String, CertificateError>)
        ensures
            old(self).is_parsed() ==> x509_certificate(old(self).der()) is Ok,
            final(self).der() == old(self).der(),
            final(self).is_parsed() == (x509_certificate(old(self).der()) is Ok),
            match x509_certificate(old(self).der()) {
                Ok(p) => res matches Ok(s) && s@ == p.issuer,
                Err(msg) => res matches Err(CertificateError::Malformed(m)) && m@ == msg,
            },
    {
        let parsed = self.get_parsed()?;
        Ok(parsed.issuer.clone())
    }

    /// Whether the certificate is issued to `hostname`.
    pub fn verify_hostname(&mut self, hostname: String) -> (res: Result<bool, CertificateError>)
        ensures
            old(self).is_parsed() ==> x509_certificate(old(self).der()) is Ok,
            final(self).der() == old(self).der(),
            final(self).is_parsed() == (x509_certificate(old(self).der()) is Ok),
            match x509_certificate(old(self).der()) {
                Ok(p) => res == Ok::<bool, CertificateError>(names_host(p, hostname@)),
                Err(msg) => res matches Err(CertificateError::Malformed(m)) && m@ == msg,
            },
    {
        let parsed = self.get_parsed()?;
        Ok(parsed.names_host(&hostname))
    }
}

impl Clone for AltName {
    fn clone(&self) -> (res: Self)
        ensures
            res@ == self@,
    {
        match self {
            AltName::Dns(name) => AltName::Dns(name.clone()),
            AltName::Other => AltName::Other,
        }
    }
}

impl Clone for ParsedCertificate {
    fn clone(&self) -> (res: Self)
        ensures
            res@ == self@,
    {
        let mut common_names: Vec<Option<String>> = Vec::new();
        let n: usize = self.common_names.len();
        for i in 0..n
            invariant
                n == self.common_names@.len(),
                common_names@.len() == i,
                forall|j: int| 0 <= j < i ==> optional_text(#[trigger] common_names@[j]) == optional_text(self.common_names@[j]),
        {
            let cn = match &self.common_names[i] {
                Some(text) => Some(text.clone()),
                None => None,
            };
            common_names.push(cn);
        }
        assert(common_names@.map_values(|cn: Option<String>| optional_text(cn))
            =~= self.common_names@.map_values(|cn: Option<String>| optional_text(cn)));
        let alt_names = match &self.alt_names {
            Some(names) => {
                let mut copy: Vec<AltName> = Vec::new();
                let m: usize = names.len();
                for i in 0..m
                    invariant
                        m == names@.len(),
                        copy@.len() == i,
                        forall|j: int| 0 <= j < i ==> (#[trigger] copy@[j])@ == names@[j]@,
                {
                    copy.push(names[i].clone());
                }
                assert(copy@.map_values(|a: AltName| a@) =~= names@.map_values(|a: AltName| a@));
                Some(copy)
            },
            None => None,
        };
        ParsedCertificate {
            subject: self.subject.clone(),
            issuer: self.issuer.clone(),
            common_names,
            alt_names,
        }
    }
}

impl Clone for HostCertificate {
    fn clone(&self) -> (res: Self)
        ensures
            res.der() == self.der(),
            res.is_parsed() == self.is_parsed(),
    {
        proof {
            use_type_invariant(self);
        }
        let parsed = match &self.parsed {
            Some(p) => Some(p.clone()),
            None => None,
        };
        HostCertificate { cert: vstd::slice::slice_to_vec(self.cert.as_slice()), parsed }
    }
}

} // verus!
