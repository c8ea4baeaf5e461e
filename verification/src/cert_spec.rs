//! The declarative description of the certificates to produce: a `Spec`
//! holds an ordered list of `Certificate` records, each giving the subject
//! identity, the validity period in days and the RSA key size.

use vstd::prelude::*;
use vstd::string::StringExecFns;

verus! {

/// A subject identity for one certificate. The common name, country and
/// organization are required; the remaining attributes are optional.
/// All values are free text; the certificate encoding itself is the only
/// validation applied to them.
#[derive(Debug)]
pub struct Subject {
    pub country: String,
    pub common: String,
    pub org: String,
    pub org_unit: Option<String>,
    pub state: Option<String>,
    pub locality: Option<String>,
    pub email: Option<String>,
}

/// Certificate lifetime, in days from the moment of generation.
#[derive(Debug)]
pub struct Validity {
    pub days: u32,
}

/// RSA modulus size in bits for the generated key pair.
#[derive(Debug)]
pub struct Key {
    pub bits: u32,
}

/// One declarative certificate request: who the certificate is for, how
/// long it is valid, and how large its key is.
#[derive(Debug)]
pub struct Certificate {
    pub subject: Subject,
    pub validity: Validity,
    pub key: Key,
}

/// A whole document: the ordered sequence of certificates to generate.
#[derive(Debug)]
pub struct Spec {
    pub certs: Vec<Certificate>,
}

/// The rendering of a subject as a distinguished-name string:
/// `CN=<common>,C=<country>,O=<org>` followed by `,OU=`, `,ST=` and `,L=`
/// parts for each optional attribute that is present, in that order.
/// The email attribute is not part of the rendered name.
pub open spec fn spec_full_name(s: &Subject) -> Seq<char> {
    let base = "CN="@ + s.common@ + ",C="@ + s.country@ + ",O="@ + s.org@;
    let with_ou = match s.org_unit {
        Some(u) => base + ",OU="@ + u@,
        None => base,
    };
    let with_st = match s.state {
        Some(st) => with_ou + ",ST="@ + st@,
        None => with_ou,
    };
    match s.locality {
        Some(l) => with_st + ",L="@ + l@,
        None => with_st,
    }
}

impl Subject {
    /// The subject rendered as a distinguished-name string, attribute by
    /// attribute in the fixed order `CN, C, O, OU, ST, L`.
    pub fn full_name(&self) -> (res: String)
        ensures
            res@ == spec_full_name(self),
    {
        let mut res = String::from_str("CN=");
        res.append(self.common.as_str());
        res.append(",C=");
        res.append(self.country.as_str());
        res.append(",O=");
        res.append(self.org.as_str());
        if let Some(org_unit) = &self.org_unit {
            res.append(",OU=");
            res.append(org_unit.as_str());
        }
        if let Some(state) = &self.state {
            res.append(",ST=");
            res.append(state.as_str());
        }
        if let Some(locality) = &self.locality {
            res.append(",L=");
            res.append(locality.as_str());
        }
        proof {
            assert(res@ =~= spec_full_name(self));
        }
        res
    }
}

} // verus!
