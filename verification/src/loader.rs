//! Validation of a loaded certificate document. The document format is
//! read by ordinary deserialization outside the library, with every key
//! optional; `build_spec` then enforces which keys are required, turning
//! raw records into a `Spec` or reporting exactly which required key of
//! which record is missing.

use vstd::prelude::*;
use crate::cert_spec::Certificate;
use crate::cert_spec::Key;
use crate::cert_spec::Spec;
use crate::cert_spec::Subject;
use crate::cert_spec::Validity;

verus! {

/// A subject as read from the document, before any key is known to be
/// present.
pub struct RawSubject {
    pub country: Option<String>,
    pub common: Option<String>,
    pub org: Option<String>,
    pub org_unit: Option<String>,
    pub state: Option<String>,
    pub locality: Option<String>,
    pub email: Option<String>,
}

/// A validity section as read from the document.
pub struct RawValidity {
    pub days: Option<u32>,
}

/// A key section as read from the document.
pub struct RawKey {
    pub bits: Option<u32>,
}

/// One certificate record as read from the document.
pub struct RawRecord {
    pub subject: Option<RawSubject>,
    pub validity: Option<RawValidity>,
    pub key: Option<RawKey>,
}

/// The required parts of the document a record can lack.
#[derive(Clone, Copy, Debug, PartialEq, Eq)]
pub enum MissingField {
    Subject,
    Common,
    Country,
    Org,
    Validity,
    Days,
    Key,
    Bits,
}

/// A malformed document: the record at `index` lacks the required part
/// named by `field`.
#[derive(Clone, Copy, Debug, PartialEq, Eq)]
pub struct ParseError {
    pub index: usize,
    pub field: MissingField,
}

/// Whether a raw record carries every required part: a subject with its
/// common name, country and organization, a validity with its days, and
/// a key with its bits.
pub open spec fn record_complete(r: &RawRecord) -> bool {
    &&& r.subject matches Some(rs) && rs.common is Some && rs.country is Some && rs.org is Some
    &&& r.validity matches Some(v) && v.days is Some
    &&& r.key matches Some(k) && k.bits is Some
}

/// The first required part an incomplete raw record lacks, in the fixed
/// order the validation checks them.
pub open spec fn first_missing(r: &RawRecord) -> MissingField {
    match r.subject {
        None => MissingField::Subject,
        Some(rs) => {
            if rs.common is None {
                MissingField::Common
            } else if rs.country is None {
                MissingField::Country
            } else if rs.org is None {
                MissingField::Org
            } else {
                match r.validity {
                    None => MissingField::Validity,
                    Some(v) => {
                        if v.days is None {
                            MissingField::Days
                        } else {
                            match r.key {
                                None => MissingField::Key,
                                Some(_) => MissingField::Bits,
                            }
                        }
                    },
                }
            }
        },
    }
}

/// What a validated certificate record holds of the raw record it came
/// from: every required value carried over, and every optional value
/// kept exactly as it was.
pub open spec fn record_matches(c: &Certificate, r: &RawRecord) -> bool {
    &&& r.subject matches Some(rs) && {
        &&& rs.common matches Some(cn) && c.subject.common == cn
        &&& rs.country matches Some(co) && c.subject.country == co
        &&& rs.org matches Some(o) && c.subject.org == o
        &&& c.subject.org_unit == rs.org_unit
        &&& c.subject.state == rs.state
        &&& c.subject.locality == rs.locality
        &&& c.subject.email == rs.email
    }
    &&& r.validity matches Some(v) && v.days matches Some(d) && c.validity.days == d
    &&& r.key matches Some(k) && k.bits matches Some(b) && c.key.bits == b
}

fn clone_opt_string(s: &Option<String>) -> (r: Option<String>)
    ensures
        r == *s,
{
    match s {
        Some(v) => Some(v.clone()),
        None => None,
    }
}

/// Validates the raw records of a loaded document. Succeeds if and only
/// if every record carries all required parts, yielding one certificate
/// record per raw record with all values carried over; otherwise reports
/// the first missing part of the first incomplete record, and no
/// certificate record at all.
pub fn build_spec(raw: &Vec<RawRecord>) -> (r: Result<Spec, ParseError>)
    ensures
        r matches Ok(sp) ==> {
            &&& sp.certs@.len() == raw@.len()
            &&& forall|i: int|
                0 <= i < raw@.len() ==> record_matches(&sp.certs@[i], &raw@[i])
        },
        r matches Err(e) ==> {
            &&& e.index < raw@.len()
            &&& !record_complete(&raw@[e.index as int])
            &&& e.field == first_missing(&raw@[e.index as int])
            &&& forall|j: int| 0 <= j < e.index as int ==> record_complete(&raw@[j])
        },
        r is Err <==> exists|i: int| 0 <= i < raw@.len() && !record_complete(&raw@[i]),
{
    let mut certs: Vec<Certificate> = Vec::new();
    let mut i: usize = 0;
    while i < raw.len()
        invariant
            i <= raw@.len(),
            certs@.len() == i as int,
            forall|j: int|
                0 <= j < i as int ==> record_matches(&certs@[j], &raw@[j]) && record_complete(
                    &raw@[j],
                ),
        decreases raw@.len() - i,
    {
        let rec = &raw[i];
        let raw_subject = match &rec.subject {
            Some(s) => s,
            None => {
                return Err(ParseError { index: i, field: MissingField::Subject });
            },
        };
        let common = match &raw_subject.common {
            Some(v) => v.clone(),
            None => {
                return Err(ParseError { index: i, field: MissingField::Common });
            },
        };
        let country = match &raw_subject.country {
            Some(v) => v.clone(),
            None => {
                return Err(ParseError { index: i, field: MissingField::Country });
            },
        };
        let org = match &raw_subject.org {
            Some(v) => v.clone(),
            None => {
                return Err(ParseError { index: i, field: MissingField::Org });
            },
        };
        let days = match &rec.validity {
            Some(v) => match v.days {
                Some(d) => d,
                None => {
                    return Err(ParseError { index: i, field: MissingField::Days });
                },
            },
            None => {
                return Err(ParseError { index: i, field: MissingField::Validity });
            },
        };
        let bits = match &rec.key {
            Some(k) => match k.bits {
                Some(b) => b,
                None => {
                    return Err(ParseError { index: i, field: MissingField::Bits });
                },
            },
            None => {
                return Err(ParseError { index: i, field: MissingField::Key });
            },
        };
        let subject = Subject {
            common,
            country,
            org,
            org_unit: clone_opt_string(&raw_subject.org_unit),
            state: clone_opt_string(&raw_subject.state),
            locality: clone_opt_string(&raw_subject.locality),
            email: clone_opt_string(&raw_subject.email),
        };
        certs.push(Certificate { subject, validity: Validity { days }, key: Key { bits } });
        i += 1;
    }
    Ok(Spec { certs })
}

} // verus!
