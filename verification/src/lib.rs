//! Generation of self-signed X.509 certificates from a declarative
//! description: each record of a `Spec` yields one freshly generated RSA
//! key pair and one certificate signed with it, ready to be written out
//! as PEM files.

pub mod cert_spec;
pub mod gen;
pub mod loader;
pub mod ossl;

pub use cert_spec::Certificate;
pub use cert_spec::Key;
pub use cert_spec::Spec;
pub use cert_spec::Subject;
pub use cert_spec::Validity;
