//! A presigning configuration together with the validity it was made for.
//! The pair is made in one place, from one number, so the validity a
//! caller reads is the one the configuration carries.
use vstd::prelude::*;
use aws_sdk_s3::presigning::PresigningConfig;

verus! {

/// `aws_sdk_s3::presigning::PresigningConfig`, carried through opaquely.
#[verifier::external_type_specification]
#[verifier::external_body]
pub struct ExPresigningConfig(PresigningConfig);

/// The longest validity the S3 presigner accepts: one week.
pub const MAX_PRESIGN_SECS: u64 = 604800;

/// A presigning configuration and the validity, in seconds, it was built
/// with.
pub struct PresignWindow {
    config: PresigningConfig,
    expires_secs: u64,
}

impl PresignWindow {
    /// The validity, in seconds, of the URLs signed under this window.
    pub closed spec fn spec_expires_secs(self) -> u64 {
        self.expires_secs
    }

    pub fn expires_secs(&self) -> (r: u64)
        ensures
            r == self.spec_expires_secs(),
    {
        self.expires_secs
    }

    /// The configuration, to hand to the S3 presigner.
    pub fn into_config(self) -> PresigningConfig {
        self.config
    }
}

/// `PresigningConfig::expires_in(Duration::from_secs(secs))`, paired with
/// `secs` and its error rendered as text. The builder refuses a validity
/// longer than a week, and, the validity being given, that is the only
/// error it can give.
#[verifier::external_body]
pub(crate) fn presigning_window(expires_in_secs: u64) -> (r: Result<PresignWindow, String>)
    ensures
        r is Ok <==> expires_in_secs <= MAX_PRESIGN_SECS,
        r matches Ok(w) ==> w.spec_expires_secs() == expires_in_secs,
        r matches Err(m) ==> m@ == "`expires_in` must be no longer than one week"@,
{
    PresigningConfig::expires_in(std::time::Duration::from_secs(expires_in_secs))
        .map(|config| PresignWindow { config, expires_secs: expires_in_secs })
        .map_err(|e| e.to_string())
}

} // verus!
