//! Requests of the auth and onboarding endpoints.
use vstd::prelude::*;

use crate::auth::password::{check_password_policy, policy_verdict, PasswordPolicyErrors};

verus! {

/// The code and state an identity provider hands back.
pub struct OidcCallbackParams {
    pub code: String,
    pub state: String,
}

/// A password change. The current password is needed when one is set.
pub struct UpdatePasswordRequest {
    pub current_password: Option<String>,
    pub new_password: String,
}

impl UpdatePasswordRequest {
    /// The new password must meet the password policy.
    pub fn validate(&self) -> (r: Result<(), PasswordPolicyErrors>)
        ensures
            r == policy_verdict(self.new_password@),
    {
        check_password_policy(self.new_password.as_str())
    }
}

/// Starts a sign-in with an identity provider.
pub struct OidcAuthorizeParams {
    /// `login`, `register` or `link`.
    pub flow: Option<String>,
    pub return_url: Option<String>,
    pub terms_accepted: Option<bool>,
    pub marketing_opt_in: Option<bool>,
}

/// A password reset with its emailed token.
pub struct ResetPasswordRequest {
    pub token: String,
    pub password: String,
}

impl ResetPasswordRequest {
    /// The new password must meet the password policy.
    pub fn validate(&self) -> (r: Result<(), PasswordPolicyErrors>)
        ensures
            r == policy_verdict(self.password@),
    {
        check_password_policy(self.password.as_str())
    }
}

/// The network created during setup.
pub struct NetworkSetup {
    pub name: String,
}

/// Organization and network set up before registration.
pub struct SetupRequest {
    pub organization_name: String,
    pub network: NetworkSetup,
}

/// Verifies an email address with its emailed token.
pub struct VerifyEmailRequest {
    pub token: String,
}

/// What an organization uses Scanopy for.
#[derive(Debug, Clone, Copy, PartialEq, Eq, Structural)]
pub enum UseCase {
    Homelab,
    Company,
    Msp,
}

/// Saves an onboarding step.
pub struct OnboardingStepRequest {
    pub step: String,
    pub use_case: Option<UseCase>,
}

} // verus!
