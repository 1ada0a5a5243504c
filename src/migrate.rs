//! Registration of a local person and its login account, as a sequence of
//! decisions between the reads and writes that the caller performs.
//!
//! The caller reads the site, calls [`Migration::begin`], looks up the
//! lower-cased email when there is one, calls [`Migration::prepare_person`],
//! writes the person, calls [`Migration::after_person`], writes the account
//! and ends with [`Migration::finish`]. Each step either hands back what to
//! write next or the error that ends the registration.
use vstd::prelude::*;
use crate::endpoints::{
    generate_inbox_url, generate_local_person_endpoint, generate_shared_inbox_url,
    inbox_of, person_endpoint_of, protocol_and_hostname_of, shared_inbox_of, Settings,
};
use crate::validation::{
    actor_name_ok, is_valid_actor_name, password_length_check, password_ok, sanitize_html,
    sanitized,
};

verus! {

/// How new accounts are admitted.
#[derive(Clone, Copy, Debug, PartialEq, Eq, Structural)]
pub enum RegistrationMode {
    Closed,
    RequireApplication,
    Open,
}

/// Which posts a listing shows by default.
#[derive(Clone, Copy, Debug, PartialEq, Eq, Structural)]
pub enum ListingType {
    All,
    Local,
    Subscribed,
}

/// The instance-wide settings that a registration reads.
#[derive(Clone, Copy, Debug, PartialEq, Eq, Structural)]
pub struct LocalSite {
    /// Whether the first registration has already set the instance up.
    pub site_setup: bool,
    pub registration_mode: RegistrationMode,
    /// Longest accepted actor name, in characters.
    pub actor_name_max_length: usize,
    pub default_post_listing_type: ListingType,
}

/// The local site as read at the start of a registration.
#[derive(Clone, Copy, Debug, PartialEq, Eq, Structural)]
pub struct SiteView {
    pub local_site: LocalSite,
    /// The instance that new persons belong to.
    pub instance_id: i32,
}

/// A registration request.
pub struct Migrate {
    pub username: String,
    pub password: String,
    pub email: Option<String>,
    pub show_nsfw: bool,
    /// Must equal the administrative secret of the instance.
    pub operate_password: String,
}

/// What a completed registration reports.
#[derive(Clone, Copy, Debug, PartialEq, Eq, Structural)]
pub struct MigrateResponse {
    /// False exactly when this registration set the instance up.
    pub ok: bool,
    pub user_id: Option<i32>,
}

/// Why a registration stopped.
#[derive(Clone, Copy, Debug, PartialEq, Eq, Structural)]
pub enum MigrateError {
    /// The site could not be read.
    SiteNotSetup,
    /// The administrative secret did not match.
    AuthorizationError,
    /// The password is too short or too long.
    PasswordPolicyError,
    /// The user name is not an acceptable actor name.
    InvalidName,
    /// An account already has this email.
    DuplicateEmail,
    /// The person could not be written, most often because the name is taken.
    DuplicateIdentity,
    /// The person was written but its account was not.
    AccountWriteError,
    /// No signing keypair could be generated.
    KeypairError,
}

/// The string key under which an error is reported to clients.
pub open spec fn error_code_of(e: MigrateError) -> Seq<char> {
    match e {
        MigrateError::SiteNotSetup => "site_not_setup"@,
        MigrateError::AuthorizationError => "migrate_operate_password_error"@,
        MigrateError::PasswordPolicyError => "invalid_password"@,
        MigrateError::InvalidName => "invalid_name"@,
        MigrateError::DuplicateEmail => "email_already_exists"@,
        MigrateError::DuplicateIdentity => "user_already_exists"@,
        MigrateError::AccountWriteError => "account_write_error"@,
        MigrateError::KeypairError => "keypair_error"@,
    }
}

impl MigrateError {
    /// The string key under which this error is reported to clients.
    pub fn code(&self) -> (r: &'static str)
        ensures
            r@ == error_code_of(*self),
    {
        match self {
            MigrateError::SiteNotSetup => "site_not_setup",
            MigrateError::AuthorizationError => "migrate_operate_password_error",
            MigrateError::PasswordPolicyError => "invalid_password",
            MigrateError::InvalidName => "invalid_name",
            MigrateError::DuplicateEmail => "email_already_exists",
            MigrateError::DuplicateIdentity => "user_already_exists",
            MigrateError::AccountWriteError => "account_write_error",
            MigrateError::KeypairError => "keypair_error",
        }
    }
}

/// The signing keys of an actor, as PEM text.
pub struct ActorKeypair {
    pub private_key: String,
    pub public_key: String,
}

/// The person record to write.
pub struct PersonInsertForm {
    pub name: String,
    pub actor_id: String,
    pub private_key: Option<String>,
    pub public_key: String,
    pub inbox_url: String,
    pub shared_inbox_url: String,
    pub admin: bool,
    pub instance_id: i32,
}

/// The account record to write, bound to a written person.
pub struct LocalUserInsertForm {
    pub person_id: i32,
    pub email: Option<String>,
    pub password_encrypted: String,
    pub show_nsfw: bool,
    pub accepted_application: bool,
    pub default_listing_type: ListingType,
}

/// A registration that has passed validation: what the later steps need.
pub struct Migration {
    pub site: SiteView,
    /// The sanitised, validated user name.
    pub name: String,
    pub actor_id: String,
    pub inbox_url: String,
    pub shared_inbox_url: String,
    /// The email, lower-cased: both what is looked up and what is stored.
    pub email: Option<String>,
    pub password: String,
    pub show_nsfw: bool,
}

/// The lower-case form that `str::to_lowercase` gives.
pub uninterp spec fn lower_of(s: Seq<char>) -> Seq<char>;

/// Relies on str::to_lowercase: the result depends on the characters alone.
#[verifier::external_body]
fn to_lowercase(s: &str) -> (r: String)
    ensures
        r@ == lower_of(s@),
{
    s.to_lowercase()
}

/// Relies on activitypub_federation::http_signatures::generate_actor_keypair for a
/// fresh RSA keypair in PEM text; its failure comes back as `None`.
#[verifier::external_body]
fn generate_actor_keypair() -> (r: Option<ActorKeypair>) {
    match activitypub_federation::http_signatures::generate_actor_keypair() {
        Ok(k) => Some(ActorKeypair { private_key: k.private_key, public_key: k.public_key }),
        Err(_) => None,
    }
}

/// The first check that a request fails, if any: the site must have been read, the
/// secret must match, then the password and the sanitised name must be acceptable.
pub open spec fn validation_error(site: Option<SiteView>, data: Migrate, secret: String) -> Option<
    MigrateError,
> {
    if site is None {
        Some(MigrateError::SiteNotSetup)
    } else if data.operate_password@ != secret@ {
        Some(MigrateError::AuthorizationError)
    } else if !password_ok(data.password@) {
        Some(MigrateError::PasswordPolicyError)
    } else if !actor_name_ok(
        sanitized(data.username@),
        site->0.local_site.actor_name_max_length as nat,
    ) {
        Some(MigrateError::InvalidName)
    } else {
        None
    }
}

/// The email as stored and looked up: lower-cased.
pub open spec fn stored_email(email: Option<String>) -> Option<Seq<char>> {
    match email {
        Some(e) => Some(lower_of(e@)),
        None => None,
    }
}

/// A new account is accepted at once unless applications are required.
pub open spec fn accepted_application_of(mode: RegistrationMode) -> bool {
    mode != RegistrationMode::RequireApplication
}

impl Migration {
    /// This value is what validating `data` against `site` and `settings` yields.
    pub open spec fn prepared_from(self, site: SiteView, settings: Settings, data: Migrate) -> bool {
        let base = protocol_and_hostname_of(settings.hostname@, settings.tls_enabled);
        &&& self.site == site
        &&& self.name@ == sanitized(data.username@)
        &&& self.actor_id@ == person_endpoint_of(self.name@, base)
        &&& self.inbox_url@ == inbox_of(self.actor_id@)
        &&& self.shared_inbox_url@ == shared_inbox_of(base)
        &&& (match self.email {
            Some(e) => stored_email(data.email) == Some(e@),
            None => data.email is None,
        })
        &&& self.password == data.password
        &&& self.show_nsfw == data.show_nsfw
    }

    /// The person written with the keypair `keys`: an administrator exactly when the
    /// site was not yet set up.
    pub open spec fn person_form_of(self, keys: ActorKeypair) -> PersonInsertForm {
        PersonInsertForm {
            name: self.name,
            actor_id: self.actor_id,
            private_key: Some(keys.private_key),
            public_key: keys.public_key,
            inbox_url: self.inbox_url,
            shared_inbox_url: self.shared_inbox_url,
            admin: !self.site.local_site.site_setup,
            instance_id: self.site.instance_id,
        }
    }

    /// `form` is the person of this registration, with some keypair.
    pub open spec fn person_form_fits(self, form: PersonInsertForm) -> bool {
        &&& form.private_key is Some
        &&& form == self.person_form_of(
            ActorKeypair { private_key: form.private_key->0, public_key: form.public_key },
        )
    }

    /// The account written for the person with id `person_id`.
    pub open spec fn local_user_form_of(self, person_id: i32) -> LocalUserInsertForm {
        LocalUserInsertForm {
            person_id,
            email: self.email,
            password_encrypted: self.password,
            show_nsfw: self.show_nsfw,
            accepted_application: accepted_application_of(self.site.local_site.registration_mode),
            default_listing_type: self.site.local_site.default_post_listing_type,
        }
    }

    /// The report of a registration whose account got the id `user_id`.
    pub open spec fn response_of(self, user_id: i32) -> MigrateResponse {
        MigrateResponse { ok: self.site.local_site.site_setup, user_id: Some(user_id) }
    }

    /// What comes of the person step, given whether the email was found taken and
    /// what the keypair generation gave.
    pub open spec fn person_step(self, email_taken: bool, keys: Option<ActorKeypair>) -> Result<
        PersonInsertForm,
        MigrateError,
    > {
        if email_taken && self.email is Some {
            Err(MigrateError::DuplicateEmail)
        } else {
            match keys {
                Some(k) => Ok(self.person_form_of(k)),
                None => Err(MigrateError::KeypairError),
            }
        }
    }

    /// What comes of the account step, given the id of the written person, if any.
    pub open spec fn account_step(self, person_id: Option<i32>) -> Result<
        LocalUserInsertForm,
        MigrateError,
    > {
        match person_id {
            Some(id) => Ok(self.local_user_form_of(id)),
            None => Err(MigrateError::DuplicateIdentity),
        }
    }

    /// What the registration reports, given the id of the written account, if any.
    pub open spec fn finish_step(self, user_id: Option<i32>) -> Result<MigrateResponse, MigrateError> {
        match user_id {
            Some(id) => Ok(self.response_of(id)),
            None => Err(MigrateError::AccountWriteError),
        }
    }
}

impl Migration {
    /// Validates a request against the site as read (`None` where it could not be
    /// read) and derives the new actor's addresses. Fails with the first check that
    /// the request does not pass, in the order of [`validation_error`].
    pub fn begin(
        site: Option<SiteView>,
        settings: &Settings,
        data: &Migrate,
        operate_secret: &String,
    ) -> (r: Result<Migration, MigrateError>)
        ensures
            match r {
                Ok(m) => validation_error(site, *data, *operate_secret) is None && m.prepared_from(
                    site->0,
                    *settings,
                    *data,
                ),
                Err(e) => validation_error(site, *data, *operate_secret) == Some(e),
            },
    {
        let site = match site {
            Some(s) => s,
            None => return Err(MigrateError::SiteNotSetup),
        };
        if !data.operate_password.eq(operate_secret) {
            return Err(MigrateError::AuthorizationError);
        }
        if !password_length_check(data.password.as_str()) {
            return Err(MigrateError::PasswordPolicyError);
        }
        let name = sanitize_html(data.username.as_str());
        if !is_valid_actor_name(name.as_str(), site.local_site.actor_name_max_length) {
            return Err(MigrateError::InvalidName);
        }
        let base = settings.get_protocol_and_hostname();
        let actor_id = generate_local_person_endpoint(name.as_str(), base.as_str());
        let inbox_url = generate_inbox_url(actor_id.as_str());
        let shared_inbox_url = generate_shared_inbox_url(base.as_str());
        let email = match &data.email {
            Some(e) => Some(to_lowercase(e.as_str())),
            None => None,
        };
        Ok(
            Migration {
                site,
                name,
                actor_id,
                inbox_url,
                shared_inbox_url,
                email,
                password: data.password.clone(),
                show_nsfw: data.show_nsfw,
            },
        )
    }

    /// The person record for the keypair `keys`.
    pub fn person_form(&self, keys: ActorKeypair) -> (r: PersonInsertForm)
        ensures
            r == self.person_form_of(keys),
    {
        PersonInsertForm {
            name: self.name.clone(),
            actor_id: self.actor_id.clone(),
            private_key: Some(keys.private_key),
            public_key: keys.public_key,
            inbox_url: self.inbox_url.clone(),
            shared_inbox_url: self.shared_inbox_url.clone(),
            admin: !self.site.local_site.site_setup,
            instance_id: self.site.instance_id,
        }
    }

    /// Given whether the email was found taken, fails with `DuplicateEmail`, or
    /// generates a keypair and hands back the person to write.
    pub fn prepare_person(&self, email_taken: bool) -> (r: Result<PersonInsertForm, MigrateError>)
        ensures
            email_taken && self.email is Some ==> r == Err::<PersonInsertForm, MigrateError>(
                MigrateError::DuplicateEmail,
            ),
            !(email_taken && self.email is Some) ==> match r {
                Ok(form) => self.person_form_fits(form),
                Err(e) => e == MigrateError::KeypairError,
            },
    {
        if email_taken && self.email.is_some() {
            return Err(MigrateError::DuplicateEmail);
        }
        match generate_actor_keypair() {
            Some(keys) => Ok(self.person_form(keys)),
            None => Err(MigrateError::KeypairError),
        }
    }

    /// The account record for the person with id `person_id`.
    pub fn local_user_form(&self, person_id: i32) -> (r: LocalUserInsertForm)
        ensures
            r == self.local_user_form_of(person_id),
    {
        let email = match &self.email {
            Some(e) => Some(e.clone()),
            None => None,
        };
        let accepted_application = match self.site.local_site.registration_mode {
            RegistrationMode::RequireApplication => false,
            _ => true,
        };
        LocalUserInsertForm {
            person_id,
            email,
            password_encrypted: self.password.clone(),
            show_nsfw: self.show_nsfw,
            accepted_application,
            default_listing_type: self.site.local_site.default_post_listing_type,
        }
    }

    /// Given the id of the written person (`None` where writing it failed), hands
    /// back the account to write, or fails with `DuplicateIdentity`.
    pub fn after_person(&self, person_id: Option<i32>) -> (r: Result<
        LocalUserInsertForm,
        MigrateError,
    >)
        ensures
            r == self.account_step(person_id),
    {
        match person_id {
            Some(id) => Ok(self.local_user_form(id)),
            None => Err(MigrateError::DuplicateIdentity),
        }
    }

    /// Given the id of the written account (`None` where writing it failed), hands
    /// back the report, or fails with `AccountWriteError`.
    pub fn finish(&self, user_id: Option<i32>) -> (r: Result<MigrateResponse, MigrateError>)
        ensures
            r == self.finish_step(user_id),
    {
        match user_id {
            Some(id) => Ok(MigrateResponse { ok: self.site.local_site.site_setup, user_id: Some(id) }),
            None => Err(MigrateError::AccountWriteError),
        }
    }
}

} // verus!
