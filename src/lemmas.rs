//! Laws of a registration, stated over the steps of [`crate::migrate::Migration`].
use vstd::prelude::*;
use crate::endpoints::{
    inbox_of, person_endpoint_of, protocol_and_hostname_of, shared_inbox_of, Settings,
};
use crate::migrate::{
    lower_of, validation_error, ActorKeypair, Migrate, MigrateError, Migration, RegistrationMode,
    SiteView,
};
use crate::validation::sanitized;

verus! {

/// For a valid request, the person written is an administrator exactly when the
/// site had not been set up before the registration.
pub proof fn lemma_admin_exactly_on_bootstrap(
    site: SiteView,
    settings: Settings,
    data: Migrate,
    secret: String,
    m: Migration,
    keys: ActorKeypair,
)
    requires
        validation_error(Some(site), data, secret) is None,
        m.prepared_from(site, settings, data),
    ensures
        m.person_form_of(keys).admin == !site.local_site.site_setup,
        forall|email_taken: bool|
            #[trigger] m.person_step(email_taken, Some(keys)) is Ok ==> m.person_step(
                email_taken,
                Some(keys),
            )->Ok_0.admin == !site.local_site.site_setup,
{
}

/// For a valid request whose records were written, the report's `ok` flag is
/// whether the site had been set up before the registration.
pub proof fn lemma_success_iff_site_was_setup(
    site: SiteView,
    settings: Settings,
    data: Migrate,
    secret: String,
    m: Migration,
    user_id: i32,
)
    requires
        validation_error(Some(site), data, secret) is None,
        m.prepared_from(site, settings, data),
    ensures
        m.finish_step(Some(user_id)) is Ok,
        m.finish_step(Some(user_id))->Ok_0.ok == site.local_site.site_setup,
        m.finish_step(Some(user_id))->Ok_0.user_id == Some(user_id),
{
}

/// Under open registration the account is accepted at once; where applications are
/// required it is not.
pub proof fn lemma_accepted_application_follows_mode(
    site: SiteView,
    settings: Settings,
    data: Migrate,
    m: Migration,
    person_id: i32,
)
    requires
        m.prepared_from(site, settings, data),
    ensures
        m.account_step(Some(person_id)) is Ok,
        site.local_site.registration_mode == RegistrationMode::Open ==> m.account_step(
            Some(person_id),
        )->Ok_0.accepted_application,
        site.local_site.registration_mode == RegistrationMode::RequireApplication ==> !m.account_step(
            Some(person_id),
        )->Ok_0.accepted_application,
{
}

/// The actor's addresses depend on the protocol, the host name and the sanitised
/// user name alone: the same three give the same addresses.
pub proof fn lemma_actor_addresses_deterministic(
    settings: Settings,
    site1: SiteView,
    data1: Migrate,
    m1: Migration,
    site2: SiteView,
    data2: Migrate,
    m2: Migration,
)
    requires
        m1.prepared_from(site1, settings, data1),
        m2.prepared_from(site2, settings, data2),
        sanitized(data1.username@) == sanitized(data2.username@),
    ensures
        m1.actor_id@ == person_endpoint_of(
            sanitized(data1.username@),
            protocol_and_hostname_of(settings.hostname@, settings.tls_enabled),
        ),
        m1.actor_id@ == m2.actor_id@,
        m1.inbox_url@ == m2.inbox_url@,
        m1.shared_inbox_url@ == m2.shared_inbox_url@,
        m1.inbox_url@ == inbox_of(m1.actor_id@),
        m1.shared_inbox_url@ == shared_inbox_of(
            protocol_and_hostname_of(settings.hostname@, settings.tls_enabled),
        ),
{
}

/// An email found taken ends the registration with `DuplicateEmail` before the
/// person is formed, whatever the keypair generation would give. The email looked
/// up is the lower-cased one, and the account stores that same value.
pub proof fn lemma_duplicate_email_rejected_before_writes(
    site: SiteView,
    settings: Settings,
    data: Migrate,
    m: Migration,
    keys: Option<ActorKeypair>,
    person_id: i32,
)
    requires
        m.prepared_from(site, settings, data),
        data.email is Some,
    ensures
        m.person_step(true, keys) == Err::<crate::migrate::PersonInsertForm, MigrateError>(
            MigrateError::DuplicateEmail,
        ),
        m.email is Some,
        m.email->0@ == lower_of(data.email->0@),
        m.local_user_form_of(person_id).email == m.email,
{
}

/// When the person cannot be written the registration fails with
/// `DuplicateIdentity`, and no account is formed.
pub proof fn lemma_person_conflict_writes_no_account(
    site: SiteView,
    settings: Settings,
    data: Migrate,
    m: Migration,
)
    requires
        m.prepared_from(site, settings, data),
    ensures
        m.account_step(None) == Err::<crate::migrate::LocalUserInsertForm, MigrateError>(
            MigrateError::DuplicateIdentity,
        ),
{
}

/// A wrong administrative secret is rejected with `AuthorizationError`, whatever
/// the other fields hold and whether or not the site has been set up.
pub proof fn lemma_wrong_secret_rejected(site: SiteView, data: Migrate, secret: String)
    requires
        data.operate_password@ != secret@,
    ensures
        validation_error(Some(site), data, secret) == Some(MigrateError::AuthorizationError),
{
}

} // verus!
