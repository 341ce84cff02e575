//! The vault's life: not configured, configured and locked, configured and
//! unlocked. Each operation works on the stored records and the session key
//! as plain values; reading and writing them is the caller's part.

use crate::backup::{
    app_lock_backup_and_reset_secure_db, backup_name, decimal_text, planned_renames, BackupPlan,
    DatabaseFiles, SECURE_DB_FILE_NAME,
};
use crate::engine::{
    build_keyset_from_passphrase, built_from, platform_params, random_bytes, unwrap_dek,
    unwrap_outcome, wrapped_key_sized, Platform, APP_LOCK_PASSPHRASE_MIN_LENGTH,
    MAX_PASSPHRASE_LENGTH,
};
use crate::error::LockError;
use crate::hex::{blank, encode_hex, hex_text, is_blank, KEY_LENGTH};
use crate::keyset::{Keyset, KeysetView};
use vstd::prelude::*;

verus! {

/// What the process remembers between calls. Neither flag is ever stored.
#[derive(Clone, Copy, Debug, PartialEq, Eq, Structural)]
pub struct AppLockRuntimeState {
    /// Whether the vault was unlocked in this session. It only means
    /// something while a keyset exists.
    pub unlocked: bool,
    /// Whether a keyset exists, once that has been looked up or set.
    pub configured_cache: Option<bool>,
}

impl Default for AppLockRuntimeState {
    fn default() -> (state: Self)
        ensures
            state == (AppLockRuntimeState { unlocked: false, configured_cache: None }),
    {
        AppLockRuntimeState { unlocked: false, configured_cache: None }
    }
}

/// The answer to a status request.
#[derive(Clone, Copy, Debug, PartialEq, Eq, Structural)]
pub struct AppLockStatus {
    pub configured: bool,
    pub unlocked: bool,
}

/// The stored records and the session key. At most one of `keyset` and
/// `open_dek` is the authority for the data key: the keyset while a
/// passphrase protects the vault, the open key while none does.
#[derive(Debug)]
pub struct Vault {
    /// The record that wraps the data key under the passphrase.
    pub keyset: Option<Keyset>,
    /// The data key stored unwrapped, while no passphrase is configured.
    pub open_dek: Option<[u8; KEY_LENGTH]>,
    /// The data key as hexadecimal text, as the database engine is given it
    /// when it opens a connection.
    pub session_key: Option<String>,
}

/// A vault as plain values.
pub struct VaultView {
    pub keyset: Option<KeysetView>,
    pub open_dek: Option<Seq<u8>>,
    pub session_key: Option<Seq<char>>,
}

impl View for Vault {
    type V = VaultView;

    open spec fn view(&self) -> VaultView {
        VaultView {
            keyset: match self.keyset {
                Some(keyset) => Some(keyset@),
                None => None,
            },
            open_dek: match self.open_dek {
                Some(dek) => Some(dek@),
                None => None,
            },
            session_key: match self.session_key {
                Some(key) => Some(key@),
                None => None,
            },
        }
    }
}

/// Whether the database engine would find a session key: one is set and is
/// not blank.
pub open spec fn session_key_set(vault: VaultView) -> bool {
    vault.session_key matches Some(key) && !is_blank(key)
}

/// Whether the vault counts as configured: what the cache says, or, where it
/// says nothing yet, whether a keyset exists.
pub open spec fn configured(runtime: AppLockRuntimeState, vault: VaultView) -> bool {
    match runtime.configured_cache {
        Some(cached) => cached,
        None => vault.keyset is Some,
    }
}

/// Whether the remembered answer, where there is one, is true of the vault,
/// and the vault has one authority for its data key: not both a keyset and
/// an open key.
pub open spec fn well_formed(runtime: AppLockRuntimeState, vault: VaultView) -> bool {
    &&& runtime.configured_cache matches Some(cached) ==> cached == (vault.keyset is Some)
    &&& !(vault.keyset is Some && vault.open_dek is Some)
}

/// The vault with `dek` as its session key.
pub open spec fn with_session_key(vault: VaultView, dek: Seq<u8>) -> VaultView {
    VaultView { session_key: Some(hex_text(dek)), ..vault }
}

/// The vault without a session key.
pub open spec fn without_session_key(vault: VaultView) -> VaultView {
    VaultView { session_key: None, ..vault }
}

/// The runtime state after a lock.
pub open spec fn locked(runtime: AppLockRuntimeState) -> AppLockRuntimeState {
    AppLockRuntimeState { unlocked: false, ..runtime }
}

/// What status reports where it succeeds: a configured vault is as unlocked
/// as the runtime state says, an unconfigured vault always is.
pub open spec fn status_report(runtime: AppLockRuntimeState, vault: VaultView) -> AppLockStatus {
    if configured(runtime, vault) {
        AppLockStatus { configured: true, unlocked: runtime.unlocked }
    } else {
        AppLockStatus { configured: false, unlocked: true }
    }
}

/// The three states of a vault.
#[derive(Clone, Copy, Debug, PartialEq, Eq, Structural)]
pub enum VaultState {
    /// No passphrase protects the vault; it is always usable.
    NotConfigured,
    /// A passphrase protects the vault and has not been given.
    ConfiguredLocked,
    /// A passphrase protects the vault and has been given.
    ConfiguredUnlocked,
}

/// The state that a vault is in.
pub open spec fn state_of(runtime: AppLockRuntimeState, vault: VaultView) -> VaultState {
    if vault.keyset is None {
        VaultState::NotConfigured
    } else if runtime.unlocked {
        VaultState::ConfiguredUnlocked
    } else {
        VaultState::ConfiguredLocked
    }
}

/// The runtime state after unlock: unlocked if and only if the passphrase
/// opened the keyset.
pub open spec fn runtime_after_unlock(
    runtime: AppLockRuntimeState,
    vault: VaultView,
    passphrase: Seq<char>,
) -> AppLockRuntimeState {
    AppLockRuntimeState {
        unlocked: unlock_result(vault, passphrase) == Ok::<bool, LockError>(true),
        ..runtime
    }
}

/// The vault after status has looked at it while configured: a locked vault
/// loses its session key.
pub open spec fn vault_after_status(runtime: AppLockRuntimeState, vault: VaultView) -> VaultView {
    if runtime.unlocked {
        vault
    } else {
        without_session_key(vault)
    }
}

/// How an unconfigured vault comes to a session key. One that is set stays.
/// Otherwise the open key becomes the session key; where there is none,
/// `fresh` is stored as the open key first. Where there is neither an open
/// key nor a fresh one, nothing changes.
pub open spec fn provisioned(vault: VaultView, fresh: Option<Seq<u8>>) -> VaultView {
    if session_key_set(vault) {
        vault
    } else {
        match vault.open_dek {
            Some(dek) => with_session_key(vault, dek),
            None => match fresh {
                Some(dek) => with_session_key(VaultView { open_dek: Some(dek), ..vault }, dek),
                None => vault,
            },
        }
    }
}

/// Whether provisioning has a session key to show for itself.
pub open spec fn provision_succeeds(vault: VaultView, fresh: Option<Seq<u8>>) -> bool {
    session_key_set(vault) || vault.open_dek is Some || fresh is Some
}

/// The vault once `keyset`, which `passphrase` opens to `dek`, protects it.
pub open spec fn vault_with_keyset(keyset: KeysetView, dek: Seq<u8>) -> VaultView {
    VaultView { keyset: Some(keyset), open_dek: None, session_key: Some(hex_text(dek)) }
}

/// What a successful configure leaves: a keyset that wraps the former open
/// key, or a new key where there was none, under `passphrase`; no open key;
/// and that key as the session key.
pub open spec fn configured_from(
    before: VaultView,
    passphrase: Seq<char>,
    platform: Platform,
    after: VaultView,
) -> bool {
    &&& before.keyset is None
    &&& passphrase.len() >= APP_LOCK_PASSPHRASE_MIN_LENGTH
    &&& after.keyset matches Some(keyset)
    &&& unwrap_outcome(keyset, passphrase) matches Ok(dek)
    &&& built_from(keyset, passphrase, dek, platform_params(platform))
    &&& before.open_dek matches Some(open) ==> dek == open
    &&& wrapped_key_sized(keyset)
    &&& after == vault_with_keyset(keyset, dek)
}

/// Whether a vault is fresh: it has neither a keyset nor an open key, so
/// that configuring it draws a new data key, and a database left from
/// earlier could not be read with it.
pub open spec fn fresh(vault: VaultView) -> bool {
    vault.keyset is None && vault.open_dek is None
}

/// The renames that configure asks for: on a fresh vault every file of the
/// database that exists is set aside under its backup name for the time
/// `unix_seconds`; on a vault with an open key the database stays in place.
pub open spec fn configure_renames(
    before: VaultView,
    files: DatabaseFiles,
    unix_seconds: u64,
) -> Seq<(Seq<char>, Seq<char>)> {
    if fresh(before) {
        planned_renames(SECURE_DB_FILE_NAME@, files, decimal_text(unix_seconds as nat))
    } else {
        Seq::empty()
    }
}

/// What unlock returns: an error where no keyset exists, else whether the
/// passphrase opened it.
pub open spec fn unlock_result(vault: VaultView, passphrase: Seq<char>) -> Result<
    bool,
    LockError,
> {
    match vault.keyset {
        None => Err(LockError::KeyMaterialUnavailable),
        Some(keyset) => Ok(unwrap_outcome(keyset, passphrase) is Ok),
    }
}

/// The vault after unlock: the data key as session key where the passphrase
/// opened the keyset, no session key where it did not.
pub open spec fn vault_after_unlock(vault: VaultView, passphrase: Seq<char>) -> VaultView {
    match vault.keyset {
        None => without_session_key(vault),
        Some(keyset) => match unwrap_outcome(keyset, passphrase) {
            Ok(dek) => with_session_key(vault, dek),
            Err(_) => without_session_key(vault),
        },
    }
}

/// What a successful disable leaves where a keyset existed: the data key as
/// open key and session key, and no keyset.
pub open spec fn vault_after_disable(vault: VaultView, dek: Seq<u8>) -> VaultView {
    VaultView { keyset: None, open_dek: Some(dek), session_key: Some(hex_text(dek)) }
}

/// What a successful change of passphrase leaves: a keyset that wraps, under
/// the new passphrase, the key that the old passphrase opened, and that key
/// as the session key.
pub open spec fn rotated_from(
    before: VaultView,
    current: Seq<char>,
    new: Seq<char>,
    platform: Platform,
    after: VaultView,
) -> bool {
    &&& before.keyset matches Some(old_keyset)
    &&& unwrap_outcome(old_keyset, current) matches Ok(dek)
    &&& new.len() >= APP_LOCK_PASSPHRASE_MIN_LENGTH
    &&& after.keyset matches Some(keyset)
    &&& unwrap_outcome(keyset, new) == Ok::<Seq<u8>, LockError>(dek)
    &&& built_from(keyset, new, dek, platform_params(platform))
    &&& wrapped_key_sized(keyset)
    &&& after.open_dek == before.open_dek
    &&& after.session_key == Some(hex_text(dek))
}

impl Vault {
    /// A vault that holds nothing yet: no keyset, no open key, no session
    /// key.
    pub fn new() -> (vault: Vault)
        ensures
            vault@ == (VaultView { keyset: None, open_dek: None, session_key: None }),
            forall|runtime: AppLockRuntimeState|
                runtime.configured_cache != Some(true) ==> #[trigger] well_formed(runtime, vault@),
    {
        Vault { keyset: None, open_dek: None, session_key: None }
    }
}

/// Records whether the vault is configured.
pub fn set_runtime_configured(runtime: &mut AppLockRuntimeState, value: bool)
    ensures
        *final(runtime) == (AppLockRuntimeState { configured_cache: Some(value), ..*old(runtime) }),
{
    runtime.configured_cache = Some(value);
}

/// Whether the vault is configured. The first answer is remembered, so the
/// keyset is looked at once per process unless the answer is set.
pub fn is_configured(runtime: &mut AppLockRuntimeState, vault: &Vault) -> (answer: bool)
    ensures
        answer == configured(*old(runtime), vault@),
        *final(runtime) == (AppLockRuntimeState { configured_cache: Some(answer), ..*old(runtime) }),
{
    let answer = match runtime.configured_cache {
        Some(cached) => cached,
        None => vault.keyset.is_some(),
    };
    runtime.configured_cache = Some(answer);
    answer
}

/// Records whether the vault is unlocked.
pub fn set_runtime_unlocked(runtime: &mut AppLockRuntimeState, value: bool)
    ensures
        *final(runtime) == (AppLockRuntimeState { unlocked: value, ..*old(runtime) }),
{
    runtime.unlocked = value;
}

/// Whether the vault was unlocked in this session.
pub fn runtime_is_unlocked(runtime: &AppLockRuntimeState) -> (unlocked: bool)
    ensures
        unlocked == runtime.unlocked,
{
    runtime.unlocked
}

/// Makes `dek` the session key.
pub fn set_sqlcipher_session_key(vault: &mut Vault, dek: &[u8; KEY_LENGTH])
    ensures
        final(vault)@ == with_session_key(old(vault)@, dek@),
{
    vault.session_key = Some(encode_hex(dek.as_slice()));
}

/// Removes the session key.
pub fn clear_sqlcipher_session_key(vault: &mut Vault)
    ensures
        final(vault)@ == without_session_key(old(vault)@),
{
    vault.session_key = None;
}

/// Whether a session key is set and not blank.
pub fn is_sqlcipher_key_set(vault: &Vault) -> (set: bool)
    ensures
        set == session_key_set(vault@),
{
    match &vault.session_key {
        Some(key) => !blank(key.as_str()),
        None => false,
    }
}

/// Gives an unconfigured vault its session key: the one it has, else the
/// open key, else `fresh`, which is then stored as the open key. `fresh` is
/// looked at in no other case.
pub fn provision_session_key(vault: &mut Vault, fresh: Option<[u8; KEY_LENGTH]>) -> (done: Result<
    (),
    LockError,
>)
    ensures
        final(vault)@ == provisioned(
            old(vault)@,
            match fresh {
                Some(dek) => Some(dek@),
                None => None,
            },
        ),
        done == if provision_succeeds(
            old(vault)@,
            match fresh {
                Some(dek) => Some(dek@),
                None => None,
            },
        ) {
            Ok::<(), LockError>(())
        } else {
            Err::<(), LockError>(LockError::RandomSource)
        },
{
    if is_sqlcipher_key_set(vault) {
        return Ok(());
    }
    let dek = match vault.open_dek {
        Some(dek) => dek,
        None => match fresh {
            None => {
                return Err(LockError::RandomSource);
            },
            Some(dek) => {
                vault.open_dek = Some(dek);
                dek
            },
        },
    };
    set_sqlcipher_session_key(vault, &dek);
    Ok(())
}

/// Gives an unconfigured vault its session key: the one it has, else the
/// open key, else a new random key that is stored as the open key. It fails
/// only where a new key is needed and none can be drawn.
pub fn ensure_sqlcipher_key_set(vault: &mut Vault) -> (done: Result<(), LockError>)
    ensures
        exists|fresh: Option<Seq<u8>>|
            {
                &&& fresh matches Some(dek) ==> dek.len() == KEY_LENGTH
                &&& final(vault)@ == #[trigger] provisioned(old(vault)@, fresh)
                &&& done is Ok == provision_succeeds(old(vault)@, fresh)
            },
        session_key_set(old(vault)@) || old(vault)@.open_dek is Some ==> done is Ok,
        done matches Err(e) ==> e == LockError::RandomSource && final(vault)@ == old(vault)@,
{
    let fresh = if is_sqlcipher_key_set(vault) || vault.open_dek.is_some() {
        None
    } else {
        random_bytes::<KEY_LENGTH>()
    };
    let ghost drawn: Option<Seq<u8>> = match fresh {
        Some(dek) => Some(dek@),
        None => None,
    };
    let done = provision_session_key(vault, fresh);
    assert(vault@ == provisioned(old(vault)@, drawn));
    done
}

/// Whether status has to look for the keyset: only while nothing is
/// remembered of it.
pub fn status_reads_keyset(runtime: &AppLockRuntimeState) -> (needed: bool)
    ensures
        needed == (runtime.configured_cache is None),
{
    runtime.configured_cache.is_none()
}

/// Whether status has to look for the open key: only where the vault is not
/// configured and has no session key yet.
pub fn status_reads_open_dek(runtime: &AppLockRuntimeState, vault: &Vault) -> (needed: bool)
    ensures
        needed == (!configured(*runtime, vault@) && !session_key_set(vault@)),
{
    let known = match runtime.configured_cache {
        Some(cached) => cached,
        None => vault.keyset.is_some(),
    };
    !known && !is_sqlcipher_key_set(vault)
}

/// Whether configuring this vault starts a fresh one: no keyset and no open
/// key. Configure then asks for any database left from an earlier vault to
/// be set aside, and the caller need only look for its files in that case.
pub fn starts_fresh_vault(vault: &Vault) -> (fresh: bool)
    ensures
        fresh == self::fresh(vault@),
{
    vault.keyset.is_none() && vault.open_dek.is_none()
}

/// Reports whether the vault is configured and unlocked. An unconfigured
/// vault is always usable: it is given its session key and reported as
/// unlocked. A configured and locked vault loses its session key.
pub fn app_lock_status(runtime: &mut AppLockRuntimeState, vault: &mut Vault) -> (status: Result<
    AppLockStatus,
    LockError,
>)
    ensures
        final(runtime).configured_cache == Some(configured(*old(runtime), old(vault)@)),
        configured(*old(runtime), old(vault)@) ==> {
            &&& status is Ok
            &&& final(runtime).unlocked == old(runtime).unlocked
            &&& final(vault)@ == vault_after_status(*old(runtime), old(vault)@)
        },
        !configured(*old(runtime), old(vault)@) ==> {
            &&& exists|fresh: Option<Seq<u8>>|
                {
                    &&& fresh matches Some(dek) ==> dek.len() == KEY_LENGTH
                    &&& final(vault)@ == #[trigger] provisioned(old(vault)@, fresh)
                    &&& status is Ok == provision_succeeds(old(vault)@, fresh)
                }
            &&& session_key_set(old(vault)@) || old(vault)@.open_dek is Some ==> status is Ok
            &&& status is Err ==> final(vault)@ == old(vault)@
            &&& match status {
                Ok(_) => final(runtime).unlocked,
                Err(e) => e == LockError::RandomSource && final(runtime).unlocked == old(
                    runtime,
                ).unlocked,
            }
        },
        status matches Ok(report) ==> report == status_report(*old(runtime), old(vault)@),
        well_formed(*old(runtime), old(vault)@) ==> well_formed(*final(runtime), final(vault)@),
{
    let is_set = is_configured(runtime, vault);
    if !is_set {
        match ensure_sqlcipher_key_set(vault) {
            Err(e) => {
                return Err(e);
            },
            Ok(_) => {},
        }
        set_runtime_unlocked(runtime, true);
        return Ok(AppLockStatus { configured: false, unlocked: true });
    }
    let unlocked = runtime_is_unlocked(runtime);
    if !unlocked {
        clear_sqlcipher_session_key(vault);
    }
    Ok(AppLockStatus { configured: true, unlocked })
}

/// What installing a keyset returns: the keyset is opened with the
/// passphrase first, and what fails there fails the installation.
pub open spec fn install_result(keyset: KeysetView, passphrase: Seq<char>) -> Result<
    (),
    LockError,
> {
    match unwrap_outcome(keyset, passphrase) {
        Ok(_) => Ok(()),
        Err(e) => Err(e),
    }
}

/// Puts a newly built keyset in charge: it is opened with the passphrase,
/// stored in place of the open key, and its data key becomes the session
/// key. Where the passphrase does not open it, nothing changes.
pub fn install_keyset(
    runtime: &mut AppLockRuntimeState,
    vault: &mut Vault,
    keyset: Keyset,
    passphrase: &str,
) -> (done: Result<(), LockError>)
    ensures
        done == install_result(keyset@, passphrase@),
        match unwrap_outcome(keyset@, passphrase@) {
            Ok(dek) => {
                &&& final(vault)@ == vault_with_keyset(keyset@, dek)
                &&& *final(runtime) == (AppLockRuntimeState {
                    unlocked: true,
                    configured_cache: Some(true),
                })
            },
            Err(_) => final(vault)@ == old(vault)@ && *final(runtime) == *old(runtime),
        },
{
    let dek = match unwrap_dek(&keyset, passphrase) {
        Err(e) => {
            return Err(e);
        },
        Ok(dek) => dek,
    };
    vault.keyset = Some(keyset);
    vault.open_dek = None;
    set_sqlcipher_session_key(vault, &dek);
    set_runtime_configured(runtime, true);
    set_runtime_unlocked(runtime, true);
    Ok(())
}

/// Protects the vault with a passphrase. The open key, where there is one,
/// becomes the wrapped key, so no data has to be encrypted again, and the
/// database stays in place. Else the vault is fresh: a new key is drawn, and
/// the plan that comes back sets aside every file of the database that
/// `files` says exists, under its backup name for the time `unix_seconds`.
/// The caller makes those renames before it stores the keyset. On any error
/// nothing changes and nothing is to be renamed. For a passphrase of eight
/// to `MAX_PASSPHRASE_LENGTH` code points on a vault without a keyset only
/// the random source can make it fail.
pub fn app_lock_configure(
    runtime: &mut AppLockRuntimeState,
    vault: &mut Vault,
    passphrase: &str,
    platform: Platform,
    files: DatabaseFiles,
    unix_seconds: u64,
) -> (done: Result<BackupPlan, LockError>)
    ensures
        old(vault)@.keyset is Some <==> done matches Err(LockError::AlreadyConfigured),
        old(vault)@.keyset is None && passphrase@.len() < APP_LOCK_PASSPHRASE_MIN_LENGTH <==> done
            matches Err(LockError::WeakPassphrase),
        match done {
            Ok(plan) => {
                &&& configured_from(old(vault)@, passphrase@, platform, final(vault)@)
                &&& *final(runtime) == (AppLockRuntimeState {
                    unlocked: true,
                    configured_cache: Some(true),
                })
                &&& well_formed(*final(runtime), final(vault)@)
                &&& plan.rename_pairs() == configure_renames(old(vault)@, files, unix_seconds)
                &&& match plan.backup {
                    Some(to) => fresh(old(vault)@) && files.database && to@ == backup_name(
                        SECURE_DB_FILE_NAME@,
                        decimal_text(unix_seconds as nat),
                    ),
                    None => !(fresh(old(vault)@) && files.database),
                }
            },
            Err(e) => {
                &&& final(vault)@ == old(vault)@
                &&& *final(runtime) == *old(runtime)
                &&& e == LockError::AlreadyConfigured || e == LockError::WeakPassphrase || e
                    == LockError::Kdf || e == LockError::RandomSource
            },
        },
        done matches Err(LockError::Kdf) ==> passphrase@.len() > MAX_PASSPHRASE_LENGTH,
{
    if vault.keyset.is_some() {
        return Err(LockError::AlreadyConfigured);
    }
    let plan = if starts_fresh_vault(vault) {
        app_lock_backup_and_reset_secure_db(SECURE_DB_FILE_NAME, files, unix_seconds)
    } else {
        let plan = BackupPlan { renames: Vec::new(), backup: None };
        assert(plan.rename_pairs() =~= Seq::empty());
        plan
    };
    let keyset = match build_keyset_from_passphrase(passphrase, vault.open_dek, platform) {
        Err(e) => {
            return Err(e);
        },
        Ok(keyset) => keyset,
    };
    match install_keyset(runtime, vault, keyset, passphrase) {
        Err(e) => Err(e),
        Ok(_) => Ok(plan),
    }
}

/// Tries a passphrase. A wrong one is no error: the answer is `false`, the
/// vault stays locked and has no session key.
pub fn app_lock_unlock(runtime: &mut AppLockRuntimeState, vault: &mut Vault, passphrase: &str) -> (opened:
    Result<bool, LockError>)
    ensures
        opened == unlock_result(old(vault)@, passphrase@),
        final(vault)@ == vault_after_unlock(old(vault)@, passphrase@),
        *final(runtime) == runtime_after_unlock(*old(runtime), old(vault)@, passphrase@),
        well_formed(*old(runtime), old(vault)@) ==> well_formed(*final(runtime), final(vault)@),
{
    let outcome = match &vault.keyset {
        None => None,
        Some(keyset) => Some(unwrap_dek(keyset, passphrase)),
    };
    match outcome {
        None => {
            clear_sqlcipher_session_key(vault);
            set_runtime_unlocked(runtime, false);
            Err(LockError::KeyMaterialUnavailable)
        },
        Some(Ok(dek)) => {
            set_sqlcipher_session_key(vault, &dek);
            set_runtime_unlocked(runtime, true);
            Ok(true)
        },
        Some(Err(_)) => {
            clear_sqlcipher_session_key(vault);
            set_runtime_unlocked(runtime, false);
            Ok(false)
        },
    }
}

/// Locks the vault: no session key, not unlocked.
pub fn app_lock_lock(runtime: &mut AppLockRuntimeState, vault: &mut Vault)
    ensures
        final(vault)@ == without_session_key(old(vault)@),
        *final(runtime) == locked(*old(runtime)),
        well_formed(*old(runtime), old(vault)@) ==> well_formed(*final(runtime), final(vault)@),
{
    clear_sqlcipher_session_key(vault);
    set_runtime_unlocked(runtime, false);
}

/// Removes the passphrase: the data key is opened with it and stored as the
/// open key, and the keyset is deleted. Without a keyset nothing happens. A
/// passphrase that does not open the keyset is an error and changes nothing.
pub fn app_lock_disable(runtime: &mut AppLockRuntimeState, vault: &mut Vault, passphrase: &str) -> (done:
    Result<(), LockError>)
    ensures
        match old(vault)@.keyset {
            None => done is Ok && final(vault)@ == old(vault)@ && *final(runtime) == *old(runtime),
            Some(keyset) => match unwrap_outcome(keyset, passphrase@) {
                Ok(dek) => {
                    &&& done is Ok
                    &&& final(vault)@ == vault_after_disable(old(vault)@, dek)
                    &&& *final(runtime) == (AppLockRuntimeState {
                        unlocked: true,
                        configured_cache: Some(false),
                    })
                },
                Err(e) => {
                    &&& done == Err::<(), LockError>(e)
                    &&& final(vault)@ == old(vault)@
                    &&& *final(runtime) == *old(runtime)
                },
            },
        },
        old(vault)@.keyset is Some && done is Ok ==> well_formed(*final(runtime), final(vault)@),
        well_formed(*old(runtime), old(vault)@) ==> well_formed(*final(runtime), final(vault)@),
{
    let outcome = match &vault.keyset {
        None => {
            return Ok(());
        },
        Some(keyset) => unwrap_dek(keyset, passphrase),
    };
    let dek = match outcome {
        Err(e) => {
            return Err(e);
        },
        Ok(dek) => dek,
    };
    vault.open_dek = Some(dek);
    vault.keyset = None;
    set_sqlcipher_session_key(vault, &dek);
    set_runtime_configured(runtime, false);
    set_runtime_unlocked(runtime, true);
    Ok(())
}

/// Puts a keyset that wraps the data key `dek` under a new passphrase in
/// the place of the old one, and makes `dek` the session key.
pub fn replace_keyset(
    runtime: &mut AppLockRuntimeState,
    vault: &mut Vault,
    keyset: Keyset,
    dek: &[u8; KEY_LENGTH],
)
    ensures
        final(vault)@ == (VaultView {
            keyset: Some(keyset@),
            session_key: Some(hex_text(dek@)),
            ..old(vault)@
        }),
        *final(runtime) == (AppLockRuntimeState { unlocked: true, ..*old(runtime) }),
{
    set_sqlcipher_session_key(vault, dek);
    vault.keyset = Some(keyset);
    set_runtime_unlocked(runtime, true);
}

/// Replaces the passphrase. The new keyset wraps the same data key, which
/// becomes the session key. On any error nothing changes. Where no keyset
/// exists the error is `NotConfigured`; where the current passphrase does
/// not open it, the error of the opening; where the new passphrase is too
/// short, `WeakPassphrase`. Beyond these only the random source can make it
/// fail, or Argon2 for a new passphrase of more than `MAX_PASSPHRASE_LENGTH`
/// code points.
pub fn app_lock_change_passphrase(
    runtime: &mut AppLockRuntimeState,
    vault: &mut Vault,
    current_passphrase: &str,
    new_passphrase: &str,
    platform: Platform,
) -> (done: Result<(), LockError>)
    ensures
        old(vault)@.keyset is None <==> done == Err::<(), LockError>(LockError::NotConfigured),
        old(vault)@.keyset matches Some(keyset) ==> match unwrap_outcome(
            keyset,
            current_passphrase@,
        ) {
            Err(e) => done == Err::<(), LockError>(e),
            Ok(_) => new_passphrase@.len() < APP_LOCK_PASSPHRASE_MIN_LENGTH <==> done == Err::<
                (),
                LockError,
            >(LockError::WeakPassphrase),
        },
        match done {
            Ok(_) => {
                &&& rotated_from(
                    old(vault)@,
                    current_passphrase@,
                    new_passphrase@,
                    platform,
                    final(vault)@,
                )
                &&& *final(runtime) == (AppLockRuntimeState { unlocked: true, ..*old(runtime) })
            },
            Err(_) => final(vault)@ == old(vault)@ && *final(runtime) == *old(runtime),
        },
        (old(vault)@.keyset matches Some(keyset) && unwrap_outcome(keyset, current_passphrase@) is Ok
            && new_passphrase@.len() >= APP_LOCK_PASSPHRASE_MIN_LENGTH && done is Err) ==> (done
            matches Err(e) && (e == LockError::Kdf || e == LockError::RandomSource) && (e
            == LockError::Kdf ==> new_passphrase@.len() > MAX_PASSPHRASE_LENGTH)),
        well_formed(*old(runtime), old(vault)@) ==> well_formed(*final(runtime), final(vault)@),
{
    let outcome = match &vault.keyset {
        None => {
            return Err(LockError::NotConfigured);
        },
        Some(keyset) => unwrap_dek(keyset, current_passphrase),
    };
    let dek = match outcome {
        Err(e) => {
            return Err(e);
        },
        Ok(dek) => dek,
    };
    let keyset = match build_keyset_from_passphrase(new_passphrase, Some(dek), platform) {
        Err(e) => {
            return Err(e);
        },
        Ok(keyset) => keyset,
    };
    replace_keyset(runtime, vault, keyset, &dek);
    Ok(())
}

/// Locking twice is locking once: the second lock changes nothing. After
/// either lock the status of a configured vault says `unlocked == false`,
/// and asking for it leaves the locked vault as it is.
pub proof fn lemma_lock_is_idempotent(runtime: AppLockRuntimeState, vault: VaultView)
    requires
        configured(runtime, vault),
    ensures
        locked(locked(runtime)) == locked(runtime),
        without_session_key(without_session_key(vault)) == without_session_key(vault),
        !status_report(locked(runtime), without_session_key(vault)).unlocked,
        !status_report(
            locked(locked(runtime)),
            without_session_key(without_session_key(vault)),
        ).unlocked,
        vault_after_status(locked(runtime), without_session_key(vault)) == without_session_key(
            vault,
        ),
{
}

/// An unlock that fails is no error: it answers `false` and leaves the
/// vault locked, without a session key, whatever it was before.
pub proof fn lemma_failed_unlock_stays_locked(
    runtime: AppLockRuntimeState,
    vault: VaultView,
    passphrase: Seq<char>,
)
    requires
        vault.keyset matches Some(keyset) && unwrap_outcome(keyset, passphrase) is Err,
    ensures
        unlock_result(vault, passphrase) == Ok::<bool, LockError>(false),
        vault_after_unlock(vault, passphrase) == without_session_key(vault),
        runtime_after_unlock(runtime, vault, passphrase) == locked(runtime),
        state_of(
            runtime_after_unlock(runtime, vault, passphrase),
            vault_after_unlock(vault, passphrase),
        ) == VaultState::ConfiguredLocked,
{
}

/// The states that the operations lead to: configure and a successful
/// unlock to unlocked, lock to locked where a keyset exists, disable to not
/// configured.
pub proof fn lemma_transitions(
    runtime: AppLockRuntimeState,
    vault: VaultView,
    passphrase: Seq<char>,
    platform: Platform,
    after: VaultView,
)
    ensures
        configured_from(vault, passphrase, platform, after) ==> state_of(runtime, vault)
            == VaultState::NotConfigured && state_of(
            AppLockRuntimeState { unlocked: true, configured_cache: Some(true) },
            after,
        ) == VaultState::ConfiguredUnlocked,
        unlock_result(vault, passphrase) == Ok::<bool, LockError>(true) ==> state_of(
            runtime_after_unlock(runtime, vault, passphrase),
            vault_after_unlock(vault, passphrase),
        ) == VaultState::ConfiguredUnlocked,
        vault.keyset is Some ==> state_of(locked(runtime), without_session_key(vault))
            == VaultState::ConfiguredLocked,
        forall|dek: Seq<u8>|
            state_of(
                AppLockRuntimeState { unlocked: true, configured_cache: Some(false) },
                #[trigger] vault_after_disable(vault, dek),
            ) == VaultState::NotConfigured,
{
}

/// After configure and lock, the configuring passphrase unlocks the vault
/// and brings back the very state that configure left, session key
/// included.
pub proof fn lemma_configure_lock_unlock(
    before: VaultView,
    passphrase: Seq<char>,
    platform: Platform,
    after: VaultView,
)
    requires
        configured_from(before, passphrase, platform, after),
    ensures
        unlock_result(without_session_key(after), passphrase) == Ok::<bool, LockError>(true),
        vault_after_unlock(without_session_key(after), passphrase) == after,
{
}

/// A change of passphrase keeps the data key: the new passphrase opens the
/// new keyset to the key that the old passphrase opened the old one to, the
/// session key of a vault that was unlocked stays what it was, and an
/// unlock with the new passphrase brings the same session key back.
pub proof fn lemma_rotation_keeps_data_key(
    before: VaultView,
    current: Seq<char>,
    new: Seq<char>,
    platform: Platform,
    after: VaultView,
)
    requires
        rotated_from(before, current, new, platform, after),
    ensures
        unwrap_outcome(after.keyset->0, new) == unwrap_outcome(before.keyset->0, current),
        vault_after_unlock(before, current).session_key == after.session_key,
        vault_after_unlock(without_session_key(after), new) == after,
{
}

/// Disabling and configuring again keeps the data key: the keyset made for
/// the new passphrase wraps the key that the old passphrase opened, and the
/// session key is the same after either step.
pub proof fn lemma_disable_then_configure_keeps_data_key(
    before: VaultView,
    passphrase: Seq<char>,
    new_passphrase: Seq<char>,
    platform: Platform,
    after: VaultView,
)
    requires
        before.keyset matches Some(keyset) && unwrap_outcome(keyset, passphrase) is Ok,
        configured_from(
            vault_after_disable(before, unwrap_outcome(before.keyset->0, passphrase)->Ok_0),
            new_passphrase,
            platform,
            after,
        ),
    ensures
        unwrap_outcome(after.keyset->0, new_passphrase) == unwrap_outcome(
            before.keyset->0,
            passphrase,
        ),
        after.session_key == vault_after_disable(
            before,
            unwrap_outcome(before.keyset->0, passphrase)->Ok_0,
        ).session_key,
        after.session_key == vault_after_unlock(before, passphrase).session_key,
{
}

} // verus!
