//! The ceremony engine: verified state machines for initializing a device
//! with a threshold-backed wrap key, restoring that key from shares, and
//! exporting a generated key under it.
//!
//! Each ceremony is a function from the awaited state and the event that
//! answered it to the next state and the next action. An unverified driver
//! performs each action against the real device, the terminal and the
//! filesystem, and hands the outcome back as the next event; every decision
//! and every ordering invariant lives here.

use vstd::prelude::*;

use crate::codec;
use crate::json::is_blank;
use crate::json::is_blank_x;
use crate::config;
use crate::hsm;
use crate::HsmError;

verus! {

/// The fixed parameters of a ceremony run: identifiers, labels, the wrap
/// key's byte length, and the M-of-N split.
pub struct CeremonyParams {
    pub wrap_id: u16,
    pub wrap_label: hsm::Label,
    pub auth_id: u16,
    pub auth_label: hsm::Label,
    pub key_len: usize,
    pub threshold: u8,
    pub share_count: u8,
}

impl CeremonyParams {
    /// Parameter validity: a sensible split over a non-empty key, and
    /// labels the device can hold.
    pub open spec fn wf(&self) -> bool {
        &&& 1 <= self.threshold <= self.share_count
        &&& self.key_len >= 1
        &&& self.wrap_label.wf()
        &&& self.auth_label.wf()
    }

    /// Builds ceremony parameters, failing fast unless
    /// `1 <= threshold <= share_count` and the key length is non-zero.
    pub fn new(
        wrap_id: u16,
        wrap_label: hsm::Label,
        auth_id: u16,
        auth_label: hsm::Label,
        key_len: usize,
        threshold: u8,
        share_count: u8,
    ) -> (r: Result<CeremonyParams, HsmError>)
        requires
            wrap_label.wf(),
            auth_label.wf(),
        ensures
            match r {
                Ok(p) => {
                    &&& p.wf()
                    &&& p.wrap_id == wrap_id
                    &&& p.wrap_label@ == wrap_label@
                    &&& p.auth_id == auth_id
                    &&& p.auth_label@ == auth_label@
                    &&& p.key_len == key_len
                    &&& p.threshold == threshold
                    &&& p.share_count == share_count
                },
                Err(e) => e == HsmError::BadThreshold && !(1 <= threshold <= share_count && key_len
                    >= 1),
            },
    {
        if threshold < 1 || threshold > share_count || key_len == 0 {
            return Err(HsmError::BadThreshold);
        }
        Ok(CeremonyParams { wrap_id, wrap_label, auth_id, auth_label, key_len, threshold, share_count })
    }
}

/// The ceremony parameters the system ships with: wrap key 1 labelled
/// `backup`, admin credential 2 labelled `admin`, a 32-byte wrap key split
/// 3-of-5.
pub fn default_params() -> (r: CeremonyParams)
    ensures
        r.wf(),
        r.wrap_id == 1,
        r.wrap_label@ == "backup"@,
        r.auth_id == 2,
        r.auth_label@ == "admin"@,
        r.key_len == 32,
        r.threshold == 3,
        r.share_count == 5,
{
    proof {
        reveal_strlit("backup");
        reveal_strlit("admin");
        assert(vstd::utf8::is_ascii_chars("backup"@));
        assert(vstd::utf8::is_ascii_chars("admin"@));
        vstd::utf8::is_ascii_chars_encode_utf8("backup"@);
        vstd::utf8::is_ascii_chars_encode_utf8("admin"@);
    }
    let wrap_label = match hsm::Label::from_text("backup") {
        Ok(l) => l,
        Err(_) => vstd::pervasive::unreached(),
    };
    let auth_label = match hsm::Label::from_text("admin") {
        Ok(l) => l,
        Err(_) => vstd::pervasive::unreached(),
    };
    CeremonyParams {
        wrap_id: 1,
        wrap_label,
        auth_id: 2,
        auth_label,
        key_len: 32,
        threshold: 3,
        share_count: 5,
    }
}

/// What the driver reports back to a ceremony: the outcome of the action
/// it was asked to perform.
pub enum Event {
    /// The device handed over freshly drawn random bytes.
    RandomBytes { bytes: Vec<u8> },
    /// The wrap key was installed under the returned identifier.
    WrapKeyInstalled { id: u16 },
    /// A device operation failed; `collision` reports an already-resident
    /// object with the requested identifier.
    DeviceFault { collision: bool },
    /// The operator entered a new password twice.
    PasswordsEntered { first: Vec<u8>, second: Vec<u8> },
    /// The new authentication credential was installed.
    AuthKeyInstalled,
    /// The device exported the requested object under wrap; `artifact`
    /// holds its serialized form.
    Exported { artifact: Vec<u8> },
    /// Whether the output directory already holds the named artifact.
    ArtifactChecked { exists: bool },
    /// The artifact was written to the output directory.
    ArtifactWritten,
    /// The factory-default credential was deleted.
    DefaultAuthDeleted,
    /// The operator acknowledged the displayed prompt.
    Acknowledged,
    /// The operator entered one share.
    ShareEntered { share: String },
    /// The device generated the requested key under the returned
    /// identifier.
    KeyGenerated { id: u16 },
}

/// What a ceremony asks the driver to perform next.
pub enum Action {
    /// Draw `len` random bytes from the device.
    GetRandom { len: usize },
    /// Install `key` as a wrap key under `id`/`label`, in the given
    /// domains with the given capability and delegated-capability sets,
    /// under the given wrap algorithm.
    InstallWrapKey {
        id: u16,
        label: hsm::Label,
        domain: hsm::Domain,
        capabilities: hsm::Capability,
        delegated: hsm::Capability,
        algorithm: hsm::WrapAlgorithm,
        key: Vec<u8>,
    },
    /// Prompt the operator for a new password, twice, without echo.
    PromptPasswords,
    /// Install `key` as an authentication key under `id`/`label`, in the
    /// given domains with the given capability and delegated-capability
    /// sets, under the given authentication algorithm.
    InstallAuthKey {
        id: u16,
        label: hsm::Label,
        domain: hsm::Domain,
        capabilities: hsm::Capability,
        delegated: hsm::Capability,
        algorithm: hsm::AuthAlgorithm,
        key: Vec<u8>,
    },
    /// Export object `id` of kind `kind` under the wrap key `wrap_id`.
    ExportObject { wrap_id: u16, kind: hsm::ObjectKind, id: u16 },
    /// Report whether the output directory already holds `name`.
    CheckArtifact { name: String },
    /// Write `data` to `name` in the output directory.
    WriteArtifact { name: String, data: Vec<u8> },
    /// Delete the factory-default authentication credential.
    DeleteDefaultAuth,
    /// Warn that `share_count` shares are about to be displayed and wait
    /// for the operator to begin.
    ConfirmSplitStart { share_count: u8 },
    /// Ask that custodian `index` be seated and wait.
    AwaitCustodian { index: u8 },
    /// Display share `index` alone, wait for acknowledgment, then clear
    /// the screen.
    DisplayShare { index: u8, share: String },
    /// Prompt the operator to enter share `index`.
    PromptShare { index: u8 },
    /// Generate an asymmetric key from the validated request.
    GenerateKey { request: config::KeySpec },
    /// The ceremony completed.
    Done,
    /// The ceremony failed with the classified error.
    Fail { error: HsmError },
}

/// The artifact filename a label determines.
pub fn artifact_name(label: &hsm::Label) -> (r: String)
    ensures
        r@ == label@ + ".json"@,
{
    let mut r = label.as_text().to_owned();
    r.append(".json");
    r
}

/// Byte-wise equality of two buffers.
fn bytes_eq(a: &Vec<u8>, b: &Vec<u8>) -> (r: bool)
    ensures
        r == (a@ == b@),
{
    if a.len() != b.len() {
        proof {
            assert(a@ != b@);
        }
        return false;
    }
    let n = a.len();
    let mut i: usize = 0;
    while i < n
        invariant
            n == a@.len() && n == b@.len(),
            i <= n,
            forall|t: int| 0 <= t < i ==> a@[t] == b@[t],
        decreases n - i,
    {
        if a[i] != b[i] {
            proof {
                assert(a@ != b@);
            }
            return false;
        }
        i = i + 1;
    }
    proof {
        assert(a@ =~= b@);
    }
    true
}

/// A copy of a byte buffer.
fn clone_bytes(a: &Vec<u8>) -> (r: Vec<u8>)
    ensures
        r@ == a@,
{
    let mut r: Vec<u8> = Vec::new();
    let n = a.len();
    let mut i: usize = 0;
    while i < n
        invariant
            n == a@.len(),
            i <= n,
            r@ == a@.subrange(0, i as int),
        decreases n - i,
    {
        r.push(a[i]);
        i = i + 1;
    }
    proof {
        assert(r@ =~= a@);
    }
    r
}

/// The authentication key bytes the device's password derivation yields:
/// a function of the password bytes alone.
pub uninterp spec fn auth_key_of(password: Seq<u8>) -> Seq<u8>;

/// Relies on yubihsm's authentication::Key::derive_from_password: PBKDF2
/// with a fixed salt and iteration count, so the 32 derived key bytes
/// depend on the password bytes alone.
#[verifier::external_body]
fn derive_auth_key(password: &Vec<u8>) -> (r: Vec<u8>)
    ensures
        r@ == auth_key_of(password@),
        r@.len() == 32,
{
    let key = yubihsm::authentication::Key::derive_from_password(password.as_slice());
    key.as_secret_slice().to_vec()
}

/// The restore ceremony's states: collect exactly M shares, reconstruct
/// the wrap key, and reinstall it.
pub enum RestoreState {
    /// Waiting for the operator to enter the next share.
    AwaitShare { shares: Vec<String> },
    /// Waiting for the device to install the reconstructed wrap key.
    AwaitInstall,
    Complete,
    Failed { error: HsmError },
}

/// The restore machine's state invariant.
pub open spec fn restore_wf(p: CeremonyParams, s: RestoreState) -> bool {
    match s {
        RestoreState::AwaitShare { shares } => shares@.len() < p.threshold,
        _ => true,
    }
}

/// A failing restore outcome: the state records the error and the action
/// reports it.
pub open spec fn restore_failed(r: (RestoreState, Action), e: HsmError) -> bool {
    &&& r.0 matches RestoreState::Failed { error } && error == e
    &&& r.1 matches Action::Fail { error } && error == e
}

/// Begins the restore ceremony: prompt for the first share.
pub fn restore_start(p: &CeremonyParams) -> (r: (RestoreState, Action))
    requires
        p.wf(),
    ensures
        restore_wf(*p, r.0),
        r.0 matches RestoreState::AwaitShare { shares } && shares@.len() == 0,
        r.1 matches Action::PromptShare { index } && index == 1,
{
    (RestoreState::AwaitShare { shares: Vec::new() }, Action::PromptShare { index: 1 })
}

/// One step of the restore ceremony. A blank share entry is a hard,
/// classified operator error; once the threshold's worth of shares are in,
/// the key the scheme reconstructs from them, and nothing else, is what is
/// handed to the device; a reconstruction failure is fatal with no retry;
/// a colliding installation is a classified error, not an overwrite.
pub fn restore_step(p: &CeremonyParams, s: RestoreState, ev: Event) -> (r: (RestoreState, Action))
    requires
        p.wf(),
        restore_wf(*p, s),
    ensures
        restore_wf(*p, r.0),
        match (s, ev) {
            (RestoreState::AwaitShare { shares }, Event::ShareEntered { share }) => {
                if is_blank(share@) {
                    restore_failed(r, HsmError::EmptyShare)
                } else if shares@.len() + 1 < p.threshold {
                    &&& r.0 matches RestoreState::AwaitShare { shares: s2 } && s2@ == shares@.push(
                        share,
                    )
                    &&& r.1 matches Action::PromptShare { index } && index == shares@.len() + 2
                } else {
                    match codec::recover_of(codec::shares_view(shares@.push(share))) {
                        Some(secret) => {
                            &&& r.0 is AwaitInstall
                            &&& r.1 matches Action::InstallWrapKey {
                                id,
                                label,
                                domain,
                                capabilities,
                                delegated,
                                algorithm,
                                key,
                            } && id == p.wrap_id && label@ == p.wrap_label@ && domain
                                == hsm::Domain::All && capabilities == hsm::Capability::All
                                && delegated == hsm::Capability::All && algorithm
                                == hsm::WrapAlgorithm::Aes256Ccm && key@ == secret
                        },
                        None => restore_failed(r, HsmError::RecoveryFailed),
                    }
                }
            },
            (RestoreState::AwaitInstall, Event::WrapKeyInstalled { id: _ }) => r.0
                is Complete && r.1 is Done,
            (RestoreState::AwaitInstall, Event::DeviceFault { collision }) => restore_failed(
                r,
                if collision {
                    HsmError::WrapKeyExists
                } else {
                    HsmError::DeviceFailed
                },
            ),
            _ => restore_failed(r, HsmError::Protocol),
        },
{
    match (s, ev) {
        (RestoreState::AwaitShare { shares }, Event::ShareEntered { share }) => {
            if is_blank_x(share.as_str()) {
                return (
                    RestoreState::Failed { error: HsmError::EmptyShare },
                    Action::Fail { error: HsmError::EmptyShare },
                );
            }
            let mut shares = shares;
            shares.push(share);
            if shares.len() < p.threshold as usize {
                let index: u8 = shares.len() as u8 + 1;
                (RestoreState::AwaitShare { shares }, Action::PromptShare { index })
            } else {
                match codec::recover(&shares) {
                    Ok(secret) => (
                        RestoreState::AwaitInstall,
                        Action::InstallWrapKey {
                            id: p.wrap_id,
                            label: p.wrap_label.duplicate(),
                            domain: hsm::Domain::All,
                            capabilities: hsm::Capability::All,
                            delegated: hsm::Capability::All,
                            algorithm: hsm::WrapAlgorithm::Aes256Ccm,
                            key: secret,
                        },
                    ),
                    Err(_) => (
                        RestoreState::Failed { error: HsmError::RecoveryFailed },
                        Action::Fail { error: HsmError::RecoveryFailed },
                    ),
                }
            }
        },
        (RestoreState::AwaitInstall, Event::WrapKeyInstalled { id: _ }) => (
            RestoreState::Complete,
            Action::Done,
        ),
        (RestoreState::AwaitInstall, Event::DeviceFault { collision }) => {
            let error = if collision {
                HsmError::WrapKeyExists
            } else {
                HsmError::DeviceFailed
            };
            (RestoreState::Failed { error }, Action::Fail { error })
        },
        (_, _) => (
            RestoreState::Failed { error: HsmError::Protocol },
            Action::Fail { error: HsmError::Protocol },
        ),
    }
}

/// The export ceremony's states: refuse to overwrite an existing artifact,
/// generate the requested key, export it under the wrap key, and write the
/// artifact.
pub enum ExportState {
    /// Waiting to hear whether the artifact already exists.
    AwaitArtifactCheck { request: config::KeySpec, wrap_id: u16 },
    /// Waiting for the device to generate the requested key.
    AwaitGenerate { label: hsm::Label, id: u16, wrap_id: u16 },
    /// Waiting for the device to export the generated key under wrap.
    AwaitExport { label: hsm::Label },
    /// Waiting for the artifact to be written out.
    AwaitWrite,
    Complete,
    Failed { error: HsmError },
}

/// The export machine's state invariant.
pub open spec fn export_wf(s: ExportState) -> bool {
    match s {
        ExportState::AwaitArtifactCheck { request, .. } => request.wf(),
        ExportState::AwaitGenerate { label, .. } => label.wf(),
        ExportState::AwaitExport { label } => label.wf(),
        _ => true,
    }
}

/// A failing export outcome.
pub open spec fn export_failed(r: (ExportState, Action), e: HsmError) -> bool {
    &&& r.0 matches ExportState::Failed { error } && error == e
    &&& r.1 matches Action::Fail { error } && error == e
}

/// Begins the export ceremony for a validated request under an existing
/// wrap key: first make sure the artifact would not overwrite one already
/// there.
pub fn export_start(request: config::KeySpec, wrap_id: u16) -> (r: (ExportState, Action))
    requires
        request.wf(),
    ensures
        export_wf(r.0),
        r.0 matches ExportState::AwaitArtifactCheck { request: q, wrap_id: w } && q@ == request@
            && w == wrap_id,
        r.1 matches Action::CheckArtifact { name } && name@ == request.label@ + ".json"@,
{
    let name = artifact_name(&request.label);
    (ExportState::AwaitArtifactCheck { request, wrap_id }, Action::CheckArtifact { name })
}

/// One step of the export ceremony. A pre-existing artifact is a reported
/// error, never an overwrite; a fault after generation is classified as a
/// resident, unexported key that the operator must resolve by hand.
pub fn export_step(s: ExportState, ev: Event) -> (r: (ExportState, Action))
    requires
        export_wf(s),
    ensures
        export_wf(r.0),
        match (s, ev) {
            (
                ExportState::AwaitArtifactCheck { request, wrap_id },
                Event::ArtifactChecked { exists },
            ) => {
                if exists {
                    export_failed(r, HsmError::ArtifactExists)
                } else {
                    &&& r.0 matches ExportState::AwaitGenerate { label, id, wrap_id: w } && label@
                        == request.label@ && id == request.id && w == wrap_id
                    &&& r.1 matches Action::GenerateKey { request: q } && q@ == request@
                }
            },
            (ExportState::AwaitGenerate { label, id: _, wrap_id }, Event::KeyGenerated { id }) => {
                &&& r.0 matches ExportState::AwaitExport { label: l2 } && l2@ == label@
                &&& r.1 matches Action::ExportObject { wrap_id: w, kind, id: eid } && w == wrap_id
                    && kind == hsm::ObjectKind::AsymmetricKey && eid == id
            },
            (ExportState::AwaitGenerate { .. }, Event::DeviceFault { .. }) => export_failed(
                r,
                HsmError::DeviceFailed,
            ),
            (ExportState::AwaitExport { label }, Event::Exported { artifact }) => {
                &&& r.0 is AwaitWrite
                &&& r.1 matches Action::WriteArtifact { name, data } && name@ == label@ + ".json"@
                    && data@ == artifact@
            },
            (ExportState::AwaitExport { .. }, Event::DeviceFault { .. }) => export_failed(
                r,
                HsmError::UnexportedKey,
            ),
            (ExportState::AwaitWrite, Event::ArtifactWritten) => r.0 is Complete && r.1 is Done,
            (ExportState::AwaitWrite, Event::DeviceFault { .. }) => export_failed(
                r,
                HsmError::UnexportedKey,
            ),
            _ => export_failed(r, HsmError::Protocol),
        },
{
    match (s, ev) {
        (ExportState::AwaitArtifactCheck { request, wrap_id }, Event::ArtifactChecked { exists }) => {
            if exists {
                (
                    ExportState::Failed { error: HsmError::ArtifactExists },
                    Action::Fail { error: HsmError::ArtifactExists },
                )
            } else {
                let label = request.label.duplicate();
                let id = request.id;
                (
                    ExportState::AwaitGenerate { label, id, wrap_id },
                    Action::GenerateKey { request },
                )
            }
        },
        (ExportState::AwaitGenerate { label, id: _, wrap_id }, Event::KeyGenerated { id }) => (
            ExportState::AwaitExport { label },
            Action::ExportObject { wrap_id, kind: hsm::ObjectKind::AsymmetricKey, id },
        ),
        (ExportState::AwaitGenerate { .. }, Event::DeviceFault { .. }) => (
            ExportState::Failed { error: HsmError::DeviceFailed },
            Action::Fail { error: HsmError::DeviceFailed },
        ),
        (ExportState::AwaitExport { label }, Event::Exported { artifact }) => {
            let name = artifact_name(&label);
            (ExportState::AwaitWrite, Action::WriteArtifact { name, data: artifact })
        },
        (ExportState::AwaitExport { .. }, Event::DeviceFault { .. }) => (
            ExportState::Failed { error: HsmError::UnexportedKey },
            Action::Fail { error: HsmError::UnexportedKey },
        ),
        (ExportState::AwaitWrite, Event::ArtifactWritten) => (ExportState::Complete, Action::Done),
        (ExportState::AwaitWrite, Event::DeviceFault { .. }) => (
            ExportState::Failed { error: HsmError::UnexportedKey },
            Action::Fail { error: HsmError::UnexportedKey },
        ),
        (_, _) => (
            ExportState::Failed { error: HsmError::Protocol },
            Action::Fail { error: HsmError::Protocol },
        ),
    }
}

/// The initialize ceremony's states: obtain randomness, install it as the
/// wrap key, rotate the authentication credential (install, export, write
/// the artifact, and only then delete the factory default), split the wrap
/// key, and walk the operator through recording each share once.
pub enum InitState {
    /// Waiting for the device's random bytes.
    AwaitRandom,
    /// Waiting for the wrap key to be installed.
    AwaitWrapInstall { key: Vec<u8> },
    /// Waiting for the operator's new password, entered twice.
    AwaitPasswords { key: Vec<u8>, wrap_id: u16 },
    /// Waiting for the derived credential to be installed.
    AwaitAuthInstall { key: Vec<u8>, wrap_id: u16 },
    /// Waiting for the new credential's export under the wrap key.
    AwaitExport { key: Vec<u8>, wrap_id: u16 },
    /// Waiting to hear whether the credential's artifact already exists.
    AwaitArtifactCheck { key: Vec<u8>, artifact: Vec<u8> },
    /// Waiting for the credential's artifact to be written out.
    AwaitWrite { key: Vec<u8> },
    /// Waiting for the factory-default credential's deletion.
    AwaitDeleteDefault { key: Vec<u8> },
    /// Waiting for the operator to begin the share recording walk.
    AwaitSplitAck { shares: Vec<String> },
    /// Waiting for custodian `next` to be seated.
    AwaitCustodian { shares: Vec<String>, next: u8 },
    /// Waiting for the operator to finish recording share `next`.
    AwaitRecorded { shares: Vec<String>, next: u8 },
    Complete,
    Failed { error: HsmError },
}

/// The initialize machine's state invariant: key material has the
/// configured length and the share walk stays within the share count.
pub open spec fn init_wf(p: CeremonyParams, s: InitState) -> bool {
    match s {
        InitState::AwaitWrapInstall { key } => key@.len() == p.key_len,
        InitState::AwaitPasswords { key, .. } => key@.len() == p.key_len,
        InitState::AwaitAuthInstall { key, .. } => key@.len() == p.key_len,
        InitState::AwaitExport { key, .. } => key@.len() == p.key_len,
        InitState::AwaitArtifactCheck { key, .. } => key@.len() == p.key_len,
        InitState::AwaitWrite { key } => key@.len() == p.key_len,
        InitState::AwaitDeleteDefault { key } => key@.len() == p.key_len,
        InitState::AwaitSplitAck { shares } => shares@.len() == p.share_count && shares_ok(
            shares@,
        ),
        InitState::AwaitCustodian { shares, next } => shares@.len() == p.share_count && 1 <= next
            <= p.share_count && shares_ok(shares@),
        InitState::AwaitRecorded { shares, next } => shares@.len() == p.share_count && 1 <= next
            <= p.share_count && shares_ok(shares@),
        _ => true,
    }
}

/// Recorded shares are re-enterable: none is blank, so the restore
/// ceremony's share prompt accepts each of them.
pub open spec fn shares_ok(shares: Seq<String>) -> bool {
    forall|i: int| 0 <= i < shares.len() ==> !is_blank(#[trigger] codec::shares_view(shares)[i])
}

/// A failing initialize outcome.
pub open spec fn init_failed(r: (InitState, Action), e: HsmError) -> bool {
    &&& r.0 matches InitState::Failed { error } && error == e
    &&& r.1 matches Action::Fail { error } && error == e
}

/// Begins the initialize ceremony: ask the device for the wrap key's
/// randomness. A failure here aborts before any state is created.
pub fn initialize_start(p: &CeremonyParams) -> (r: (InitState, Action))
    requires
        p.wf(),
    ensures
        init_wf(*p, r.0),
        r.0 is AwaitRandom,
        r.1 matches Action::GetRandom { len } && len == p.key_len,
{
    (InitState::AwaitRandom, Action::GetRandom { len: p.key_len })
}

/// One step of the initialize ceremony.
///
/// The rotation ordering invariant is stated below the transition table:
/// the factory-default credential's deletion is requested only as the
/// answer to the new credential's artifact having been written, which in
/// turn follows its export; any earlier fault leaves the default
/// credential in place. Wrap-key material is erased on every exit path.
pub fn init_step(p: &CeremonyParams, s: InitState, ev: Event) -> (r: (InitState, Action))
    requires
        p.wf(),
        init_wf(*p, s),
    ensures
        init_wf(*p, r.0),
        r.1 is DeleteDefaultAuth ==> (s matches InitState::AwaitWrite { .. }) && (ev
            is ArtifactWritten),
        match (s, ev) {
            (InitState::AwaitRandom, Event::RandomBytes { bytes }) => {
                if bytes@.len() == p.key_len {
                    &&& r.0 matches InitState::AwaitWrapInstall { key } && key@ == bytes@
                    &&& r.1 matches Action::InstallWrapKey {
                        id,
                        label,
                        domain,
                        capabilities,
                        delegated,
                        algorithm,
                        key,
                    } && id == p.wrap_id && label@ == p.wrap_label@ && domain == hsm::Domain::All
                        && capabilities == hsm::Capability::All && delegated
                        == hsm::Capability::All && algorithm == hsm::WrapAlgorithm::Aes256Ccm
                        && key@ == bytes@
                } else {
                    init_failed(r, HsmError::Protocol)
                }
            },
            (InitState::AwaitRandom, Event::DeviceFault { .. }) => init_failed(
                r,
                HsmError::DeviceFailed,
            ),
            (InitState::AwaitWrapInstall { key }, Event::WrapKeyInstalled { id }) => {
                &&& r.0 matches InitState::AwaitPasswords { key: k2, wrap_id } && k2@ == key@
                    && wrap_id == id
                &&& r.1 is PromptPasswords
            },
            (InitState::AwaitWrapInstall { .. }, Event::DeviceFault { collision }) => init_failed(
                r,
                if collision {
                    HsmError::WrapKeyExists
                } else {
                    HsmError::DeviceFailed
                },
            ),
            (
                InitState::AwaitPasswords { key, wrap_id },
                Event::PasswordsEntered { first, second },
            ) => {
                if first@ == second@ {
                    &&& r.0 matches InitState::AwaitAuthInstall { key: k2, wrap_id: w2 } && k2@
                        == key@ && w2 == wrap_id
                    &&& r.1 matches Action::InstallAuthKey {
                        id,
                        label,
                        domain,
                        capabilities,
                        delegated,
                        algorithm,
                        key: akey,
                    } && id == p.auth_id && label@ == p.auth_label@ && domain == hsm::Domain::All
                        && capabilities == hsm::Capability::All && delegated
                        == hsm::Capability::All && algorithm == hsm::AuthAlgorithm::YubicoAes
                        && akey@ == auth_key_of(first@)
                } else {
                    &&& r.0 matches InitState::AwaitPasswords { key: k2, wrap_id: w2 } && k2@
                        == key@ && w2 == wrap_id
                    &&& r.1 is PromptPasswords
                }
            },
            (InitState::AwaitAuthInstall { key, wrap_id }, Event::AuthKeyInstalled) => {
                &&& r.0 matches InitState::AwaitExport { key: k2, wrap_id: w2 } && k2@ == key@
                    && w2 == wrap_id
                &&& r.1 matches Action::ExportObject { wrap_id: w, kind, id } && w == wrap_id
                    && kind == hsm::ObjectKind::AuthenticationKey && id == p.auth_id
            },
            (InitState::AwaitAuthInstall { .. }, Event::DeviceFault { .. }) => init_failed(
                r,
                HsmError::DeviceFailed,
            ),
            (InitState::AwaitExport { key, .. }, Event::Exported { artifact }) => {
                &&& r.0 matches InitState::AwaitArtifactCheck { key: k2, artifact: a2 } && k2@
                    == key@ && a2@ == artifact@
                &&& r.1 matches Action::CheckArtifact { name } && name@ == p.auth_label@
                    + ".json"@
            },
            (InitState::AwaitExport { .. }, Event::DeviceFault { .. }) => init_failed(
                r,
                HsmError::DeviceFailed,
            ),
            (
                InitState::AwaitArtifactCheck { key, artifact },
                Event::ArtifactChecked { exists },
            ) => {
                if exists {
                    init_failed(r, HsmError::ArtifactExists)
                } else {
                    &&& r.0 matches InitState::AwaitWrite { key: k2 } && k2@ == key@
                    &&& r.1 matches Action::WriteArtifact { name, data } && name@ == p.auth_label@
                        + ".json"@ && data@ == artifact@
                }
            },
            (InitState::AwaitWrite { key }, Event::ArtifactWritten) => {
                &&& r.0 matches InitState::AwaitDeleteDefault { key: k2 } && k2@ == key@
                &&& r.1 is DeleteDefaultAuth
            },
            (InitState::AwaitWrite { .. }, Event::DeviceFault { .. }) => init_failed(
                r,
                HsmError::DeviceFailed,
            ),
            (InitState::AwaitDeleteDefault { key }, Event::DefaultAuthDeleted) => {
                ||| {
                    &&& r.0 matches InitState::AwaitSplitAck { shares } && shares@.len()
                        == p.share_count && codec::shares_view(shares@).no_duplicates() && (
                    forall|i: int|
                        0 <= i < shares@.len() ==> !is_blank(
                            #[trigger] codec::shares_view(shares@)[i],
                        )) && (forall|sub: Seq<Seq<char>>|
                        sub.to_multiset().subset_of(
                            codec::shares_view(shares@).to_multiset(),
                        ) && sub.len() >= p.threshold ==> (#[trigger] codec::recover_of(sub)
                            == Some(key@) || codec::recover_of(sub) is None)) && (forall|
                        sub: Seq<Seq<char>>,
                    |
                        sub.to_multiset().subset_of(
                            codec::shares_view(shares@).to_multiset(),
                        ) && sub.len() < p.threshold ==> #[trigger] codec::recover_of(sub)
                            is None)
                    &&& r.1 matches Action::ConfirmSplitStart { share_count } && share_count
                        == p.share_count
                }
                ||| init_failed(r, HsmError::SplitFailed)
            },
            (InitState::AwaitDeleteDefault { .. }, Event::DeviceFault { .. }) => init_failed(
                r,
                HsmError::DeviceFailed,
            ),
            (InitState::AwaitSplitAck { shares }, Event::Acknowledged) => {
                &&& r.0 matches InitState::AwaitCustodian { shares: s2, next } && s2@ == shares@
                    && next == 1
                &&& r.1 matches Action::AwaitCustodian { index } && index == 1
            },
            (InitState::AwaitCustodian { shares, next }, Event::Acknowledged) => {
                &&& r.0 matches InitState::AwaitRecorded { shares: s2, next: n2 } && s2@ == shares@
                    && n2 == next
                &&& r.1 matches Action::DisplayShare { index, share } && index == next && share@
                    == shares@[next - 1]@ && !is_blank(share@)
            },
            (InitState::AwaitRecorded { shares, next }, Event::Acknowledged) => {
                if next < p.share_count {
                    &&& r.0 matches InitState::AwaitCustodian { shares: s2, next: n2 } && s2@
                        == shares@ && n2 == next + 1
                    &&& r.1 matches Action::AwaitCustodian { index } && index == next + 1
                } else {
                    r.0 is Complete && r.1 is Done
                }
            },
            _ => init_failed(r, HsmError::Protocol),
        },
{
    match (s, ev) {
        (InitState::AwaitRandom, Event::RandomBytes { bytes }) => {
            let mut bytes = bytes;
            if bytes.len() != p.key_len {
                codec::wipe_bytes(&mut bytes);
                return (
                    InitState::Failed { error: HsmError::Protocol },
                    Action::Fail { error: HsmError::Protocol },
                );
            }
            let copy = clone_bytes(&bytes);
            (
                InitState::AwaitWrapInstall { key: bytes },
                Action::InstallWrapKey {
                    id: p.wrap_id,
                    label: p.wrap_label.duplicate(),
                    domain: hsm::Domain::All,
                    capabilities: hsm::Capability::All,
                    delegated: hsm::Capability::All,
                    algorithm: hsm::WrapAlgorithm::Aes256Ccm,
                    key: copy,
                },
            )
        },
        (InitState::AwaitRandom, Event::DeviceFault { .. }) => (
            InitState::Failed { error: HsmError::DeviceFailed },
            Action::Fail { error: HsmError::DeviceFailed },
        ),
        (InitState::AwaitWrapInstall { key }, Event::WrapKeyInstalled { id }) => (
            InitState::AwaitPasswords { key, wrap_id: id },
            Action::PromptPasswords,
        ),
        (InitState::AwaitWrapInstall { key }, Event::DeviceFault { collision }) => {
            let mut key = key;
            codec::wipe_bytes(&mut key);
            let error = if collision {
                HsmError::WrapKeyExists
            } else {
                HsmError::DeviceFailed
            };
            (InitState::Failed { error }, Action::Fail { error })
        },
        (InitState::AwaitPasswords { key, wrap_id }, Event::PasswordsEntered { first, second }) => {
            let mut first = first;
            let mut second = second;
            if bytes_eq(&first, &second) {
                let akey = derive_auth_key(&first);
                codec::wipe_bytes(&mut first);
                codec::wipe_bytes(&mut second);
                (
                    InitState::AwaitAuthInstall { key, wrap_id },
                    Action::InstallAuthKey {
                        id: p.auth_id,
                        label: p.auth_label.duplicate(),
                        domain: hsm::Domain::All,
                        capabilities: hsm::Capability::All,
                        delegated: hsm::Capability::All,
                        algorithm: hsm::AuthAlgorithm::YubicoAes,
                        key: akey,
                    },
                )
            } else {
                codec::wipe_bytes(&mut first);
                codec::wipe_bytes(&mut second);
                (InitState::AwaitPasswords { key, wrap_id }, Action::PromptPasswords)
            }
        },
        (InitState::AwaitAuthInstall { key, wrap_id }, Event::AuthKeyInstalled) => (
            InitState::AwaitExport { key, wrap_id },
            Action::ExportObject {
                wrap_id,
                kind: hsm::ObjectKind::AuthenticationKey,
                id: p.auth_id,
            },
        ),
        (InitState::AwaitAuthInstall { key, .. }, Event::DeviceFault { .. }) => {
            let mut key = key;
            codec::wipe_bytes(&mut key);
            (
                InitState::Failed { error: HsmError::DeviceFailed },
                Action::Fail { error: HsmError::DeviceFailed },
            )
        },
        (InitState::AwaitExport { key, .. }, Event::Exported { artifact }) => {
            let name = artifact_name(&p.auth_label);
            (InitState::AwaitArtifactCheck { key, artifact }, Action::CheckArtifact { name })
        },
        (InitState::AwaitExport { key, .. }, Event::DeviceFault { .. }) => {
            let mut key = key;
            codec::wipe_bytes(&mut key);
            (
                InitState::Failed { error: HsmError::DeviceFailed },
                Action::Fail { error: HsmError::DeviceFailed },
            )
        },
        (InitState::AwaitArtifactCheck { key, artifact }, Event::ArtifactChecked { exists }) => {
            if exists {
                let mut key = key;
                codec::wipe_bytes(&mut key);
                (
                    InitState::Failed { error: HsmError::ArtifactExists },
                    Action::Fail { error: HsmError::ArtifactExists },
                )
            } else {
                let name = artifact_name(&p.auth_label);
                (InitState::AwaitWrite { key }, Action::WriteArtifact { name, data: artifact })
            }
        },
        (InitState::AwaitWrite { key }, Event::ArtifactWritten) => (
            InitState::AwaitDeleteDefault { key },
            Action::DeleteDefaultAuth,
        ),
        (InitState::AwaitWrite { key }, Event::DeviceFault { .. }) => {
            let mut key = key;
            codec::wipe_bytes(&mut key);
            (
                InitState::Failed { error: HsmError::DeviceFailed },
                Action::Fail { error: HsmError::DeviceFailed },
            )
        },
        (InitState::AwaitDeleteDefault { key }, Event::DefaultAuthDeleted) => {
            let mut key = key;
            let outcome = codec::split(&key, p.threshold, p.share_count);
            codec::wipe_bytes(&mut key);
            match outcome {
                Ok(shares) => (
                    InitState::AwaitSplitAck { shares },
                    Action::ConfirmSplitStart { share_count: p.share_count },
                ),
                Err(_) => (
                    InitState::Failed { error: HsmError::SplitFailed },
                    Action::Fail { error: HsmError::SplitFailed },
                ),
            }
        },
        (InitState::AwaitDeleteDefault { key }, Event::DeviceFault { .. }) => {
            let mut key = key;
            codec::wipe_bytes(&mut key);
            (
                InitState::Failed { error: HsmError::DeviceFailed },
                Action::Fail { error: HsmError::DeviceFailed },
            )
        },
        (InitState::AwaitSplitAck { shares }, Event::Acknowledged) => (
            InitState::AwaitCustodian { shares, next: 1 },
            Action::AwaitCustodian { index: 1 },
        ),
        (InitState::AwaitCustodian { shares, next }, Event::Acknowledged) => {
            let share = shares[next as usize - 1].clone();
            proof {
                assert(codec::shares_view(shares@)[next - 1] == shares@[next - 1]@);
            }
            (
                InitState::AwaitRecorded { shares, next },
                Action::DisplayShare { index: next, share },
            )
        },
        (InitState::AwaitRecorded { shares, next }, Event::Acknowledged) => {
            if next < p.share_count {
                (
                    InitState::AwaitCustodian { shares, next: next + 1 },
                    Action::AwaitCustodian { index: next + 1 },
                )
            } else {
                (InitState::Complete, Action::Done)
            }
        },
        (s_other, _) => {
            let mut leftover: Vec<u8> = match s_other {
                InitState::AwaitWrapInstall { key } => key,
                InitState::AwaitPasswords { key, .. } => key,
                InitState::AwaitAuthInstall { key, .. } => key,
                InitState::AwaitExport { key, .. } => key,
                InitState::AwaitArtifactCheck { key, .. } => key,
                InitState::AwaitWrite { key } => key,
                InitState::AwaitDeleteDefault { key } => key,
                _ => Vec::new(),
            };
            codec::wipe_bytes(&mut leftover);
            (
                InitState::Failed { error: HsmError::Protocol },
                Action::Fail { error: HsmError::Protocol },
            )
        },
    }
}

} // verus!
