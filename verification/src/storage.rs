//! The layered-storage layout and its lifecycle.
//!
//! Four directories per caller identity live under a per-user data root: the
//! base, the always-empty lower floor of the overlay, the durable upper
//! layer, and the overlay work area. Paths are joined with a single `/`
//! separator. The surrounding binary performs the directory creation and the
//! emptiness probe; the decisions and the effect of each pass on the on-disk
//! state are specified and proved here.

use vstd::prelude::*;
use vstd::string::StringExecFns;
use crate::errors::SessionError;
use crate::numfmt::{dec_digits, u64_to_dec};

verus! {

/// The caller's runtime directory, `/run/user/<uid>`.
pub open spec fn run_user_dir_model(uid: nat) -> Seq<char> {
    "/run/user/"@ + dec_digits(uid)
}

/// Builds the caller's runtime directory path.
pub fn run_user_dir(uid: u32) -> (r: String)
    ensures
        r@ == run_user_dir_model(uid as nat),
{
    let mut s = String::from_str("/run/user/");
    let d = u64_to_dec(uid as u64);
    s.append(d.as_str());
    s
}

/// The runtime daemon's per-user socket path.
pub open spec fn daemon_socket_model(uid: nat) -> Seq<char> {
    run_user_dir_model(uid) + "/podman/podman.sock"@
}

/// Builds the runtime daemon's per-user socket path.
pub fn daemon_socket_path(uid: u32) -> (r: String)
    ensures
        r@ == daemon_socket_model(uid as nat),
{
    let mut s = run_user_dir(uid);
    s.append("/podman/podman.sock");
    s
}

/// Resolves the daemon address from the socket-existence probe: the per-user
/// socket path when the socket is present, otherwise the daemon is
/// unreachable and the command must fail before any mutating call.
pub fn daemon_address(uid: u32, socket_exists: bool) -> (r: Result<String, SessionError>)
    ensures
        r is Ok <==> socket_exists,
        r matches Ok(p) ==> p@ == daemon_socket_model(uid as nat),
        !socket_exists ==> r == Err::<String, SessionError>(SessionError::RuntimeUnreachable),
{
    if socket_exists {
        Ok(daemon_socket_path(uid))
    } else {
        Err(SessionError::RuntimeUnreachable)
    }
}

/// The per-user data root: the data-directory override when set, otherwise
/// the conventional data directory under the caller's home; no root can be
/// derived when neither is available.
pub open spec fn data_root_model(xdg: Option<Seq<char>>, home: Option<Seq<char>>) -> Option<
    Seq<char>,
> {
    match xdg {
        Some(x) => Some(x + "/hackerosteam"@),
        None => match home {
            Some(h) => Some(h + "/.local/share/hackerosteam"@),
            None => None,
        },
    }
}

/// The four on-disk directories of the layered storage.
#[derive(Clone, Debug, PartialEq, Eq)]
pub struct StorageLayout {
    /// The per-user data root holding the other three.
    pub base: String,
    /// The read-only floor of the overlay; always empty.
    pub lower: String,
    /// The writable layer; the only durable payload of the system.
    pub upper: String,
    /// The overlay bookkeeping area; ephemeral but must coexist with upper.
    pub work: String,
}

/// The mathematical image of a storage layout.
pub struct StorageLayoutView {
    pub base: Seq<char>,
    pub lower: Seq<char>,
    pub upper: Seq<char>,
    pub work: Seq<char>,
}

impl DeepView for StorageLayout {
    type V = StorageLayoutView;

    open spec fn deep_view(&self) -> StorageLayoutView {
        StorageLayoutView { base: self.base@, lower: self.lower@, upper: self.upper@, work: self.work@ }
    }
}

/// The layout rooted at a given data root.
pub open spec fn layout_model(root: Seq<char>) -> StorageLayoutView {
    StorageLayoutView {
        base: root,
        lower: root + "/empty"@,
        upper: root + "/upper"@,
        work: root + "/work"@,
    }
}

/// Computes the four directory paths under the per-user data root. Fails
/// exactly when no data root can be derived from the caller's environment.
pub fn resolve_layout(xdg_data_home: &Option<String>, home: &Option<String>) -> (r: Result<
    StorageLayout,
    SessionError,
>)
    ensures
        r is Ok <==> data_root_model(xdg_data_home.deep_view(), home.deep_view()) is Some,
        r matches Ok(l) ==> Some(l.deep_view().base) == data_root_model(
            xdg_data_home.deep_view(),
            home.deep_view(),
        ) && l.deep_view() == layout_model(l.deep_view().base),
        r is Err ==> r == Err::<StorageLayout, SessionError>(SessionError::InvalidIdentity),
{
    let root: String = match xdg_data_home {
        Some(x) => {
            let mut s = x.clone();
            s.append("/hackerosteam");
            s
        },
        None => {
            match home {
                Some(h) => {
                    let mut s = h.clone();
                    s.append("/.local/share/hackerosteam");
                    s
                },
                None => {
                    return Err(SessionError::InvalidIdentity);
                },
            }
        },
    };
    let mut lower = root.clone();
    lower.append("/empty");
    let mut upper = root.clone();
    upper.append("/upper");
    let mut work = root.clone();
    work.append("/work");
    Ok(StorageLayout { base: root, lower, upper, work })
}

/// What a provisioning pass does to a populated upper directory.
#[derive(Clone, Copy, Debug, PartialEq, Eq, Structural)]
pub enum OverlayAction {
    /// (Re)create the upper and work directories: the first-boot path that
    /// gives the session a fresh writable layer.
    Initialize,
    /// Leave the populated upper directory untouched: the restore path.
    Preserve,
}

/// The overlay decision: initialize whenever the upper directory is absent
/// or holds no entries, preserve it otherwise.
pub open spec fn overlay_decision_model(upper_exists: bool, upper_has_entries: bool) -> OverlayAction {
    if !upper_exists || !upper_has_entries {
        OverlayAction::Initialize
    } else {
        OverlayAction::Preserve
    }
}

/// Decides whether the writable layer must be (re)created, from the two
/// observations the binary makes of the upper directory.
pub fn overlay_decision(upper_exists: bool, upper_has_entries: bool) -> (r: OverlayAction)
    ensures
        r == overlay_decision_model(upper_exists, upper_has_entries),
        upper_exists && upper_has_entries ==> r == OverlayAction::Preserve,
{
    if !upper_exists || !upper_has_entries {
        OverlayAction::Initialize
    } else {
        OverlayAction::Preserve
    }
}

/// A model of the on-disk state the storage manager acts on: which of the
/// four directories exist, and the entry names of the upper directory.
pub struct StorageState {
    pub base_exists: bool,
    pub lower_exists: bool,
    pub upper_exists: bool,
    pub work_exists: bool,
    pub upper_entries: Seq<Seq<char>>,
}

/// A directory that does not exist has no entries.
pub open spec fn wf_storage(s: StorageState) -> bool {
    !s.upper_exists ==> s.upper_entries == Seq::<Seq<char>>::empty()
}

/// The effect of materializing the layout: idempotent creation of the four
/// directories. Creating a directory that already exists touches nothing; a
/// freshly created upper directory is empty.
pub open spec fn apply_resolve(s: StorageState) -> StorageState {
    StorageState {
        base_exists: true,
        lower_exists: true,
        upper_exists: true,
        work_exists: true,
        upper_entries: if s.upper_exists {
            s.upper_entries
        } else {
            Seq::empty()
        },
    }
}

/// The effect of the overlay decision on the directories. Initialization is
/// itself an idempotent directory creation: it never removes entries an
/// existing upper directory holds.
pub open spec fn apply_overlay(s: StorageState, a: OverlayAction) -> StorageState {
    match a {
        OverlayAction::Initialize => StorageState {
            upper_exists: true,
            work_exists: true,
            upper_entries: if s.upper_exists {
                s.upper_entries
            } else {
                Seq::empty()
            },
            ..s
        },
        OverlayAction::Preserve => s,
    }
}

/// The storage effect of one full provisioning pass: materialize the layout,
/// then decide on and apply overlay initialization to the resulting state.
pub open spec fn apply_provision_storage(s: StorageState) -> StorageState {
    let resolved = apply_resolve(s);
    apply_overlay(
        resolved,
        overlay_decision_model(resolved.upper_exists, resolved.upper_entries.len() > 0),
    )
}

/// Removing the session touches no persistent storage: deletion of the data
/// root is an explicit out-of-band action, never part of the lifecycle.
pub open spec fn apply_remove_storage(s: StorageState) -> StorageState {
    s
}

/// Layout law: resolving the layout and initializing the overlay leaves all
/// four directories existing, and never alters the entries of an upper
/// directory that already holds some.
pub proof fn lemma_provision_storage(s: StorageState)
    ensures
        apply_provision_storage(s).base_exists,
        apply_provision_storage(s).lower_exists,
        apply_provision_storage(s).upper_exists,
        apply_provision_storage(s).work_exists,
        s.upper_exists && s.upper_entries.len() > 0 ==> apply_provision_storage(s).upper_entries
            == s.upper_entries,
{
}

/// A second overlay-initialization pass over a populated upper directory is
/// a no-op: the restore path leaves the prior session state untouched.
pub proof fn lemma_overlay_preserves_populated_upper(s: StorageState)
    requires
        s.upper_exists,
        s.upper_entries.len() > 0,
    ensures
        apply_overlay(s, overlay_decision_model(s.upper_exists, s.upper_entries.len() > 0)) == s,
{
}

/// Durability law, storage side: a provisioning pass never changes the
/// entries of the upper directory (an absent upper directory counts as
/// empty), and session removal touches no storage at all; so a create,
/// remove, create sequence leaves the persistent payload exactly as it was.
pub proof fn lemma_upper_durable(s: StorageState)
    requires
        wf_storage(s),
    ensures
        apply_provision_storage(s).upper_entries == s.upper_entries,
        apply_provision_storage(apply_remove_storage(apply_provision_storage(s))).upper_entries
            == s.upper_entries,
{
}

} // verus!
