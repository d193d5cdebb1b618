use vstd::prelude::*;

use crate::entry::{app_id, build_entry, identity_of, is_fresh_entry, origin_has_identity, Manifest, RegistryEntry};
use crate::error::InstallError;
use crate::registry::{has_key, keys_of, local_id_floor, Registry};

verus! {

/// Why installing an application of this origin into a registry with these
/// entries fails, checked in this order; `None` where it goes through.
pub open spec fn install_refusal(
    registry: Seq<(Seq<char>, RegistryEntry)>,
    origin: Seq<char>,
) -> Option<InstallError> {
    if !origin_has_identity(origin) {
        Some(InstallError::InvalidOrigin)
    } else if has_key(registry, identity_of(origin)) {
        Some(InstallError::AlreadyInstalled)
    } else if local_id_floor(registry) == i64::MAX {
        Some(InstallError::LocalIdExhausted)
    } else {
        None
    }
}

/// Installs the application of `manifest` into `registry`: its identity is
/// its origin without the scheme prefix, its local id one more than the
/// largest in the registry (with a floor of 1), and its fresh entry goes
/// after the existing ones, whose order is kept. Returns the identity.
/// On failure the registry is left as it was.
pub fn install(
    registry: &mut Registry,
    manifest: &Manifest,
    base_path: &str,
    install_time: u128,
) -> (r: Result<String, InstallError>)
    requires
        old(registry).wf(),
    ensures
        final(registry).wf(),
        match r {
            Ok(id) => {
                &&& install_refusal(old(registry)@, manifest.origin@) is None
                &&& id@ == identity_of(manifest.origin@)
                &&& final(registry)@.len() == old(registry)@.len() + 1
                &&& final(registry)@.drop_last() == old(registry)@
                &&& final(registry)@.last().0 == id@
                &&& keys_of(final(registry)@) == keys_of(old(registry)@).push(id@)
                &&& is_fresh_entry(
                    final(registry)@.last().1,
                    *manifest,
                    id@,
                    (local_id_floor(old(registry)@) + 1) as i64,
                    base_path@,
                    install_time,
                )
            },
            Err(e) => {
                &&& install_refusal(old(registry)@, manifest.origin@) == Some(e)
                &&& final(registry)@ == old(registry)@
            },
        },
{
    let id = app_id(manifest.origin.as_str())?;
    if registry.contains_key(&id) {
        return Err(InstallError::AlreadyInstalled);
    }
    let local_id = match registry.next_local_id() {
        Some(n) => n,
        None => {
            return Err(InstallError::LocalIdExhausted);
        },
    };
    let entry = build_entry(manifest, id.as_str(), local_id, base_path, install_time);
    let key = id.clone();
    let inserted = registry.insert(key, entry);
    proof {
        assert(inserted is Ok);
        assert(final(registry)@.drop_last() =~= old(registry)@);
        assert(keys_of(final(registry)@) =~= keys_of(old(registry)@).push(id@));
    }
    Ok(id)
}

/// An application whose origin leaves an identity that the registry does not
/// hold is installed, wherever the registry's largest local id leaves room for
/// one more: then `install` returns that identity, appends exactly one entry
/// after the existing ones, and gives it the local id one past the largest
/// (with a floor of 1).
pub proof fn lemma_fresh_install_accepted(
    registry: Seq<(Seq<char>, RegistryEntry)>,
    origin: Seq<char>,
)
    requires
        origin_has_identity(origin),
        !has_key(registry, identity_of(origin)),
        local_id_floor(registry) < i64::MAX,
    ensures
        install_refusal(registry, origin) is None,
{
}

/// Installing the same application again, into the registry that its first
/// install produced, is refused as a duplicate: the first install's entry
/// stands under the identity that the second would take.
pub proof fn lemma_reinstall_refused(
    before: Seq<(Seq<char>, RegistryEntry)>,
    after: Seq<(Seq<char>, RegistryEntry)>,
    origin: Seq<char>,
)
    requires
        install_refusal(before, origin) is None,
        after.len() == before.len() + 1,
        after.drop_last() == before,
        after.last().0 == identity_of(origin),
    ensures
        install_refusal(after, origin) == Some(InstallError::AlreadyInstalled),
{
    assert(after[after.len() - 1].0 == identity_of(origin));
}

} // verus!
