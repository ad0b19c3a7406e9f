//! The slice of the authorization engine's vocabulary that the vault
//! consumes: key identifiers as resources, the encrypt and decrypt actions,
//! and a capability answering "may this action be taken on this key".

use vstd::prelude::*;

verus! {

/// Names the key an envelope is sealed under. Only the master identity is
/// implemented; `Id` is a reserved extension point whose resolution the
/// vault does not define.
#[derive(Clone, Copy, PartialEq, Eq, Structural, Debug)]
pub enum KeyId {
    Master,
    Id(u64),
}

/// The two actions the vault asks the authorization engine about.
#[derive(Clone, Copy, PartialEq, Eq, Structural, Debug)]
pub enum EncryptionKeyAction {
    Encrypt,
    Decrypt,
}

/// A permission capability: the set of (key, action) pairs the caller has
/// been granted. An empty capability denies everything; passing no
/// capability at all bypasses the check entirely.
pub struct Permissions {
    granted: Vec<(KeyId, EncryptionKeyAction)>,
}

impl Permissions {
    /// Whether this capability grants `action` on `key`.
    pub closed spec fn allows(&self, key: KeyId, action: EncryptionKeyAction) -> bool {
        exists|i: int|
            0 <= i < self.granted@.len() && self.granted@[i] == (key, action)
    }

    /// The deny-everything capability.
    pub fn none() -> (r: Self)
        ensures
            forall|key: KeyId, action: EncryptionKeyAction| !r.allows(key, action),
    {
        Permissions { granted: Vec::new() }
    }

    /// Grants `action` on `key`, leaving every earlier grant in force.
    pub fn grant(&mut self, key: KeyId, action: EncryptionKeyAction)
        ensures
            final(self).allows(key, action),
            forall|k: KeyId, a: EncryptionKeyAction|
                old(self).allows(k, a) ==> final(self).allows(k, a),
    {
        self.granted.push((key, action));
        proof {
            let n = self.granted@.len() - 1;
            assert(self.granted@[n] == (key, action));
            assert forall|k: KeyId, a: EncryptionKeyAction|
                old(self).allows(k, a) implies self.allows(k, a) by {
                let i = choose|i: int|
                    0 <= i < old(self).granted@.len() && old(self).granted@[i] == (k, a);
                assert(self.granted@[i] == (k, a));
            }
        }
    }

    /// The decision interface: asks whether `action` on `key` is allowed.
    pub fn allowed_to(&self, key: &KeyId, action: EncryptionKeyAction) -> (r: bool)
        ensures
            r == self.allows(*key, action),
    {
        let mut i: usize = 0;
        while i < self.granted.len()
            invariant
                i <= self.granted@.len(),
                forall|j: int| 0 <= j < i ==> self.granted@[j] != (*key, action),
            decreases self.granted@.len() - i,
        {
            let (k, a) = self.granted[i];
            if k == *key && a == action {
                return true;
            }
            i = i + 1;
        }
        false
    }
}

impl Default for Permissions {
    /// A fresh `Permissions` denies everything, as the authorization
    /// engine's default does.
    fn default() -> (r: Self)
        ensures
            forall|key: KeyId, action: EncryptionKeyAction| !r.allows(key, action),
    {
        Permissions::none()
    }
}

} // verus!
