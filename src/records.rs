use vstd::prelude::*;

verus! {

/// A registration awaiting passcode confirmation; the store deletes it at `expires_at`.
#[derive(Clone, Debug)]
pub struct PendingRegistration {
    pub phone: String,
    /// The identity key as submitted, in base64; not verified yet.
    pub identity_key: String,
    pub passcode: u32,
    /// Absolute expiry, in seconds since the Unix epoch.
    pub expires_at: u64,
}

/// The durable directory entry of a confirmed identity. Key material is held in base64.
#[derive(Clone, Debug)]
pub struct PublishedIdentity {
    pub phone: String,
    pub identity_key: String,
    pub signed_prekey: String,
    /// Signature over the signed prekey, made with the identity key.
    pub signature: String,
    /// Creation time, in milliseconds since the Unix epoch.
    pub created_at: u64,
    pub one_time_prekeys: Vec<String>,
}

/// A one-time prekey handed out in a bundle, with its index in the owner's sequence.
#[derive(Clone, Debug)]
pub struct OneTimePreKey {
    pub id: usize,
    pub key: String,
}

/// The public key material released to an authenticated requester.
#[derive(Clone, Debug)]
pub struct PreKeyBundle {
    pub identity_key: String,
    pub signed_prekey: String,
    pub signature: String,
    pub opk: Option<OneTimePreKey>,
}

/// The one-time prekey that a bundle offers: the last one left, with its index.
pub open spec fn last_one_time_prekey(keys: Seq<String>) -> Option<OneTimePreKey> {
    if keys.len() == 0 {
        None
    } else {
        Some(OneTimePreKey { id: (keys.len() - 1) as usize, key: keys.last() })
    }
}

/// The bundle that a published identity offers.
pub open spec fn bundle_of(record: PublishedIdentity) -> PreKeyBundle {
    PreKeyBundle {
        identity_key: record.identity_key,
        signed_prekey: record.signed_prekey,
        signature: record.signature,
        opk: last_one_time_prekey(record.one_time_prekeys@),
    }
}

/// Conditional removal of a dispensed one-time prekey: it succeeds only while the key is still
/// the last one at the index it was handed out with.
pub open spec fn conditional_removal(keys: Seq<String>, opk: OneTimePreKey) -> Option<Seq<String>> {
    if opk.id + 1 == keys.len() && keys[opk.id as int]@ == opk.key@ {
        Some(keys.drop_last())
    } else {
        None
    }
}

/// The keys that a run of removal attempts, applied in order, actually removes.
pub open spec fn dispensed(keys: Seq<String>, attempts: Seq<OneTimePreKey>) -> Seq<OneTimePreKey>
    decreases attempts.len(),
{
    if attempts.len() == 0 {
        Seq::empty()
    } else {
        match conditional_removal(keys, attempts[0]) {
            Some(rest) => seq![attempts[0]] + dispensed(rest, attempts.drop_first()),
            None => dispensed(keys, attempts.drop_first()),
        }
    }
}

/// However removal attempts interleave, and from whatever stale reads they were made, the keys
/// removed are the stored ones from the last backwards, each index at most once: at most as
/// many attempts succeed as there were keys.
pub proof fn lemma_each_key_dispensed_once(keys: Seq<String>, attempts: Seq<OneTimePreKey>)
    ensures
        dispensed(keys, attempts).len() <= keys.len(),
        forall|i: int|
            0 <= i < dispensed(keys, attempts).len() ==> {
                &&& (#[trigger] dispensed(keys, attempts)[i]).id == keys.len() - 1 - i
                &&& dispensed(keys, attempts)[i].key@ == keys[keys.len() - 1 - i]@
            },
    decreases attempts.len(),
{
    if attempts.len() > 0 {
        let rest_attempts = attempts.drop_first();
        match conditional_removal(keys, attempts[0]) {
            Some(rest) => {
                lemma_each_key_dispensed_once(rest, rest_attempts);
                let d = dispensed(keys, attempts);
                let dr = dispensed(rest, rest_attempts);
                assert(d == seq![attempts[0]] + dr);
                assert forall|i: int| 0 <= i < d.len() implies {
                    &&& (#[trigger] d[i]).id == keys.len() - 1 - i
                    &&& d[i].key@ == keys[keys.len() - 1 - i]@
                } by {
                    if i > 0 {
                        assert(d[i] == dr[i - 1]);
                        assert(rest[rest.len() - 1 - (i - 1)] == keys[keys.len() - 1 - i]);
                    }
                }
            },
            None => {
                lemma_each_key_dispensed_once(keys, rest_attempts);
            },
        }
    }
}

/// The one-time prekey that a bundle offers can be removed from the record the bundle was made
/// from, which then holds the keys before it: requests served one after another hand out the
/// keys from the last to the first.
pub proof fn lemma_offered_key_is_removable(record: PublishedIdentity)
    requires
        0 < record.one_time_prekeys@.len() <= usize::MAX,
    ensures
        bundle_of(record).opk is Some,
        conditional_removal(record.one_time_prekeys@, bundle_of(record).opk->Some_0) == Some(
            record.one_time_prekeys@.drop_last(),
        ),
{
}

impl PublishedIdentity {
    /// Removes a dispensed one-time prekey, only if it is still the last key at its index.
    pub fn remove_dispensed(&mut self, opk: &OneTimePreKey) -> (removed: bool)
        ensures
            removed == conditional_removal(old(self).one_time_prekeys@, *opk) is Some,
            removed ==> final(self).one_time_prekeys@ == conditional_removal(
                old(self).one_time_prekeys@,
                *opk,
            )->Some_0,
            !removed ==> final(self).one_time_prekeys@ == old(self).one_time_prekeys@,
            final(self).phone == old(self).phone,
            final(self).identity_key == old(self).identity_key,
            final(self).signed_prekey == old(self).signed_prekey,
            final(self).signature == old(self).signature,
            final(self).created_at == old(self).created_at,
    {
        let n = self.one_time_prekeys.len();
        if n == 0 || opk.id != n - 1 {
            return false;
        }
        if self.one_time_prekeys[opk.id] != opk.key {
            return false;
        }
        self.one_time_prekeys.pop();
        true
    }

    /// The bundle this identity offers: its keys and, if any is left, its last one-time prekey.
    pub fn bundle(&self) -> (r: PreKeyBundle)
        ensures
            r == bundle_of(*self),
    {
        let n = self.one_time_prekeys.len();
        let opk = if n == 0 {
            None
        } else {
            Some(OneTimePreKey { id: n - 1, key: self.one_time_prekeys[n - 1].clone() })
        };
        PreKeyBundle {
            identity_key: self.identity_key.clone(),
            signed_prekey: self.signed_prekey.clone(),
            signature: self.signature.clone(),
            opk,
        }
    }
}

impl PreKeyBundle {
    /// The same bundle with no one-time prekey, for when the offered one was taken meanwhile.
    pub fn without_one_time_prekey(self) -> (r: PreKeyBundle)
        ensures
            r == (PreKeyBundle { opk: None, ..self }),
    {
        PreKeyBundle { opk: None, ..self }
    }
}

} // verus!
