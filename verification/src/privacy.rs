//! Privacy manager: per-study data keys and off-platform access tokens.
//!
//! Key material itself — the master key, the per-study encrypted keys
//! and the pseudonym — is produced by the host's cryptographic
//! collaborator and handed in as plain values; this module only keeps
//! the grant, revocation and lookup logic, with at most one data key per
//! study.

use vstd::prelude::*;

use crate::account::AccountId;

verus! {

/// How much of the participant's data a grant exposes.
#[derive(Clone, Copy, Debug, PartialEq, Eq, Structural)]
pub enum DataAccessLevel {
    /// Only study-specific data.
    Basic,
    /// Including demographic data.
    Extended,
    /// All participant data.
    Full,
}

/// True when a held access level covers a required one.
pub open spec fn level_covers(held: DataAccessLevel, required: DataAccessLevel) -> bool {
    match (held, required) {
        (DataAccessLevel::Full, _) => true,
        (DataAccessLevel::Extended, DataAccessLevel::Extended) => true,
        (DataAccessLevel::Extended, DataAccessLevel::Basic) => true,
        (DataAccessLevel::Basic, DataAccessLevel::Basic) => true,
        _ => false,
    }
}

/// A study-specific data key, encrypted for the researcher by the host.
#[derive(Clone, Copy, Debug)]
pub struct DataKey {
    pub encrypted_key: [u8; 32],
    pub access_level: DataAccessLevel,
    pub created_at: i64,
    pub last_used: i64,
    pub is_revoked: bool,
}

/// The data key held for one study.
#[derive(Clone, Copy, Debug)]
pub struct StudyDataKey {
    pub study_id: AccountId,
    pub key: DataKey,
}

/// A token for off-platform data access under one study.
#[derive(Clone, Copy, Debug)]
pub struct ConsentToken {
    pub study_id: AccountId,
    /// Identifier the host derives from the study address.
    pub token_id: u64,
    pub access_level: DataAccessLevel,
    pub granted_at: i64,
    pub expires_at: Option<i64>,
    pub is_revoked: bool,
}

/// Per-participant record of granted data access.
#[derive(Debug)]
pub struct PrivacyManager {
    pub participant: AccountId,
    /// Encrypted master key, supplied by the host.
    pub master_key: [u8; 32],
    pub data_keys: Vec<StudyDataKey>,
    pub consent_tokens: Vec<ConsentToken>,
    /// Unlinkable name for the participant, supplied by the host.
    pub pseudonym: String,
}

/// True when some data key is held for the study.
pub open spec fn has_data_key(keys: Seq<StudyDataKey>, study_id: AccountId) -> bool {
    exists|i: int| 0 <= i < keys.len() && keys[i].study_id == study_id
}

/// True when some token names the study.
pub open spec fn has_token(tokens: Seq<ConsentToken>, study_id: AccountId) -> bool {
    exists|i: int| 0 <= i < tokens.len() && tokens[i].study_id == study_id
}

impl PrivacyManager {
    /// At most one data key per study.
    pub open spec fn wf(self) -> bool {
        forall|i: int, j: int|
            0 <= i < j < self.data_keys@.len() ==> self.data_keys@[i].study_id
                != self.data_keys@[j].study_id
    }

    /// An empty record for the participant, under host-supplied key
    /// material and pseudonym.
    pub fn new(participant: AccountId, master_key: [u8; 32], pseudonym: String) -> (r:
        PrivacyManager)
        ensures
            r.participant == participant,
            r.master_key == master_key,
            r.pseudonym == pseudonym,
            r.data_keys@ =~= Seq::<StudyDataKey>::empty(),
            r.consent_tokens@ =~= Seq::<ConsentToken>::empty(),
            r.wf(),
    {
        PrivacyManager {
            participant,
            master_key,
            data_keys: Vec::new(),
            consent_tokens: Vec::new(),
            pseudonym,
        }
    }

    /// Index of the data key held for the study, if any.
    pub fn find_data_key(&self, study_id: AccountId) -> (r: Option<usize>)
        ensures
            r matches Some(i) ==> i < self.data_keys@.len()
                && self.data_keys@[i as int].study_id == study_id && (forall|j: int|
                0 <= j < i ==> self.data_keys@[j].study_id != study_id),
            r is None ==> !has_data_key(self.data_keys@, study_id),
    {
        let mut i: usize = 0;
        while i < self.data_keys.len()
            invariant
                i <= self.data_keys@.len(),
                forall|j: int| 0 <= j < i ==> self.data_keys@[j].study_id != study_id,
            decreases self.data_keys@.len() - i,
        {
            if self.data_keys[i].study_id.value == study_id.value {
                return Some(i);
            }
            i = i + 1;
        }
        None
    }

    /// Grants a researcher access for one study: stores the fresh data
    /// key for the study — replacing a previous one — and appends an
    /// access token.
    pub fn grant_access(
        &mut self,
        study_id: AccountId,
        encrypted_key: [u8; 32],
        access_level: DataAccessLevel,
        now: i64,
    )
        requires
            old(self).wf(),
        ensures
            *final(self) == (PrivacyManager {
                data_keys: final(self).data_keys,
                consent_tokens: final(self).consent_tokens,
                ..*old(self)
            }),
            final(self).consent_tokens@ == old(self).consent_tokens@.push(
                ConsentToken {
                    study_id,
                    token_id: study_id.value,
                    access_level,
                    granted_at: now,
                    expires_at: None,
                    is_revoked: false,
                },
            ),
            has_data_key(old(self).data_keys@, study_id) ==> exists|i: int|
                {
                    &&& 0 <= i < old(self).data_keys@.len()
                    &&& old(self).data_keys@[i].study_id == study_id
                    &&& final(self).data_keys@ == old(self).data_keys@.update(
                        i,
                        StudyDataKey { study_id, key: fresh_key(encrypted_key, access_level, now) },
                    )
                },
            !has_data_key(old(self).data_keys@, study_id) ==> final(self).data_keys@ == old(
                self,
            ).data_keys@.push(
                StudyDataKey { study_id, key: fresh_key(encrypted_key, access_level, now) },
            ),
            final(self).wf(),
    {
        let key = DataKey {
            encrypted_key,
            access_level,
            created_at: now,
            last_used: now,
            is_revoked: false,
        };
        match self.find_data_key(study_id) {
            Some(i) => {
                self.data_keys.set(i, StudyDataKey { study_id, key });
            },
            None => {
                self.data_keys.push(StudyDataKey { study_id, key });
            },
        }
        self.consent_tokens.push(
            ConsentToken {
                study_id,
                token_id: study_id.value,
                access_level,
                granted_at: now,
                expires_at: None,
                is_revoked: false,
            },
        );
    }

    /// Revokes access for one study: marks the held data key revoked
    /// and the first token naming the study revoked; holds nothing, a
    /// no-op for what is absent.
    pub fn revoke_access(&mut self, study_id: AccountId)
        requires
            old(self).wf(),
        ensures
            *final(self) == (PrivacyManager {
                data_keys: final(self).data_keys,
                consent_tokens: final(self).consent_tokens,
                ..*old(self)
            }),
            has_data_key(old(self).data_keys@, study_id) ==> exists|i: int|
                {
                    &&& 0 <= i < old(self).data_keys@.len()
                    &&& old(self).data_keys@[i].study_id == study_id
                    &&& final(self).data_keys@ == old(self).data_keys@.update(
                        i,
                        StudyDataKey {
                            key: (DataKey { is_revoked: true, ..old(self).data_keys@[i].key }),
                            ..old(self).data_keys@[i]
                        },
                    )
                },
            !has_data_key(old(self).data_keys@, study_id) ==> final(self).data_keys@ == old(
                self,
            ).data_keys@,
            has_token(old(self).consent_tokens@, study_id) ==> exists|i: int|
                {
                    &&& 0 <= i < old(self).consent_tokens@.len()
                    &&& old(self).consent_tokens@[i].study_id == study_id
                    &&& (forall|j: int|
                        0 <= j < i ==> old(self).consent_tokens@[j].study_id != study_id)
                    &&& final(self).consent_tokens@ == old(self).consent_tokens@.update(
                        i,
                        ConsentToken { is_revoked: true, ..old(self).consent_tokens@[i] },
                    )
                },
            !has_token(old(self).consent_tokens@, study_id) ==> final(self).consent_tokens@ == old(
                self,
            ).consent_tokens@,
            final(self).wf(),
    {
        match self.find_data_key(study_id) {
            Some(i) => {
                let held = self.data_keys[i];
                let revoked = StudyDataKey {
                    key: DataKey { is_revoked: true, ..held.key },
                    ..held
                };
                self.data_keys.set(i, revoked);
            },
            None => {},
        }
        match self.find_token(study_id) {
            Some(i) => {
                let held = self.consent_tokens[i];
                self.consent_tokens.set(i, ConsentToken { is_revoked: true, ..held });
            },
            None => {},
        }
    }

    /// Index of the first token naming the study.
    pub fn find_token(&self, study_id: AccountId) -> (r: Option<usize>)
        ensures
            r matches Some(i) ==> i < self.consent_tokens@.len()
                && self.consent_tokens@[i as int].study_id == study_id && (forall|j: int|
                0 <= j < i ==> self.consent_tokens@[j].study_id != study_id),
            r is None ==> !has_token(self.consent_tokens@, study_id),
    {
        let mut i: usize = 0;
        while i < self.consent_tokens.len()
            invariant
                i <= self.consent_tokens@.len(),
                forall|j: int| 0 <= j < i ==> self.consent_tokens@[j].study_id != study_id,
            decreases self.consent_tokens@.len() - i,
        {
            if self.consent_tokens[i].study_id.value == study_id.value {
                return Some(i);
            }
            i = i + 1;
        }
        None
    }

    /// What `verify_access` decides: an unrevoked data key is held for
    /// the study and its level covers the required one.
    pub open spec fn spec_access_allowed(
        self,
        study_id: AccountId,
        required: DataAccessLevel,
    ) -> bool {
        exists|i: int|
            {
                &&& 0 <= i < self.data_keys@.len()
                &&& self.data_keys@[i].study_id == study_id
                &&& !self.data_keys@[i].key.is_revoked
                &&& level_covers(self.data_keys@[i].key.access_level, required)
            }
    }

    /// Decides whether data access at the required level is currently
    /// granted for the study.
    pub fn verify_access(&self, study_id: AccountId, required: DataAccessLevel) -> (r: bool)
        requires
            self.wf(),
        ensures
            r == self.spec_access_allowed(study_id, required),
    {
        match self.find_data_key(study_id) {
            Some(i) => {
                let held = self.data_keys[i];
                proof {
                    assert(forall|k: int|
                        0 <= k < self.data_keys@.len() && self.data_keys@[k].study_id == study_id
                            ==> k == i);
                }
                if held.key.is_revoked {
                    return false;
                }
                match (held.key.access_level, required) {
                    (DataAccessLevel::Full, _) => true,
                    (DataAccessLevel::Extended, DataAccessLevel::Extended) => true,
                    (DataAccessLevel::Extended, DataAccessLevel::Basic) => true,
                    (DataAccessLevel::Basic, DataAccessLevel::Basic) => true,
                    _ => false,
                }
            },
            None => false,
        }
    }
}

/// The key stored by a fresh grant.
pub open spec fn fresh_key(
    encrypted_key: [u8; 32],
    access_level: DataAccessLevel,
    now: i64,
) -> DataKey {
    DataKey { encrypted_key, access_level, created_at: now, last_used: now, is_revoked: false }
}

} // verus!
