use vstd::prelude::*;

use crate::errors::AccessError;

verus! {

/// The grantable rights. The vocabulary partitions into three groups:
/// super rights (issuing and recalling access key badges), the basic right
/// (producing proofs of the custodied authority badge), and the validator
/// extension rights (one per operation forwarded to the delegate target).
#[allow(non_camel_case_types)]
#[derive(Clone, Copy, Debug, PartialEq, Eq, Structural)]
pub enum KeyBadgePermission {
    // Super permissions
    CreateAccessKey,
    RecallAccessKey,
    // Basic permissions
    CreateNativeProof,
    // Validator permissions
    Validator_Register,
    Validator_Unregister,
    Validator_StakeAsOwner,
    Validator_UpdateKey,
    Validator_UpdateFee,
    Validator_UpdateAcceptDelegatedStake,
    Validator_SignalProtocolUpdateReadiness,
    Validator_LockOwnerStakeUnits,
    Validator_StartUnlockOwnerStakeUnits,
    Validator_FinishUnlockOwnerStakeUnits,
}

/// A super permission carries the right to issue or recall access key
/// badges; a non-owner issuer may never pass one on.
pub open spec fn is_super_permission(p: KeyBadgePermission) -> bool {
    ||| p == KeyBadgePermission::CreateAccessKey
    ||| p == KeyBadgePermission::RecallAccessKey
}

/// The basic permission: producing a proof of the custodied authority badge.
pub open spec fn is_basic_permission(p: KeyBadgePermission) -> bool {
    p == KeyBadgePermission::CreateNativeProof
}

/// A validator permission gates one forwarded delegate-target operation.
pub open spec fn is_validator_permission(p: KeyBadgePermission) -> bool {
    !is_super_permission(p) && !is_basic_permission(p)
}

/// The stable tag string of each permission. The string vocabulary names the
/// validator rights without the internal grouping prefix.
pub open spec fn spec_tag(p: KeyBadgePermission) -> Seq<char> {
    match p {
        KeyBadgePermission::CreateAccessKey => "CreateAccessKey"@,
        KeyBadgePermission::RecallAccessKey => "RecallAccessKey"@,
        KeyBadgePermission::CreateNativeProof => "CreateNativeProof"@,
        KeyBadgePermission::Validator_Register => "Register"@,
        KeyBadgePermission::Validator_Unregister => "Unregister"@,
        KeyBadgePermission::Validator_StakeAsOwner => "StakeAsOwner"@,
        KeyBadgePermission::Validator_UpdateKey => "UpdateKey"@,
        KeyBadgePermission::Validator_UpdateFee => "UpdateFee"@,
        KeyBadgePermission::Validator_UpdateAcceptDelegatedStake => "UpdateAcceptDelegatedStake"@,
        KeyBadgePermission::Validator_SignalProtocolUpdateReadiness => "SignalProtocolUpdateReadiness"@,
        KeyBadgePermission::Validator_LockOwnerStakeUnits => "LockOwnerStakeUnits"@,
        KeyBadgePermission::Validator_StartUnlockOwnerStakeUnits => "StartUnlockOwnerStakeUnits"@,
        KeyBadgePermission::Validator_FinishUnlockOwnerStakeUnits => "FinishUnlockOwnerStakeUnits"@,
    }
}

/// Reads one tag string back into a permission. Tags are case-sensitive and
/// must match a known tag exactly; anything else is rejected.
pub open spec fn spec_from_tag(s: Seq<char>) -> Option<KeyBadgePermission> {
    if s == spec_tag(KeyBadgePermission::CreateAccessKey) {
        Some(KeyBadgePermission::CreateAccessKey)
    } else if s == spec_tag(KeyBadgePermission::RecallAccessKey) {
        Some(KeyBadgePermission::RecallAccessKey)
    } else if s == spec_tag(KeyBadgePermission::CreateNativeProof) {
        Some(KeyBadgePermission::CreateNativeProof)
    } else if s == spec_tag(KeyBadgePermission::Validator_Register) {
        Some(KeyBadgePermission::Validator_Register)
    } else if s == spec_tag(KeyBadgePermission::Validator_Unregister) {
        Some(KeyBadgePermission::Validator_Unregister)
    } else if s == spec_tag(KeyBadgePermission::Validator_StakeAsOwner) {
        Some(KeyBadgePermission::Validator_StakeAsOwner)
    } else if s == spec_tag(KeyBadgePermission::Validator_UpdateKey) {
        Some(KeyBadgePermission::Validator_UpdateKey)
    } else if s == spec_tag(KeyBadgePermission::Validator_UpdateFee) {
        Some(KeyBadgePermission::Validator_UpdateFee)
    } else if s == spec_tag(KeyBadgePermission::Validator_UpdateAcceptDelegatedStake) {
        Some(KeyBadgePermission::Validator_UpdateAcceptDelegatedStake)
    } else if s == spec_tag(KeyBadgePermission::Validator_SignalProtocolUpdateReadiness) {
        Some(KeyBadgePermission::Validator_SignalProtocolUpdateReadiness)
    } else if s == spec_tag(KeyBadgePermission::Validator_LockOwnerStakeUnits) {
        Some(KeyBadgePermission::Validator_LockOwnerStakeUnits)
    } else if s == spec_tag(KeyBadgePermission::Validator_StartUnlockOwnerStakeUnits) {
        Some(KeyBadgePermission::Validator_StartUnlockOwnerStakeUnits)
    } else if s == spec_tag(KeyBadgePermission::Validator_FinishUnlockOwnerStakeUnits) {
        Some(KeyBadgePermission::Validator_FinishUnlockOwnerStakeUnits)
    } else {
        None
    }
}

impl KeyBadgePermission {
    /// Whether this permission is one of the two super rights.
    pub fn is_super(&self) -> (r: bool)
        ensures
            r == is_super_permission(*self),
    {
        matches!(self, KeyBadgePermission::CreateAccessKey | KeyBadgePermission::RecallAccessKey)
    }

    /// The stable tag string of this permission.
    pub fn tag(&self) -> (r: String)
        ensures
            r@ == spec_tag(*self),
    {
        match self {
            KeyBadgePermission::CreateAccessKey => "CreateAccessKey".to_owned(),
            KeyBadgePermission::RecallAccessKey => "RecallAccessKey".to_owned(),
            KeyBadgePermission::CreateNativeProof => "CreateNativeProof".to_owned(),
            KeyBadgePermission::Validator_Register => "Register".to_owned(),
            KeyBadgePermission::Validator_Unregister => "Unregister".to_owned(),
            KeyBadgePermission::Validator_StakeAsOwner => "StakeAsOwner".to_owned(),
            KeyBadgePermission::Validator_UpdateKey => "UpdateKey".to_owned(),
            KeyBadgePermission::Validator_UpdateFee => "UpdateFee".to_owned(),
            KeyBadgePermission::Validator_UpdateAcceptDelegatedStake => "UpdateAcceptDelegatedStake".to_owned(),
            KeyBadgePermission::Validator_SignalProtocolUpdateReadiness => "SignalProtocolUpdateReadiness".to_owned(),
            KeyBadgePermission::Validator_LockOwnerStakeUnits => "LockOwnerStakeUnits".to_owned(),
            KeyBadgePermission::Validator_StartUnlockOwnerStakeUnits => "StartUnlockOwnerStakeUnits".to_owned(),
            KeyBadgePermission::Validator_FinishUnlockOwnerStakeUnits => "FinishUnlockOwnerStakeUnits".to_owned(),
        }
    }

    /// Reads one tag string back into a permission.
    pub fn from_tag(s: &String) -> (r: Option<KeyBadgePermission>)
        ensures
            r == spec_from_tag(s@),
    {
        if *s == "CreateAccessKey".to_owned() {
            Some(KeyBadgePermission::CreateAccessKey)
        } else if *s == "RecallAccessKey".to_owned() {
            Some(KeyBadgePermission::RecallAccessKey)
        } else if *s == "CreateNativeProof".to_owned() {
            Some(KeyBadgePermission::CreateNativeProof)
        } else if *s == "Register".to_owned() {
            Some(KeyBadgePermission::Validator_Register)
        } else if *s == "Unregister".to_owned() {
            Some(KeyBadgePermission::Validator_Unregister)
        } else if *s == "StakeAsOwner".to_owned() {
            Some(KeyBadgePermission::Validator_StakeAsOwner)
        } else if *s == "UpdateKey".to_owned() {
            Some(KeyBadgePermission::Validator_UpdateKey)
        } else if *s == "UpdateFee".to_owned() {
            Some(KeyBadgePermission::Validator_UpdateFee)
        } else if *s == "UpdateAcceptDelegatedStake".to_owned() {
            Some(KeyBadgePermission::Validator_UpdateAcceptDelegatedStake)
        } else if *s == "SignalProtocolUpdateReadiness".to_owned() {
            Some(KeyBadgePermission::Validator_SignalProtocolUpdateReadiness)
        } else if *s == "LockOwnerStakeUnits".to_owned() {
            Some(KeyBadgePermission::Validator_LockOwnerStakeUnits)
        } else if *s == "StartUnlockOwnerStakeUnits".to_owned() {
            Some(KeyBadgePermission::Validator_StartUnlockOwnerStakeUnits)
        } else if *s == "FinishUnlockOwnerStakeUnits".to_owned() {
            Some(KeyBadgePermission::Validator_FinishUnlockOwnerStakeUnits)
        } else {
            None
        }
    }
}

/// A set of permission tags: the rights one access key badge grants. The
/// carrier is a plain vector; its abstract value is the set of tags it holds,
/// so duplicates and order do not matter.
#[derive(Debug)]
pub struct PermissionSet {
    pub tags: Vec<KeyBadgePermission>,
}

impl View for PermissionSet {
    type V = Set<KeyBadgePermission>;

    open spec fn view(&self) -> Set<KeyBadgePermission> {
        self.tags@.to_set()
    }
}

impl Clone for PermissionSet {
    fn clone(&self) -> (r: Self)
        ensures
            r.tags@ == self.tags@,
            r@ == self@,
    {
        let mut tags: Vec<KeyBadgePermission> = Vec::new();
        let n = self.tags.len();
        let mut i: usize = 0;
        while i < n
            invariant
                i <= n,
                n == self.tags.len(),
                tags@ == self.tags@.take(i as int),
            decreases n - i,
        {
            tags.push(self.tags[i]);
            proof {
                assert(tags@ =~= self.tags@.take(i + 1 as int));
            }
            i += 1;
        }
        proof {
            assert(tags@ =~= self.tags@);
        }
        PermissionSet { tags }
    }
}

/// The tag strings written for a permission sequence, one per entry.
pub open spec fn spec_tags_of(tags: Seq<KeyBadgePermission>) -> Seq<Seq<char>> {
    tags.map_values(|p: KeyBadgePermission| spec_tag(p))
}

/// What parsing a sequence of tag strings yields: the permissions named, in
/// order, or `InvalidPermissionTag` if any string names no known tag.
pub open spec fn spec_parse(tags: Seq<Seq<char>>) -> Result<Seq<KeyBadgePermission>, AccessError>
    decreases tags.len(),
{
    if tags.len() == 0 {
        Ok(Seq::empty())
    } else {
        match spec_parse(tags.drop_last()) {
            Err(e) => Err(e),
            Ok(ps) => match spec_from_tag(tags.last()) {
                Some(p) => Ok(ps.push(p)),
                None => Err(AccessError::InvalidPermissionTag),
            },
        }
    }
}

impl PermissionSet {
    /// Whether this set grants the given permission.
    pub fn contains(&self, tag: KeyBadgePermission) -> (r: bool)
        ensures
            r == self@.contains(tag),
    {
        let n = self.tags.len();
        let mut i: usize = 0;
        while i < n
            invariant
                i <= n,
                n == self.tags.len(),
                forall|j: int| 0 <= j < i ==> self.tags@[j] != tag,
            decreases n - i,
        {
            if self.tags[i] == tag {
                return true;
            }
            i += 1;
        }
        false
    }

    /// Whether every permission of this set is also in `reference`.
    pub fn is_subset(&self, reference: &PermissionSet) -> (r: bool)
        ensures
            r == self@.subset_of(reference@),
    {
        let n = self.tags.len();
        let mut i: usize = 0;
        while i < n
            invariant
                i <= n,
                n == self.tags.len(),
                forall|j: int| 0 <= j < i ==> reference@.contains(#[trigger] self.tags@[j]),
            decreases n - i,
        {
            if !reference.contains(self.tags[i]) {
                return false;
            }
            i += 1;
        }
        proof {
            assert forall|p: KeyBadgePermission| self@.contains(p) implies reference@.contains(
                p,
            ) by {
                let j = choose|j: int| 0 <= j < self.tags@.len() && self.tags@[j] == p;
                assert(reference@.contains(self.tags@[j]));
            }
        }
        true
    }

    /// Whether this set holds a super permission.
    pub fn contains_super(&self) -> (r: bool)
        ensures
            r == (self@.contains(KeyBadgePermission::CreateAccessKey) || self@.contains(
                KeyBadgePermission::RecallAccessKey,
            )),
    {
        let n = self.tags.len();
        let mut i: usize = 0;
        while i < n
            invariant
                i <= n,
                n == self.tags.len(),
                forall|j: int| 0 <= j < i ==> !is_super_permission(#[trigger] self.tags@[j]),
            decreases n - i,
        {
            if self.tags[i].is_super() {
                return true;
            }
            i += 1;
        }
        false
    }

    /// Parses a list of tag strings into a permission set. Unknown tags are
    /// rejected with `InvalidPermissionTag`, never silently ignored.
    pub fn parse(tag_strings: &Vec<String>) -> (r: Result<PermissionSet, AccessError>)
        ensures
            (match r {
                Ok(ps) => spec_parse(tag_strings.deep_view()) == Ok::<
                    Seq<KeyBadgePermission>,
                    AccessError,
                >(ps.tags@),
                Err(e) => spec_parse(tag_strings.deep_view()) == Err::<
                    Seq<KeyBadgePermission>,
                    AccessError,
                >(e),
            }),
    {
        let ghost dv = tag_strings.deep_view();
        let mut tags: Vec<KeyBadgePermission> = Vec::new();
        let n = tag_strings.len();
        let mut i: usize = 0;
        while i < n
            invariant
                i <= n,
                n == tag_strings@.len(),
                dv == tag_strings.deep_view(),
                spec_parse(dv.take(i as int)) == Ok::<Seq<KeyBadgePermission>, AccessError>(tags@),
            decreases n - i,
        {
            proof {
                assert(dv.take(i + 1 as int).drop_last() =~= dv.take(i as int));
                assert(dv.take(i + 1 as int).last() == dv[i as int]);
                assert(dv[i as int] == tag_strings@[i as int]@);
            }
            match KeyBadgePermission::from_tag(&tag_strings[i]) {
                Some(p) => {
                    tags.push(p);
                },
                None => {
                    proof {
                        lemma_parse_err_propagates(dv, i + 1 as int);
                    }
                    return Err(AccessError::InvalidPermissionTag);
                },
            }
            i += 1;
        }
        proof {
            assert(dv.take(n as int) =~= dv);
        }
        Ok(PermissionSet { tags })
    }

    /// Writes this set back out as its list of tag strings, one per stored
    /// tag, in storage order.
    pub fn to_tag_strings(&self) -> (r: Vec<String>)
        ensures
            r.deep_view() == spec_tags_of(self.tags@),
    {
        let mut r: Vec<String> = Vec::new();
        let n = self.tags.len();
        let mut i: usize = 0;
        while i < n
            invariant
                i <= n,
                n == self.tags.len(),
                r.deep_view() == spec_tags_of(self.tags@.take(i as int)),
            decreases n - i,
        {
            let ghost prefix = r.deep_view();
            let tag_string = self.tags[i].tag();
            r.push(tag_string);
            proof {
                assert(prefix.len() == i);
                assert forall|j: int| 0 <= j < i + 1 implies r.deep_view()[j] == spec_tags_of(
                    self.tags@.take(i + 1 as int),
                )[j] by {
                    if j < i {
                        assert(r.deep_view()[j] == prefix[j]);
                        assert(prefix[j] == spec_tag(self.tags@.take(i as int)[j]));
                    } else {
                        assert(r@[j] == tag_string);
                    }
                }
                assert(r.deep_view() =~= spec_tags_of(self.tags@.take(i + 1 as int)));
            }
            i += 1;
        }
        proof {
            assert(self.tags@.take(n as int) =~= self.tags@);
        }
        r
    }
}

/// Once a prefix of the tag strings fails to parse, the whole list fails the
/// same way: parsing inspects the strings left to right.
proof fn lemma_parse_err_propagates(s: Seq<Seq<char>>, k: int)
    requires
        0 <= k <= s.len(),
        spec_parse(s.take(k)) is Err,
    ensures
        spec_parse(s) == spec_parse(s.take(k)),
    decreases s.len() - k,
{
    if k == s.len() {
        assert(s.take(k) =~= s);
    } else {
        assert(s.take(k + 1).drop_last() =~= s.take(k));
        lemma_parse_err_propagates(s, k + 1);
    }
}

/// Every permission's tag string parses back to that permission: the tag
/// vocabulary has no collisions.
pub proof fn lemma_tag_round_trip(p: KeyBadgePermission)
    ensures
        spec_from_tag(spec_tag(p)) == Some(p),
{
    reveal_strlit("CreateAccessKey");
    reveal_strlit("RecallAccessKey");
    reveal_strlit("CreateNativeProof");
    reveal_strlit("Register");
    reveal_strlit("Unregister");
    reveal_strlit("StakeAsOwner");
    reveal_strlit("UpdateKey");
    reveal_strlit("UpdateFee");
    reveal_strlit("UpdateAcceptDelegatedStake");
    reveal_strlit("SignalProtocolUpdateReadiness");
    reveal_strlit("LockOwnerStakeUnits");
    reveal_strlit("StartUnlockOwnerStakeUnits");
    reveal_strlit("FinishUnlockOwnerStakeUnits");
    // Seed the facts that tell the tags apart: a differing length, or a
    // differing character where two tags are equally long.
    assert("CreateAccessKey"@.len() == 15);
    assert("RecallAccessKey"@.len() == 15);
    assert("CreateAccessKey"@[0] == 'C');
    assert("RecallAccessKey"@[0] == 'R');
    assert("CreateNativeProof"@.len() == 17);
    assert("Register"@.len() == 8);
    assert("Unregister"@.len() == 10);
    assert("StakeAsOwner"@.len() == 12);
    assert("UpdateKey"@.len() == 9);
    assert("UpdateFee"@.len() == 9);
    assert("UpdateKey"@[6] == 'K');
    assert("UpdateFee"@[6] == 'F');
    assert("UpdateAcceptDelegatedStake"@.len() == 26);
    assert("StartUnlockOwnerStakeUnits"@.len() == 26);
    assert("UpdateAcceptDelegatedStake"@[0] == 'U');
    assert("StartUnlockOwnerStakeUnits"@[0] == 'S');
    assert("SignalProtocolUpdateReadiness"@.len() == 29);
    assert("LockOwnerStakeUnits"@.len() == 19);
    assert("FinishUnlockOwnerStakeUnits"@.len() == 27);
    match p {
        KeyBadgePermission::CreateAccessKey => assert(spec_from_tag(spec_tag(p)) == Some(p)),
        KeyBadgePermission::RecallAccessKey => assert(spec_from_tag(spec_tag(p)) == Some(p)),
        KeyBadgePermission::CreateNativeProof => assert(spec_from_tag(spec_tag(p)) == Some(p)),
        KeyBadgePermission::Validator_Register => assert(spec_from_tag(spec_tag(p)) == Some(p)),
        KeyBadgePermission::Validator_Unregister => assert(spec_from_tag(spec_tag(p)) == Some(p)),
        KeyBadgePermission::Validator_StakeAsOwner => assert(spec_from_tag(spec_tag(p)) == Some(p)),
        KeyBadgePermission::Validator_UpdateKey => assert(spec_from_tag(spec_tag(p)) == Some(p)),
        KeyBadgePermission::Validator_UpdateFee => assert(spec_from_tag(spec_tag(p)) == Some(p)),
        KeyBadgePermission::Validator_UpdateAcceptDelegatedStake => assert(spec_from_tag(
            spec_tag(p),
        ) == Some(p)),
        KeyBadgePermission::Validator_SignalProtocolUpdateReadiness => assert(spec_from_tag(
            spec_tag(p),
        ) == Some(p)),
        KeyBadgePermission::Validator_LockOwnerStakeUnits => assert(spec_from_tag(spec_tag(p))
            == Some(p)),
        KeyBadgePermission::Validator_StartUnlockOwnerStakeUnits => assert(spec_from_tag(
            spec_tag(p),
        ) == Some(p)),
        KeyBadgePermission::Validator_FinishUnlockOwnerStakeUnits => assert(spec_from_tag(
            spec_tag(p),
        ) == Some(p)),
    }
}

/// Parsing is left inverse to serialization: the tag strings written for a
/// permission sequence parse back to exactly that sequence, so a
/// previously-serialized valid permission set round-trips to an equal set.
pub proof fn lemma_parse_round_trip(tags: Seq<KeyBadgePermission>)
    ensures
        spec_parse(spec_tags_of(tags)) == Ok::<Seq<KeyBadgePermission>, AccessError>(tags),
    decreases tags.len(),
{
    if tags.len() == 0 {
        assert(spec_tags_of(tags).len() == 0);
        assert(tags =~= Seq::<KeyBadgePermission>::empty());
    } else {
        let x = spec_tags_of(tags);
        lemma_parse_round_trip(tags.drop_last());
        lemma_tag_round_trip(tags.last());
        assert(x.drop_last() =~= spec_tags_of(tags.drop_last()));
        assert(x.last() == spec_tag(tags.last()));
        assert(spec_parse(x.drop_last()) == Ok::<Seq<KeyBadgePermission>, AccessError>(
            tags.drop_last(),
        ));
        assert(spec_from_tag(x.last()) == Some(tags.last()));
        assert(spec_parse(x) == Ok::<Seq<KeyBadgePermission>, AccessError>(
            tags.drop_last().push(tags.last()),
        ));
        assert(tags.drop_last().push(tags.last()) =~= tags);
    }
}

} // verus!
