use vstd::prelude::*;
use crate::bytes::bytes32_eq;
use crate::primitives::ValidatorId;

verus! {

/// A validator known to the chain.
#[derive(Debug, Clone, Copy)]
pub struct ValidatorInfo {
    pub validator_id: ValidatorId,
    pub public_key: [u8; 32],
    pub active: bool,
}

/// `s[i]` is the entry of the validator with bytes `id`.
pub open spec fn holds_validator(s: Seq<ValidatorInfo>, id: Seq<u8>, i: int) -> bool {
    0 <= i < s.len() && s[i].validator_id.0@ == id
}

/// The ids of the entries, in order.
pub open spec fn validator_ids(s: Seq<ValidatorInfo>) -> Seq<Seq<u8>> {
    s.map_values(|v: ValidatorInfo| v.validator_id.0@)
}

/// The first index at which `id` occurs in `ids`, or -1.
pub open spec fn first_index_of(ids: Seq<Seq<u8>>, id: Seq<u8>) -> int
    decreases ids.len(),
{
    if ids.len() == 0 {
        -1
    } else if ids[0] == id {
        0
    } else {
        let r = first_index_of(ids.drop_first(), id);
        if r < 0 {
            -1
        } else {
            r + 1
        }
    }
}

pub proof fn lemma_first_index_of(ids: Seq<Seq<u8>>, id: Seq<u8>, i: int)
    requires
        0 <= i <= ids.len(),
        forall|j: int| 0 <= j < i ==> ids[j] != id,
    ensures
        i < ids.len() && ids[i] == id ==> first_index_of(ids, id) == i,
        i == ids.len() ==> first_index_of(ids, id) == -1,
    decreases ids.len(),
{
    if i > 0 {
        lemma_first_index_of(ids.drop_first(), id, i - 1);
    }
}

pub proof fn lemma_first_index_of_range(ids: Seq<Seq<u8>>, id: Seq<u8>)
    ensures
        -1 <= first_index_of(ids, id) < ids.len(),
        first_index_of(ids, id) >= 0 ==> ids[first_index_of(ids, id)] == id,
    decreases ids.len(),
{
    if ids.len() > 0 && ids[0] != id {
        lemma_first_index_of_range(ids.drop_first(), id);
    }
}

/// The validator with bytes `id` is known and active.
pub open spec fn spec_is_active(s: Seq<ValidatorInfo>, id: Seq<u8>) -> bool {
    exists|i: int| holds_validator(s, id, i) && s[i].active
}

/// `s` with `info` stored: replacing the entry with the same id, or appended.
pub open spec fn insert_validator(s: Seq<ValidatorInfo>, info: ValidatorInfo) -> Seq<ValidatorInfo> {
    let k = first_index_of(validator_ids(s), info.validator_id.0@);
    if k >= 0 {
        s.update(k, info)
    } else {
        s.push(info)
    }
}

/// How many entries are active.
pub open spec fn count_active(s: Seq<ValidatorInfo>) -> nat
    decreases s.len(),
{
    if s.len() == 0 {
        0
    } else {
        count_active(s.drop_last()) + if s.last().active { 1nat } else { 0nat }
    }
}

/// No validator id appears twice in `s`.
pub open spec fn ids_unique(s: Seq<ValidatorInfo>) -> bool {
    forall|i: int, j: int|
        0 <= i < s.len() && 0 <= j < s.len() && #[trigger] s[i].validator_id.0@
            == #[trigger] s[j].validator_id.0@ ==> i == j
}

/// The validators, at most one entry per id, and the number of signatures a
/// claim needs.
#[derive(Debug, Clone)]
pub struct ValidatorSet {
    pub active: Vec<ValidatorInfo>,
    pub threshold: u32,
}

impl ValidatorSet {
    /// No validator id appears twice.
    pub open spec fn wf(&self) -> bool {
        ids_unique(self.active@)
    }

    pub fn new(threshold: u32) -> (res: Self)
        ensures
            res.active@ == Seq::<ValidatorInfo>::empty(),
            res.threshold == threshold,
            res.wf(),
    {
        ValidatorSet { active: Vec::new(), threshold }
    }

    fn find(&self, validator_id: ValidatorId) -> (res: Option<usize>)
        ensures
            match res {
                Some(i) => holds_validator(self.active@, validator_id.0@, i as int)
                    && first_index_of(validator_ids(self.active@), validator_id.0@) == i,
                None => forall|i: int| !holds_validator(self.active@, validator_id.0@, i),
            },
            res is None ==> first_index_of(validator_ids(self.active@), validator_id.0@) == -1,
    {
        let mut i: usize = 0;
        while i < self.active.len()
            invariant
                i <= self.active@.len(),
                forall|j: int| 0 <= j < i ==> !holds_validator(self.active@, validator_id.0@, j),
            decreases self.active@.len() - i,
        {
            if bytes32_eq(&self.active[i].validator_id.0, &validator_id.0) {
                proof {
                    assert forall|j: int| 0 <= j < i implies validator_ids(self.active@)[j]
                        != validator_id.0@ by {
                        assert(!holds_validator(self.active@, validator_id.0@, j));
                    }
                    lemma_first_index_of(validator_ids(self.active@), validator_id.0@, i as int);
                }
                return Some(i);
            }
            i = i + 1;
        }
        proof {
            assert forall|j: int| 0 <= j < i implies validator_ids(self.active@)[j]
                != validator_id.0@ by {
                assert(!holds_validator(self.active@, validator_id.0@, j));
            }
            lemma_first_index_of(validator_ids(self.active@), validator_id.0@, i as int);
        }
        None
    }

    /// Adds `info`, replacing the entry with the same id if there is one.
    pub fn add_validator(&mut self, info: ValidatorInfo)
        ensures
            old(self).wf() ==> final(self).wf(),
            final(self).threshold == old(self).threshold,
            final(self).active@ == insert_validator(old(self).active@, info),
    {
        proof {
            if self.wf() {
                lemma_insert_keeps_ids_unique(self.active@, info);
            }
        }
        match self.find(info.validator_id) {
            Some(i) => {
                self.active.set(i, info);
            },
            None => {
                self.active.push(info);
            },
        }
    }

    /// Whether `validator_id` is known and active.
    pub fn is_active(&self, validator_id: ValidatorId) -> (res: bool)
        requires
            self.wf(),
        ensures
            res == spec_is_active(self.active@, validator_id.0@),
    {
        match self.find(validator_id) {
            Some(i) => {
                assert forall|j: int| holds_validator(self.active@, validator_id.0@, j) implies j
                    == i by {
                    assert(self.active@[j].validator_id.0@ == self.active@[i as int].validator_id.0@);
                }
                self.active[i].active
            },
            None => false,
        }
    }

    /// The entry of `validator_id`, if known.
    pub fn get_info(&self, validator_id: ValidatorId) -> (res: Option<&ValidatorInfo>)
        ensures
            match res {
                Some(v) => exists|i: int|
                    holds_validator(self.active@, validator_id.0@, i) && *v == self.active@[i],
                None => forall|i: int| !holds_validator(self.active@, validator_id.0@, i),
            },
    {
        match self.find(validator_id) {
            Some(i) => Some(&self.active[i]),
            None => None,
        }
    }

    /// The number of known validators.
    pub fn size(&self) -> (res: usize)
        ensures
            res == self.active@.len(),
    {
        self.active.len()
    }

    /// The number of active validators.
    pub fn active_count(&self) -> (res: usize)
        ensures
            res == count_active(self.active@),
    {
        let mut count: usize = 0;
        let mut i: usize = 0;
        while i < self.active.len()
            invariant
                i <= self.active@.len(),
                count == count_active(self.active@.take(i as int)),
                count <= i,
            decreases self.active@.len() - i,
        {
            assert(self.active@.take(i + 1).drop_last() =~= self.active@.take(i as int));
            if self.active[i].active {
                count = count + 1;
            }
            i = i + 1;
        }
        assert(self.active@.take(i as int) =~= self.active@);
        count
    }
}

/// Storing an entry keeps ids unique.
pub proof fn lemma_insert_keeps_ids_unique(s: Seq<ValidatorInfo>, info: ValidatorInfo)
    requires
        ids_unique(s),
    ensures
        ids_unique(insert_validator(s, info)),
{
    let t = insert_validator(s, info);
    let k = first_index_of(validator_ids(s), info.validator_id.0@);
    lemma_first_index_of_range(validator_ids(s), info.validator_id.0@);
    assert forall|a: int, b: int|
        0 <= a < t.len() && 0 <= b < t.len() && #[trigger] t[a].validator_id.0@
            == #[trigger] t[b].validator_id.0@ implies a == b by {
        if k >= 0 {
            assert(validator_ids(s)[k] == s[k].validator_id.0@);
            if a != k && b != k {
                assert(s[a].validator_id.0@ == s[b].validator_id.0@);
            } else if a != k {
                assert(s[a].validator_id.0@ == s[k].validator_id.0@);
            } else if b != k {
                assert(s[b].validator_id.0@ == s[k].validator_id.0@);
            }
        } else {
            let n = s.len() as int;
            if a < n && b < n {
                assert(s[a].validator_id.0@ == s[b].validator_id.0@);
            } else if a < n {
                assert(validator_ids(s)[a] == s[a].validator_id.0@);
                lemma_first_index_absent(validator_ids(s), info.validator_id.0@, a);
            } else if b < n {
                assert(validator_ids(s)[b] == s[b].validator_id.0@);
                lemma_first_index_absent(validator_ids(s), info.validator_id.0@, b);
            }
        }
    }
}

/// When `first_index_of` finds nothing, no entry holds the id.
pub proof fn lemma_first_index_absent(ids: Seq<Seq<u8>>, id: Seq<u8>, j: int)
    requires
        first_index_of(ids, id) == -1,
        0 <= j < ids.len(),
    ensures
        ids[j] != id,
    decreases ids.len(),
{
    if j > 0 && ids[0] != id {
        lemma_first_index_absent(ids.drop_first(), id, j - 1);
    }
}

/// Once a validator has been stored, querying it gives back what was stored:
/// it is active exactly when the stored entry is, and its entry is that one.
pub proof fn lemma_stored_validator_is_found(s: Seq<ValidatorInfo>, info: ValidatorInfo)
    requires
        ids_unique(s),
    ensures
        spec_is_active(insert_validator(s, info), info.validator_id.0@) == info.active,
        forall|i: int|
            holds_validator(insert_validator(s, info), info.validator_id.0@, i) ==> insert_validator(
                s,
                info,
            )[i] == info,
{
    let t = insert_validator(s, info);
    lemma_insert_keeps_ids_unique(s, info);
    lemma_first_index_of_range(validator_ids(s), info.validator_id.0@);
    let k = first_index_of(validator_ids(s), info.validator_id.0@);
    let at = if k >= 0 { k } else { s.len() as int };
    assert(t[at] == info);
    assert(holds_validator(t, info.validator_id.0@, at));
    assert forall|i: int| holds_validator(t, info.validator_id.0@, i) implies t[i] == info by {
        assert(t[i].validator_id.0@ == t[at].validator_id.0@);
    }
}

} // verus!
