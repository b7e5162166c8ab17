//! The whitelist: who may deposit into a private fund.

use crate::error::{FundError, FundErrorCode};
use crate::host::AccountView;
use crate::identity::{identity_ext, Identity};
use crate::pack::read_identity;
use vstd::prelude::*;

verus! {

/// Bytes that one member takes in a whitelist account.
pub const ENTRY_LEN: usize = 32;

/// The members of a whitelist account, in the order the account lists them.
#[derive(Debug, PartialEq, Eq)]
pub struct Whitelist {
    /// The members, first listed first.
    pub entries: Vec<Identity>,
}

impl View for Whitelist {
    type V = Seq<Identity>;

    open spec fn view(&self) -> Seq<Identity> {
        self.entries@
    }
}

/// The account data lists exactly these members: 32 bytes each, one after the other.
pub open spec fn lists(data: Seq<u8>, members: Seq<Identity>) -> bool {
    &&& data.len() == 32 * members.len()
    &&& forall|i: int|
        0 <= i < members.len() ==> (#[trigger] members[i])@ == data.subrange(32 * i, 32 * i + 32)
}

/// The members that the account data lists, if it is a list of members.
pub open spec fn spec_members(data: Seq<u8>) -> Option<Seq<Identity>> {
    if exists|members: Seq<Identity>| lists(data, members) {
        Some(choose|members: Seq<Identity>| lists(data, members))
    } else {
        None
    }
}

/// Account data lists at most one sequence of members.
pub proof fn members_are_unique(data: Seq<u8>, a: Seq<Identity>, b: Seq<Identity>)
    requires
        lists(data, a),
        lists(data, b),
    ensures
        a == b,
{
    assert(a.len() == b.len());
    assert forall|i: int| 0 <= i < a.len() implies a[i] == b[i] by {
        identity_ext(a[i], b[i]);
    }
    assert(a =~= b);
}

/// The position of the first member equal to `e`, or the length where there is none.
pub open spec fn first_index_of(members: Seq<Identity>, e: Identity) -> int
    decreases members.len(),
{
    if members.len() == 0 {
        0
    } else if members[0] == e {
        0
    } else {
        1 + first_index_of(members.drop_first(), e)
    }
}

/// `first_index_of` is the least position that holds `e`, and the length exactly when no
/// position does.
pub proof fn first_index_is_least(members: Seq<Identity>, e: Identity)
    ensures
        0 <= first_index_of(members, e) <= members.len(),
        first_index_of(members, e) < members.len() ==> members[first_index_of(members, e)] == e,
        forall|j: int| 0 <= j < first_index_of(members, e) ==> members[j] != e,
        members.contains(e) <==> first_index_of(members, e) < members.len(),
    decreases members.len(),
{
    if members.len() > 0 && members[0] != e {
        let rest = members.drop_first();
        first_index_is_least(rest, e);
        let k = first_index_of(rest, e);
        assert forall|j: int| 0 <= j < 1 + k implies members[j] != e by {
            if j > 0 {
                assert(members[j] == rest[j - 1]);
            }
        }
        if k < rest.len() {
            assert(members[1 + k] == rest[k]);
        }
        if members.contains(e) {
            let i = choose|i: int| 0 <= i < members.len() && members[i] == e;
            assert(rest[i - 1] == e);
            assert(rest.contains(e));
        }
    }
}

impl Whitelist {
    /// Reads the members out of a whitelist account. Data whose length is not a multiple of 32
    /// is no whitelist.
    pub fn new(acc_info: &AccountView) -> (r: Result<Whitelist, FundError>)
        ensures
            r is Ok <==> acc_info.data@.len() % 32 == 0,
            match spec_members(acc_info.data@) {
                Some(members) => r matches Ok(w) && w@ == members,
                None => r == Err::<Whitelist, FundError>(
                    FundError::ErrorCode(FundErrorCode::InvalidWhitelist),
                ),
            },
    {
        let data = acc_info.data.as_slice();
        let len = data.len();
        if len % ENTRY_LEN != 0 {
            return Err(FundError::ErrorCode(FundErrorCode::InvalidWhitelist));
        }
        let count = len / ENTRY_LEN;
        let mut entries: Vec<Identity> = Vec::new();
        let mut i: usize = 0;
        while i < count
            invariant
                i <= count,
                len == data@.len(),
                len == 32 * count,
                entries@.len() == i,
                forall|j: int|
                    0 <= j < i ==> (#[trigger] entries@[j])@ == data@.subrange(32 * j, 32 * j + 32),
            decreases count - i,
        {
            let e = read_identity(data, i * ENTRY_LEN);
            entries.push(e);
            i += 1;
        }
        proof {
            assert(lists(data@, entries@));
            members_are_unique(data@, entries@, spec_members(data@).unwrap());
        }
        Ok(Whitelist { entries })
    }

    /// The position of the first member equal to `e`. An identity that is no member is an
    /// error.
    pub fn index_of(&self, e: &Identity) -> (r: Result<usize, FundError>)
        ensures
            self@.contains(*e) ==> r == Ok::<usize, FundError>(
                first_index_of(self@, *e) as usize,
            ),
            !self@.contains(*e) ==> r == Err::<usize, FundError>(
                FundError::ErrorCode(FundErrorCode::WhitelistEntryNotFound),
            ),
    {
        proof {
            first_index_is_least(self@, *e);
        }
        let mut i: usize = 0;
        while i < self.entries.len()
            invariant
                i <= self.entries@.len(),
                forall|j: int| 0 <= j < i ==> self@[j] != *e,
                0 <= first_index_of(self@, *e) <= self@.len(),
                first_index_of(self@, *e) < self@.len() ==> self@[first_index_of(self@, *e)] == *e,
                forall|j: int| 0 <= j < first_index_of(self@, *e) ==> self@[j] != *e,
                self@.contains(*e) <==> first_index_of(self@, *e) < self@.len(),
            decreases self.entries@.len() - i,
        {
            if self.entries[i] == *e {
                return Ok(i);
            }
            i += 1;
        }
        Err(FundError::ErrorCode(FundErrorCode::WhitelistEntryNotFound))
    }
}

} // verus!
