use vstd::prelude::*;

verus! {

/// How rows fall into groups: which group a row belongs to, what it adds
/// to its group, and how a group is started and extended.
#[verifier::reject_recursive_types(G)]
#[verifier::reject_recursive_types(R)]
#[verifier::reject_recursive_types(K)]
#[verifier::reject_recursive_types(V)]
pub struct Shape<G, R, K, V> {
    /// The key of a group.
    pub group_key: spec_fn(G) -> K,
    /// The members of a group, in order.
    pub members: spec_fn(G) -> Seq<V>,
    /// The key of the group that a row belongs to, if it belongs to one.
    pub row_key: spec_fn(R) -> Option<K>,
    /// What a row adds to its group.
    pub member: spec_fn(R) -> V,
    /// The group of one member under a key.
    pub start: spec_fn(K, V) -> G,
    /// A group with one more member at its end.
    pub extend: spec_fn(G, V) -> G,
}

impl<G, R, K, V> Shape<G, R, K, V> {
    /// A started group has its key and its one member; an extended group
    /// keeps its key and has the new member after the others.
    pub open spec fn consistent(self) -> bool {
        &&& forall|key: K, member: V|
            (self.group_key)(#[trigger] (self.start)(key, member)) == key && (self.members)(
                (self.start)(key, member),
            ) == seq![member]
        &&& forall|group: G, member: V|
            (self.group_key)(#[trigger] (self.extend)(group, member)) == (self.group_key)(group)
                && (self.members)((self.extend)(group, member)) == (self.members)(group).push(
                member,
            )
    }
}

/// The place in `groups` of the group with the key `key`: the first index
/// whose group has that key, or the length of `groups` where none has it.
pub open spec fn index_of<G, R, K, V>(groups: Seq<G>, shape: Shape<G, R, K, V>, key: K) -> int
    decreases groups.len(),
{
    if groups.len() == 0 {
        0
    } else if (shape.group_key)(groups[0]) == key {
        0
    } else {
        1 + index_of(groups.drop_first(), shape, key)
    }
}

/// [`index_of`] is the one index at which the key stands first.
pub proof fn lemma_index_of<G, R, K, V>(
    groups: Seq<G>,
    shape: Shape<G, R, K, V>,
    key: K,
    at: int,
)
    ensures
        0 <= index_of(groups, shape, key) <= groups.len(),
        forall|k: int|
            0 <= k < index_of(groups, shape, key) ==> (shape.group_key)(#[trigger] groups[k])
                != key,
        index_of(groups, shape, key) < groups.len() ==> (shape.group_key)(
            groups[index_of(groups, shape, key)],
        ) == key,
        (0 <= at <= groups.len() && (forall|k: int|
            0 <= k < at ==> (shape.group_key)(#[trigger] groups[k]) != key) && (at < groups.len()
            ==> (shape.group_key)(groups[at]) == key)) ==> at == index_of(groups, shape, key),
    decreases groups.len(),
{
    if groups.len() > 0 && (shape.group_key)(groups[0]) != key {
        let rest = groups.drop_first();
        lemma_index_of(rest, shape, key, at - 1);
        let p = index_of(rest, shape, key);
        assert forall|k: int| 0 <= k < p + 1 implies (shape.group_key)(#[trigger] groups[k])
            != key by {
            if k > 0 {
                assert(groups[k] == rest[k - 1]);
            }
        }
        if p < rest.len() {
            assert(groups[p + 1] == rest[p]);
        }
        if 0 <= at <= groups.len() && (forall|k: int|
            0 <= k < at ==> (shape.group_key)(#[trigger] groups[k]) != key) && (at < groups.len()
            ==> (shape.group_key)(groups[at]) == key) {
            assert(at > 0) by {
                if at == 0 {
                    if groups.len() > 0 {
                        assert((shape.group_key)(groups[0]) == key);
                    }
                }
            }
            assert forall|k: int| 0 <= k < at - 1 implies (shape.group_key)(#[trigger] rest[k])
                != key by {
                assert(rest[k] == groups[k + 1]);
            }
            if at - 1 < rest.len() {
                assert(rest[at - 1] == groups[at]);
            }
        }
    }
}

/// The groups `groups` with one more row taken in: a row without a key
/// changes nothing; a row with the key of one of the groups adds its
/// member at the end of that group; a row with a new key starts a group
/// of its own at the end.
pub open spec fn with_row<G, R, K, V>(groups: Seq<G>, shape: Shape<G, R, K, V>, row: R) -> Seq<G> {
    match (shape.row_key)(row) {
        None => groups,
        Some(key) => {
            let k = index_of(groups, shape, key);
            if k < groups.len() {
                groups.update(k, (shape.extend)(groups[k], (shape.member)(row)))
            } else {
                groups.push((shape.start)(key, (shape.member)(row)))
            }
        },
    }
}

/// The groups that a sequence of rows falls into: one for each key among
/// the rows, in the order in which the keys first occur, each with the
/// members of the rows of that key, in the order of the rows. Rows
/// without a key belong to none.
pub open spec fn grouped<G, R, K, V>(rows: Seq<R>, shape: Shape<G, R, K, V>) -> Seq<G>
    decreases rows.len(),
{
    if rows.len() == 0 {
        Seq::empty()
    } else {
        with_row(grouped(rows.drop_last(), shape), shape, rows.last())
    }
}

/// The members of the rows with the key `key`, in the order of the rows.
pub open spec fn members_of<G, R, K, V>(rows: Seq<R>, shape: Shape<G, R, K, V>, key: K) -> Seq<V>
    decreases rows.len(),
{
    if rows.len() == 0 {
        Seq::empty()
    } else if (shape.row_key)(rows.last()) == Some(key) {
        members_of(rows.drop_last(), shape, key).push((shape.member)(rows.last()))
    } else {
        members_of(rows.drop_last(), shape, key)
    }
}

/// A key that no group of [`grouped`] has is the key of no row.
pub proof fn lemma_no_member_without_group<G, R, K, V>(
    rows: Seq<R>,
    shape: Shape<G, R, K, V>,
    key: K,
)
    requires
        shape.consistent(),
        index_of(grouped(rows, shape), shape, key) == grouped(rows, shape).len(),
    ensures
        members_of(rows, shape, key).len() == 0,
    decreases rows.len(),
{
    if rows.len() > 0 {
        let earlier = rows.drop_last();
        let row = rows.last();
        let before = grouped(earlier, shape);
        let groups = grouped(rows, shape);
        lemma_index_of(groups, shape, key, 0);
        lemma_index_of(before, shape, key, before.len() as int);
        match (shape.row_key)(row) {
            None => {
                lemma_no_member_without_group(earlier, shape, key);
            },
            Some(row_key) => {
                let k = index_of(before, shape, row_key);
                lemma_index_of(before, shape, row_key, 0);
                assert forall|j: int| 0 <= j < before.len() implies (shape.group_key)(
                    #[trigger] before[j],
                ) != key by {
                    assert((shape.group_key)(groups[j]) == (shape.group_key)(before[j]));
                }
                if k < before.len() {
                    assert((shape.group_key)(before[k]) != key);
                } else {
                    assert((shape.group_key)(groups[before.len() as int]) == row_key);
                }
                assert(row_key != key);
                lemma_no_member_without_group(earlier, shape, key);
            },
        }
    }
}

/// What [`grouped`] returns: no two groups share a key; each holds
/// exactly the members of the rows of its key, in the order of the rows,
/// and at least one; and every key that a row carries has its group.
pub proof fn lemma_groups_partition<G, R, K, V>(rows: Seq<R>, shape: Shape<G, R, K, V>)
    requires
        shape.consistent(),
    ensures
        ({
            let groups = grouped(rows, shape);
            &&& forall|i: int, j: int|
                0 <= i < j < groups.len() ==> (shape.group_key)(#[trigger] groups[i]) != (
                shape.group_key)(#[trigger] groups[j])
            &&& forall|i: int|
                0 <= i < groups.len() ==> (shape.members)(#[trigger] groups[i]) == members_of(
                    rows,
                    shape,
                    (shape.group_key)(groups[i]),
                ) && (shape.members)(groups[i]).len() > 0
            &&& forall|r: int|
                0 <= r < rows.len() && (shape.row_key)(#[trigger] rows[r]) is Some ==> index_of(
                    groups,
                    shape,
                    (shape.row_key)(rows[r])->Some_0,
                ) < groups.len()
        }),
    decreases rows.len(),
{
    if rows.len() > 0 {
        let earlier = rows.drop_last();
        let row = rows.last();
        let before = grouped(earlier, shape);
        let groups = grouped(rows, shape);
        lemma_groups_partition(earlier, shape);
        match (shape.row_key)(row) {
            None => {
                assert forall|r: int|
                    0 <= r < rows.len() && (shape.row_key)(#[trigger] rows[r])
                        is Some implies index_of(groups, shape, (shape.row_key)(rows[r])->Some_0)
                    < groups.len() by {
                    assert(rows[r] == earlier[r]);
                }
            },
            Some(key) => {
                let k = index_of(before, shape, key);
                lemma_index_of(before, shape, key, 0);
                assert(groups.len() >= before.len());
                assert forall|i: int| 0 <= i < before.len() implies (shape.group_key)(
                    #[trigger] groups[i],
                ) == (shape.group_key)(before[i]) by {}
                assert forall|i: int, j: int| 0 <= i < j < groups.len() implies (shape.group_key)(
                    #[trigger] groups[i],
                ) != (shape.group_key)(#[trigger] groups[j]) by {
                    if j < before.len() {
                        assert((shape.group_key)(before[i]) != (shape.group_key)(before[j]));
                    } else {
                        assert((shape.group_key)(before[i]) != key);
                    }
                }
                assert forall|i: int| 0 <= i < groups.len() implies (shape.members)(
                    #[trigger] groups[i],
                ) == members_of(rows, shape, (shape.group_key)(groups[i])) && (shape.members)(
                    groups[i],
                ).len() > 0 by {
                    if i < before.len() {
                        assert((shape.members)(before[i]) == members_of(
                            earlier,
                            shape,
                            (shape.group_key)(before[i]),
                        ));
                        if i != k {
                            assert((shape.group_key)(before[i]) != key) by {
                                if k < before.len() {
                                    if i < k {
                                        assert((shape.group_key)(before[i]) != (shape.group_key)(
                                            before[k],
                                        ));
                                    } else {
                                        assert((shape.group_key)(before[k]) != (shape.group_key)(
                                            before[i],
                                        ));
                                    }
                                }
                            }
                        }
                    } else {
                        lemma_no_member_without_group(earlier, shape, key);
                        assert((shape.members)(groups[i]) =~= members_of(rows, shape, key));
                    }
                }
                assert forall|r: int|
                    0 <= r < rows.len() && (shape.row_key)(#[trigger] rows[r])
                        is Some implies index_of(groups, shape, (shape.row_key)(rows[r])->Some_0)
                    < groups.len() by {
                    let wanted = (shape.row_key)(rows[r])->Some_0;
                    if r < earlier.len() {
                        assert(rows[r] == earlier[r]);
                        let at = index_of(before, shape, wanted);
                        lemma_index_of(before, shape, wanted, 0);
                        assert forall|j: int| 0 <= j < at implies (shape.group_key)(
                            #[trigger] groups[j],
                        ) != wanted by {
                            assert((shape.group_key)(before[j]) != wanted);
                        }
                        lemma_index_of(groups, shape, wanted, at);
                    } else {
                        let at = if k < before.len() {
                            k
                        } else {
                            before.len() as int
                        };
                        assert forall|j: int| 0 <= j < at implies (shape.group_key)(
                            #[trigger] groups[j],
                        ) != wanted by {
                            assert((shape.group_key)(before[j]) != wanted);
                        }
                        lemma_index_of(groups, shape, wanted, at);
                    }
                }
            },
        }
    }
}

} // verus!
