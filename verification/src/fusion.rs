use vstd::prelude::*;

verus! {

/// The tensors an operation reads or writes, as recorded in a stream.
#[derive(Clone, Debug)]
pub struct TensorDescription {
    /// The tensor's identity in the stream.
    pub id: u64,
    /// The tensor's dimensions.
    pub shape: Vec<usize>,
    /// How the operation uses the tensor.
    pub status: TensorStatus,
}

/// How an operation uses a tensor.
#[derive(Clone, Copy, PartialEq, Eq, Structural, Debug)]
pub enum TensorStatus {
    /// Read without consuming.
    ReadOnly,
    /// Read and written in place.
    ReadWrite,
    /// Created by the operation.
    NotInit,
}

/// One operation of a stream, over relative tensor descriptions. The
/// scalar of a scalar operation is carried as its raw bit pattern, so that
/// descriptions stay comparable bit for bit.
#[derive(Clone, Debug)]
pub enum OperationDescription {
    /// Elementwise sum of two tensors.
    Add(BinaryOperationDescription),
    /// Sum of a tensor and one scalar.
    AddScalar(ScalarOperationDescription),
    /// Elementwise difference of two tensors.
    Sub(BinaryOperationDescription),
}

/// The operands of a two-tensor operation.
#[derive(Clone, Debug)]
pub struct BinaryOperationDescription {
    /// Left operand.
    pub lhs: TensorDescription,
    /// Right operand.
    pub rhs: TensorDescription,
    /// Output.
    pub out: TensorDescription,
}

/// The operands of a tensor-and-scalar operation.
#[derive(Clone, Debug)]
pub struct ScalarOperationDescription {
    /// Tensor operand.
    pub lhs: TensorDescription,
    /// The scalar's raw bit pattern.
    pub rhs: u32,
    /// Output.
    pub out: TensorDescription,
}

/// The mathematical value of a tensor description.
pub struct TdV {
    /// Identity.
    pub id: int,
    /// Dimensions.
    pub shape: Seq<usize>,
    /// Usage.
    pub status: TensorStatus,
}

/// The mathematical value of an operation description.
pub enum OpV {
    /// Elementwise sum.
    Add { lhs: TdV, rhs: TdV, out: TdV },
    /// Sum with a scalar.
    AddScalar { lhs: TdV, rhs: int, out: TdV },
    /// Elementwise difference.
    Sub { lhs: TdV, rhs: TdV, out: TdV },
}

/// The value of a tensor description.
pub open spec fn td_v(d: TensorDescription) -> TdV {
    TdV { id: d.id as int, shape: d.shape@, status: d.status }
}

/// The value of an operation description.
pub open spec fn desc_v(d: OperationDescription) -> OpV {
    match d {
        OperationDescription::Add(b) => OpV::Add {
            lhs: td_v(b.lhs),
            rhs: td_v(b.rhs),
            out: td_v(b.out),
        },
        OperationDescription::AddScalar(s) => OpV::AddScalar {
            lhs: td_v(s.lhs),
            rhs: s.rhs as int,
            out: td_v(s.out),
        },
        OperationDescription::Sub(b) => OpV::Sub {
            lhs: td_v(b.lhs),
            rhs: td_v(b.rhs),
            out: td_v(b.out),
        },
    }
}

/// The key under which a description is filed: a digest of the tensor
/// descriptions alone. The operation kind and any scalar are left out on
/// purpose — streams are compared over relative tensors — so distinct
/// descriptions may share a key, and buckets resolve such collisions by
/// comparing descriptions in full.
pub open spec fn desc_key_v(d: OpV) -> int {
    match d {
        OpV::Add { lhs, rhs, out } => mix3_v(lhs, rhs, out),
        OpV::AddScalar { lhs, out, .. } => mix2_v(lhs, out),
        OpV::Sub { lhs, rhs, out } => mix3_v(lhs, rhs, out),
    }
}

/// Digest of three tensor descriptions.
pub open spec fn mix3_v(a: TdV, b: TdV, c: TdV) -> int {
    mix_v(mix_v(mix_v(0, td_key_v(a)), td_key_v(b)), td_key_v(c))
}

/// Digest of two tensor descriptions.
pub open spec fn mix2_v(a: TdV, b: TdV) -> int {
    mix_v(mix_v(0, td_key_v(a)), td_key_v(b))
}

/// Digest of one tensor description: its identity, dimension count and
/// usage, folded together.
pub open spec fn td_key_v(d: TdV) -> int {
    mix_v(
        mix_v(mix_v(0, d.id), d.shape.len() as int),
        match d.status {
            TensorStatus::ReadOnly => 1,
            TensorStatus::ReadWrite => 2,
            TensorStatus::NotInit => 3,
        },
    )
}

/// One mixing round of the digest.
pub open spec fn mix_v(h: int, v: int) -> int {
    (((h as u64) << 7) ^ ((h as u64) >> 3) ^ (v as u64)) as int
}

/// One mixing round of the digest.
fn mix(h: u64, v: u64) -> (r: u64)
    ensures
        r == mix_v(h as int, v as int),
{
    (h << 7u64) ^ (h >> 3u64) ^ v
}

/// Digest of one tensor description.
fn td_key(d: &TensorDescription) -> (r: u64)
    ensures
        r == td_key_v(td_v(*d)),
{
    let tag: u64 = match d.status {
        TensorStatus::ReadOnly => 1,
        TensorStatus::ReadWrite => 2,
        TensorStatus::NotInit => 3,
    };
    mix(mix(mix(0, d.id), d.shape.len() as u64), tag)
}

impl OperationDescription {
    /// Whether two descriptions are the same in full.
    pub fn same_as(&self, o: &OperationDescription) -> (r: bool)
        ensures
            r == (desc_v(*self) == desc_v(*o)),
    {
        match (self, o) {
            (OperationDescription::Add(a), OperationDescription::Add(b)) => bin_same(a, b),
            (OperationDescription::Sub(a), OperationDescription::Sub(b)) => bin_same(a, b),
            (OperationDescription::AddScalar(a), OperationDescription::AddScalar(b)) => a.rhs
                == b.rhs && td_same(&a.lhs, &b.lhs) && td_same(&a.out, &b.out),
            _ => false,
        }
    }
}


impl TensorDescription {
    /// An identical copy.
    pub fn duplicate(&self) -> (r: TensorDescription)
        ensures
            td_v(r) == td_v(*self),
    {
        let mut shape: Vec<usize> = Vec::new();
        let mut i: usize = 0;
        while i < self.shape.len()
            invariant
                i <= self.shape@.len(),
                shape@ =~= self.shape@.take(i as int),
            decreases self.shape@.len() - i,
        {
            shape.push(self.shape[i]);
            i = i + 1;
        }
        proof {
            assert(self.shape@.take(self.shape@.len() as int) =~= self.shape@);
        }
        TensorDescription { id: self.id, shape, status: self.status }
    }
}

impl OperationDescription {
    /// An identical copy.
    pub fn duplicate(&self) -> (r: OperationDescription)
        ensures
            desc_v(r) == desc_v(*self),
    {
        match self {
            OperationDescription::Add(b) => OperationDescription::Add(
                BinaryOperationDescription {
                    lhs: b.lhs.duplicate(),
                    rhs: b.rhs.duplicate(),
                    out: b.out.duplicate(),
                },
            ),
            OperationDescription::Sub(b) => OperationDescription::Sub(
                BinaryOperationDescription {
                    lhs: b.lhs.duplicate(),
                    rhs: b.rhs.duplicate(),
                    out: b.out.duplicate(),
                },
            ),
            OperationDescription::AddScalar(sc) => OperationDescription::AddScalar(
                ScalarOperationDescription {
                    lhs: sc.lhs.duplicate(),
                    rhs: sc.rhs,
                    out: sc.out.duplicate(),
                },
            ),
        }
    }
}

/// Whether two binary operand lists are the same.
fn bin_same(a: &BinaryOperationDescription, b: &BinaryOperationDescription) -> (r: bool)
    ensures
        r == (td_v(a.lhs) == td_v(b.lhs) && td_v(a.rhs) == td_v(b.rhs) && td_v(a.out) == td_v(
            b.out,
        )),
{
    td_same(&a.lhs, &b.lhs) && td_same(&a.rhs, &b.rhs) && td_same(&a.out, &b.out)
}

/// Whether two tensor descriptions are the same.
fn td_same(a: &TensorDescription, b: &TensorDescription) -> (r: bool)
    ensures
        r == (td_v(*a) == td_v(*b)),
{
    if a.id != b.id || a.status != b.status || a.shape.len() != b.shape.len() {
        proof {
            if a.shape@.len() != b.shape@.len() {
                assert(td_v(*a).shape.len() != td_v(*b).shape.len());
            }
        }
        return false;
    }
    let mut i: usize = 0;
    while i < a.shape.len()
        invariant
            i <= a.shape@.len(),
            a.shape@.len() == b.shape@.len(),
            a.id == b.id,
            a.status == b.status,
            forall|j: int| 0 <= j < i ==> a.shape@[j] == b.shape@[j],
        decreases a.shape@.len() - i,
    {
        if a.shape[i] != b.shape[i] {
            return false;
        }
        i = i + 1;
    }
    proof {
        assert(a.shape@ =~= b.shape@);
    }
    true
}

/// The digest of a description.
pub fn operation_key(d: &OperationDescription) -> (r: u64)
    ensures
        r == desc_key_v(desc_v(*d)),
{
    match d {
        OperationDescription::Add(b) => mix(mix(mix(0, td_key(&b.lhs)), td_key(&b.rhs)), td_key(
            &b.out,
        )),
        OperationDescription::Sub(b) => mix(mix(mix(0, td_key(&b.lhs)), td_key(&b.rhs)), td_key(
            &b.out,
        )),
        OperationDescription::AddScalar(s) => mix(mix(0, td_key(&s.lhs)), td_key(&s.out)),
    }
}

/// A search into the index.
pub enum SearchQuery<'a> {
    /// The execution plans whose stream starts with this operation.
    PlansStartingWith(&'a OperationDescription),
}

/// A registration into the index.
pub enum InsertQuery<'a> {
    /// A new execution plan for the given stream of operations.
    NewPlan {
        /// The plan's operations, in stream order.
        operations: &'a [OperationDescription],
        /// The plan's identity.
        id: usize,
    },
}

/// An index from the first operation of a stream to the execution plans
/// that start with it. Descriptions are filed under a digest of their
/// tensors; distinct descriptions sharing a digest are kept apart in the
/// same bucket and told apart by full comparison.
pub struct ExecutionPlanIndex {
    mapping: Vec<(u64, Vec<(OperationDescription, usize)>)>,
    starters: Vec<Vec<usize>>,
    model: Ghost<Map<OpV, Seq<int>>>,
}

impl ExecutionPlanIndex {
    /// The plans filed under each starting operation, oldest first.
    pub closed spec fn assoc(&self) -> Map<OpV, Seq<int>> {
        self.model@
    }

    /// Positions `(i, j)` that address a filed description.
    pub closed spec fn entry_at(&self, i: int, j: int) -> bool {
        0 <= i < self.mapping@.len() && 0 <= j < self.mapping@[i].1@.len()
    }

    /// The index is well formed: buckets carry their members' digest,
    /// bucket digests are distinct, descriptions and plan-list positions
    /// are filed at most once, and the stored vectors carry exactly the
    /// plan map.
    pub closed spec fn inv(&self) -> bool {
        &&& forall|i: int, j: int|
            self.entry_at(i, j) ==> desc_key_v(desc_v((#[trigger] self.mapping@[i].1@[j]).0))
                == self.mapping@[i].0 && self.mapping@[i].1@[j].1 < self.starters@.len()
        &&& forall|i1: int, i2: int|
            0 <= i1 < i2 < self.mapping@.len() ==> (#[trigger] self.mapping@[i1]).0 != (
            #[trigger] self.mapping@[i2]).0
        &&& forall|i: int, j1: int, j2: int|
            self.entry_at(i, j1) && self.entry_at(i, j2) && j1 != j2 ==> desc_v(
                (#[trigger] self.mapping@[i].1@[j1]).0,
            ) != desc_v((#[trigger] self.mapping@[i].1@[j2]).0)
        &&& forall|i1: int, j1: int, i2: int, j2: int|
            self.entry_at(i1, j1) && self.entry_at(i2, j2) && (i1 != i2 || j1 != j2) ==> (
            #[trigger] self.mapping@[i1].1@[j1]).1 != (#[trigger] self.mapping@[i2].1@[j2]).1
        &&& forall|q: OpV|
            #[trigger] self.model@.dom().contains(q) ==> exists|i: int, j: int|
                self.entry_at(i, j) && desc_v(self.mapping@[i].1@[j].0) == q
        &&& forall|i: int, j: int|
            self.entry_at(i, j) ==> self.model@.dom().contains(
                desc_v((#[trigger] self.mapping@[i].1@[j]).0),
            ) && self.model@[desc_v(self.mapping@[i].1@[j].0)]
                =~= self.starters@[self.mapping@[i].1@[j].1 as int]@.map_values(
                |p: usize| p as int,
            )
    }

    /// An empty index.
    pub fn new() -> (r: ExecutionPlanIndex)
        ensures
            r.inv(),
            r.assoc() =~= Map::<OpV, Seq<int>>::empty(),
    {
        let r = ExecutionPlanIndex {
            mapping: Vec::new(),
            starters: Vec::new(),
            model: Ghost(Map::empty()),
        };
        proof {
            assert(forall|i: int, j: int| !r.entry_at(i, j));
        }
        r
    }

    /// Searches the index: answers the plans whose stream starts with the
    /// queried operation, oldest first, or nothing when none was filed.
    pub fn find(&self, query: SearchQuery<'_>) -> (r: Vec<usize>)
        requires
            self.inv(),
        ensures
            match query {
                SearchQuery::PlansStartingWith(ops) => r@.map_values(|p: usize| p as int) =~= if self
                    .assoc().dom().contains(desc_v(*ops)) {
                    self.assoc()[desc_v(*ops)]
                } else {
                    Seq::<int>::empty()
                },
            },
    {
        match query {
            SearchQuery::PlansStartingWith(ops) => self.find_starting_with(ops),
        }
    }

    /// Registers a new plan under the first operation of its stream; a plan
    /// with an empty stream is filed nowhere.
    pub fn insert(&mut self, query: InsertQuery<'_>)
        requires
            old(self).inv(),
        ensures
            final(self).inv(),
            match query {
                InsertQuery::NewPlan { operations, id } => if operations@.len() > 0 {
                    final(self).assoc() =~= old(self).assoc().insert(
                        desc_v(operations@[0]),
                        (if old(self).assoc().dom().contains(desc_v(operations@[0])) {
                            old(self).assoc()[desc_v(operations@[0])]
                        } else {
                            Seq::<int>::empty()
                        }).push(id as int),
                    )
                } else {
                    final(self).assoc() =~= old(self).assoc()
                },
            },
    {
        match query {
            InsertQuery::NewPlan { operations, id } => {
                if operations.len() > 0 {
                    self.insert_new_operation(&operations[0], id)
                }
            },
        }
    }

    /// The bucket filed under `key`, if any.
    fn find_bucket(&self, key: u64) -> (r: Option<usize>)
        ensures
            match r {
                Some(i) => i < self.mapping@.len() && self.mapping@[i as int].0 == key,
                None => forall|i: int|
                    0 <= i < self.mapping@.len() ==> (#[trigger] self.mapping@[i]).0 != key,
            },
    {
        let mut i: usize = 0;
        while i < self.mapping.len()
            invariant
                i <= self.mapping@.len(),
                forall|t: int| 0 <= t < i ==> (#[trigger] self.mapping@[t]).0 != key,
            decreases self.mapping@.len() - i,
        {
            if self.mapping[i].0 == key {
                return Some(i);
            }
            i = i + 1;
        }
        None
    }

    /// The position inside bucket `i` of the member equal to `ops`, if any.
    fn find_in_bucket(&self, i: usize, ops: &OperationDescription) -> (r: Option<usize>)
        requires
            i < self.mapping@.len(),
        ensures
            match r {
                Some(j) => j < self.mapping@[i as int].1@.len() && desc_v(
                    self.mapping@[i as int].1@[j as int].0,
                ) == desc_v(*ops),
                None => forall|j: int|
                    0 <= j < self.mapping@[i as int].1@.len() ==> desc_v(
                        (#[trigger] self.mapping@[i as int].1@[j]).0,
                    ) != desc_v(*ops),
            },
    {
        let bucket = &self.mapping[i].1;
        let mut j: usize = 0;
        while j < bucket.len()
            invariant
                j <= bucket@.len(),
                bucket@ == self.mapping@[i as int].1@,
                forall|t: int| 0 <= t < j ==> desc_v((#[trigger] bucket@[t]).0) != desc_v(*ops),
            decreases bucket@.len() - j,
        {
            if bucket[j].0.same_as(ops) {
                return Some(j);
            }
            j = j + 1;
        }
        None
    }

    /// A description filed nowhere in the buckets is absent from the plan
    /// map.
    proof fn lemma_absent(&self, q: OpV, key: int, bucket: Option<int>)
        requires
            self.inv(),
            key == desc_key_v(q),
            match bucket {
                Some(i) => 0 <= i < self.mapping@.len() && self.mapping@[i].0 == key && forall|
                    j: int,
                |
                    0 <= j < self.mapping@[i].1@.len() ==> desc_v(
                        (#[trigger] self.mapping@[i].1@[j]).0,
                    ) != q,
                None => forall|i: int|
                    0 <= i < self.mapping@.len() ==> (#[trigger] self.mapping@[i]).0 != key,
            },
        ensures
            !self.assoc().dom().contains(q),
    {
        if self.assoc().dom().contains(q) {
            let (i2, j2) = choose|i2: int, j2: int|
                self.entry_at(i2, j2) && desc_v(self.mapping@[i2].1@[j2].0) == q;
            assert(self.mapping@[i2].0 == desc_key_v(q));
            match bucket {
                Some(i) => {
                    if i2 != i {
                        if i2 < i {
                            assert(self.mapping@[i2].0 != self.mapping@[i].0);
                        } else {
                            assert(self.mapping@[i].0 != self.mapping@[i2].0);
                        }
                    }
                    assert(desc_v(self.mapping@[i2].1@[j2].0) != q);
                },
                None => {
                    assert(self.mapping@[i2].0 != key);
                },
            }
        }
    }

    /// Searches for the plans whose stream starts with `ops`.
    fn find_starting_with(&self, ops: &OperationDescription) -> (r: Vec<usize>)
        requires
            self.inv(),
        ensures
            r@.map_values(|p: usize| p as int) =~= if self.assoc().dom().contains(desc_v(*ops)) {
                self.assoc()[desc_v(*ops)]
            } else {
                Seq::<int>::empty()
            },
    {
        let key = operation_key(ops);
        let ghost q = desc_v(*ops);
        match self.find_bucket(key) {
            Some(i) => match self.find_in_bucket(i, ops) {
                Some(j) => {
                    let idx = self.mapping[i].1[j].1;
                    proof {
                        assert(self.entry_at(i as int, j as int));
                        assert(self.model@[q] =~= self.starters@[idx as int]@.map_values(
                            |p: usize| p as int,
                        ));
                    }
                    copy_ids(&self.starters[idx])
                },
                None => {
                    proof {
                        self.lemma_absent(q, key as int, Some(i as int));
                    }
                    Vec::new()
                },
            },
            None => {
                proof {
                    self.lemma_absent(q, key as int, None);
                }
                Vec::new()
            },
        }
    }

    /// Registers a new plan under the operation `ops`: a fresh plan list in
    /// a fresh bucket for an unseen digest, a fresh plan list beside the
    /// colliding members for an unseen description with a known digest, and
    /// an appended plan for a known description.
    fn insert_new_operation(&mut self, ops: &OperationDescription, new_id: usize)
        requires
            old(self).inv(),
        ensures
            final(self).inv(),
            final(self).assoc() =~= old(self).assoc().insert(
                desc_v(*ops),
                (if old(self).assoc().dom().contains(desc_v(*ops)) {
                    old(self).assoc()[desc_v(*ops)]
                } else {
                    Seq::<int>::empty()
                }).push(new_id as int),
            ),
    {
        let ghost q = desc_v(*ops);
        let ghost before = *self;
        let key = operation_key(ops);
        match self.find_bucket(key) {
            None => {
                proof {
                    before.lemma_absent(q, key as int, None);
                }
                let index = self.starters.len();
                let mut plans: Vec<usize> = Vec::new();
                plans.push(new_id);
                self.starters.push(plans);
                let mut bucket: Vec<(OperationDescription, usize)> = Vec::new();
                bucket.push((ops.duplicate(), index));
                self.mapping.push((key, bucket));
                proof {
                    self.model@ = before.model@.insert(q, seq![new_id as int]);
                    let gi = self.mapping@.len() - 1;
                    assert(seq![new_id as int] =~= Seq::<int>::empty().push(new_id as int));
                    assert forall|i: int, j: int| self.entry_at(i, j) implies (i == gi && j == 0)
                        || (before.entry_at(i, j) && self.mapping@[i].1@[j]
                        == before.mapping@[i].1@[j] && self.mapping@[i].0
                        == before.mapping@[i].0) by {}
                    assert(self.mapping@[gi].0 == key);
                    assert(desc_v(self.mapping@[gi].1@[0].0) == q);
                    assert(self.mapping@[gi].1@[0].1 == before.starters@.len());
                    assert(self.starters@[before.starters@.len() as int]@.map_values(
                        |p: usize| p as int,
                    ) =~= seq![new_id as int]);
                    assert forall|i: int, j: int| self.entry_at(i, j) && !(i == gi && j == 0)
                        implies desc_v(self.mapping@[i].1@[j].0) != q by {
                        assert(before.model@.dom().contains(desc_v(before.mapping@[i].1@[j].0)));
                    }
                    assert(self.inv()) by {
                        assert forall|q2: OpV| #[trigger] self.model@.dom().contains(q2) implies
                            exists|i: int, j: int|
                                self.entry_at(i, j) && desc_v(self.mapping@[i].1@[j].0)
                                    == q2 by {
                            if q2 == q {
                                assert(self.entry_at(gi, 0) && desc_v(self.mapping@[gi].1@[0].0)
                                    == q2);
                            } else {
                                let (i, j) = choose|i: int, j: int|
                                    before.entry_at(i, j) && desc_v(before.mapping@[i].1@[j].0)
                                        == q2;
                                assert(self.entry_at(i, j) && desc_v(self.mapping@[i].1@[j].0)
                                    == q2);
                            }
                        }
                    }
                }
            },
            Some(i) => {
                match self.find_in_bucket(i, ops) {
                    None => {
                        proof {
                            before.lemma_absent(q, key as int, Some(i as int));
                        }
                        let index = self.starters.len();
                        let mut plans: Vec<usize> = Vec::new();
                        plans.push(new_id);
                        self.starters.push(plans);
                        let mut entry = self.mapping.remove(i);
                        let ghost old_bucket = entry.1@;
                        entry.1.push((ops.duplicate(), index));
                        self.mapping.insert(i, entry);
                        proof {
                            self.model@ = before.model@.insert(q, seq![new_id as int]);
                            let gi = i as int;
                            let gj = old_bucket.len() as int;
                            assert(seq![new_id as int] =~= Seq::<int>::empty().push(
                                new_id as int,
                            ));
                            assert(self.mapping@ =~= before.mapping@.update(
                                gi,
                                self.mapping@[gi],
                            ));
                            assert(self.mapping@[gi].0 == before.mapping@[gi].0);
                            assert(self.mapping@[gi].1@ =~= old_bucket.push(
                                self.mapping@[gi].1@[gj],
                            ));
                            assert(desc_v(self.mapping@[gi].1@[gj].0) == q);
                            assert(self.mapping@[gi].1@[gj].1 == before.starters@.len());
                            assert forall|i2: int, j2: int| self.entry_at(i2, j2) implies (i2
                                == gi && j2 == gj) || (before.entry_at(i2, j2)
                                && self.mapping@[i2].1@[j2] == before.mapping@[i2].1@[j2]
                                && self.mapping@[i2].0 == before.mapping@[i2].0) by {}
                            assert(self.starters@[before.starters@.len() as int]@.map_values(
                                |p: usize| p as int,
                            ) =~= seq![new_id as int]);
                            assert forall|i2: int, j2: int| self.entry_at(i2, j2) && !(i2 == gi
                                && j2 == gj) implies desc_v(self.mapping@[i2].1@[j2].0) != q by {
                                assert(before.model@.dom().contains(
                                    desc_v(before.mapping@[i2].1@[j2].0),
                                ));
                            }
                            assert(self.inv()) by {
                                assert forall|q2: OpV| #[trigger] self.model@.dom().contains(q2)
                                    implies exists|i2: int, j2: int|
                                        self.entry_at(i2, j2) && desc_v(
                                            self.mapping@[i2].1@[j2].0,
                                        ) == q2 by {
                                    if q2 == q {
                                        assert(self.entry_at(gi, gj) && desc_v(
                                            self.mapping@[gi].1@[gj].0,
                                        ) == q2);
                                    } else {
                                        let (i2, j2) = choose|i2: int, j2: int|
                                            before.entry_at(i2, j2) && desc_v(
                                                before.mapping@[i2].1@[j2].0,
                                            ) == q2;
                                        assert(self.entry_at(i2, j2) && desc_v(
                                            self.mapping@[i2].1@[j2].0,
                                        ) == q2);
                                    }
                                }
                            }
                        }
                    },
                    Some(j) => {
                        let idx = self.mapping[i].1[j].1;
                        let ghost old_list = self.starters@[idx as int]@;
                        let mut plans = self.starters.remove(idx);
                        plans.push(new_id);
                        self.starters.insert(idx, plans);
                        proof {
                            let gi = i as int;
                            let gj = j as int;
                            assert(before.entry_at(gi, gj));
                            assert(before.model@.dom().contains(q));
                            self.model@ = before.model@.insert(
                                q,
                                before.model@[q].push(new_id as int),
                            );
                            assert(self.starters@ =~= before.starters@.update(
                                idx as int,
                                self.starters@[idx as int],
                            ));
                            assert(self.starters@[idx as int]@ =~= old_list.push(new_id));
                            assert(before.model@[q] =~= old_list.map_values(|p: usize| p as int));
                            assert(self.starters@[idx as int]@.map_values(|p: usize| p as int)
                                =~= before.model@[q].push(new_id as int));
                            assert forall|i2: int, j2: int| self.entry_at(i2, j2) && desc_v(
                                self.mapping@[i2].1@[j2].0,
                            ) == q implies i2 == gi && j2 == gj by {
                                assert(self.mapping@[i2].0 == desc_key_v(q));
                                assert(self.mapping@[gi].0 == desc_key_v(q));
                                if i2 != gi {
                                    if i2 < gi {
                                        assert(self.mapping@[i2].0 != self.mapping@[gi].0);
                                    } else {
                                        assert(self.mapping@[gi].0 != self.mapping@[i2].0);
                                    }
                                }
                            }
                            assert(self.inv()) by {
                                assert forall|q2: OpV| #[trigger] self.model@.dom().contains(q2)
                                    implies exists|i2: int, j2: int|
                                        self.entry_at(i2, j2) && desc_v(
                                            self.mapping@[i2].1@[j2].0,
                                        ) == q2 by {
                                    if q2 == q {
                                        assert(self.entry_at(gi, gj) && desc_v(
                                            self.mapping@[gi].1@[gj].0,
                                        ) == q2);
                                    } else {
                                        let (i2, j2) = choose|i2: int, j2: int|
                                            before.entry_at(i2, j2) && desc_v(
                                                before.mapping@[i2].1@[j2].0,
                                            ) == q2;
                                        assert(self.entry_at(i2, j2) && desc_v(
                                            self.mapping@[i2].1@[j2].0,
                                        ) == q2);
                                    }
                                }
                            }
                        }
                    },
                }
            },
        }
    }
}

/// A fresh copy of a plan list.
fn copy_ids(v: &Vec<usize>) -> (r: Vec<usize>)
    ensures
        r@ == v@,
{
    let mut r: Vec<usize> = Vec::new();
    let mut i: usize = 0;
    while i < v.len()
        invariant
            i <= v@.len(),
            r@ =~= v@.take(i as int),
        decreases v@.len() - i,
    {
        r.push(v[i]);
        i = i + 1;
    }
    proof {
        assert(v@.take(v@.len() as int) =~= v@);
    }
    r
}

} // verus!
