use vstd::prelude::*;

verus! {

/// A benchmark over one autotunable kernel: how it is named and how many
/// samples one run takes.
pub struct TuneBenchmark {
    name: String,
    num_samples: usize,
}

impl TuneBenchmark {
    /// A benchmark with the standard sample count.
    pub fn new(name: String) -> (r: TuneBenchmark)
        ensures
            r.name_of() == name@,
            r.samples_of() == 10,
    {
        TuneBenchmark { name, num_samples: 10 }
    }

    /// The benchmark's name.
    pub closed spec fn name_of(&self) -> Seq<char> {
        self.name@
    }

    /// How many samples one run takes.
    pub closed spec fn samples_of(&self) -> int {
        self.num_samples as int
    }

    /// How many samples one run takes.
    pub fn num_samples(&self) -> (r: usize)
        ensures
            r == self.samples_of(),
    {
        self.num_samples
    }
}

/// Chooses the fastest of several measured kernels and remembers the
/// choice per key, so a kernel family is benchmarked once per device.
pub struct Tuner {
    device_id: String,
    cache: Vec<(u64, usize)>,
}

/// The position of the first cache entry with the given key, if any.
pub open spec fn cache_lookup(cache: Seq<(u64, usize)>, key: u64) -> Option<usize> {
    if exists|i: int| 0 <= i < cache.len() && cache[i].0 == key {
        let i = choose|i: int| 0 <= i < cache.len() && cache[i].0 == key;
        Some(cache[i].1)
    } else {
        None
    }
}

impl Tuner {
    /// The remembered choices.
    pub closed spec fn entries(&self) -> Seq<(u64, usize)> {
        self.cache@
    }

    /// Each key is remembered at most once.
    pub closed spec fn inv(&self) -> bool {
        forall|i: int, j: int|
            0 <= i < j < self.cache@.len() ==> (#[trigger] self.cache@[i]).0 != (
            #[trigger] self.cache@[j]).0
    }

    /// The device this tuner's choices belong to.
    pub closed spec fn device_of(&self) -> Seq<char> {
        self.device_id@
    }

    /// A tuner for one device, with an empty cache.
    pub fn new(device_id: &str) -> (r: Tuner)
        ensures
            r.inv(),
            r.device_of() == device_id@,
            r.entries() =~= Seq::<(u64, usize)>::empty(),
    {
        Tuner { device_id: String::from_str(device_id), cache: Vec::new() }
    }

    /// The remembered fastest kernel for `key`, if any.
    pub fn autotune_fastest(&self, key: u64) -> (r: Option<usize>)
        requires
            self.inv(),
        ensures
            r == cache_lookup(self.entries(), key),
    {
        let mut i: usize = 0;
        while i < self.cache.len()
            invariant
                i <= self.cache@.len(),
                self.inv(),
                forall|t: int| 0 <= t < i ==> (#[trigger] self.cache@[t]).0 != key,
            decreases self.cache@.len() - i,
        {
            if self.cache[i].0 == key {
                proof {
                    let w = choose|w: int|
                        0 <= w < self.cache@.len() && self.cache@[w].0 == key;
                    assert(w == i as int);
                }
                return Some(self.cache[i].1);
            }
            i = i + 1;
        }
        proof {
            if exists|w: int| 0 <= w < self.cache@.len() && self.cache@[w].0 == key {
                let w = choose|w: int| 0 <= w < self.cache@.len() && self.cache@[w].0 == key;
                assert(self.cache@[w].0 != key);
            }
        }
        None
    }

    /// Remembers the fastest kernel for a key not yet cached.
    pub fn cache_insert(&mut self, key: u64, fastest_index: usize)
        requires
            old(self).inv(),
            cache_lookup(old(self).entries(), key) is None,
        ensures
            final(self).inv(),
            final(self).entries() =~= old(self).entries().push((key, fastest_index)),
            cache_lookup(final(self).entries(), key) == Some(fastest_index),
    {
        proof {
            if exists|w: int|
                0 <= w < self.cache@.len() && (#[trigger] self.cache@[w]).0 == key {
                let w = choose|w: int| 0 <= w < self.cache@.len() && self.cache@[w].0 == key;
                assert(cache_lookup(self.cache@, key) is Some);
            }
        }
        self.cache.push((key, fastest_index));
        proof {
            let n = self.cache@.len() - 1;
            assert(self.cache@[n].0 == key);
            let w = choose|w: int| 0 <= w < self.cache@.len() && self.cache@[w].0 == key;
            assert(self.cache@[w].0 == key);
            if w != n {
                assert(self.cache@[w] == old(self).cache@[w]);
            }
        }
    }
}

/// The position of the smallest measured duration: the fastest kernel of a
/// benchmarked set. Durations are in nanoseconds; the earliest of several
/// equally fast kernels wins.
pub fn find_fastest(durations: &Vec<u64>) -> (r: usize)
    requires
        durations@.len() > 0,
    ensures
        r < durations@.len(),
        forall|i: int| 0 <= i < durations@.len() ==> durations@[r as int] <= #[trigger] durations@[i],
        forall|i: int| 0 <= i < r ==> durations@[r as int] < #[trigger] durations@[i],
{
    let mut best: usize = 0;
    let mut i: usize = 1;
    while i < durations.len()
        invariant
            1 <= i <= durations@.len(),
            best < i,
            forall|t: int| 0 <= t < i ==> durations@[best as int] <= #[trigger] durations@[t],
            forall|t: int| 0 <= t < best ==> durations@[best as int] < #[trigger] durations@[t],
        decreases durations@.len() - i,
    {
        if durations[i] < durations[best] {
            best = i;
        }
        i = i + 1;
    }
    best
}


/// How far an anchor still is from its target, never negative.
pub open spec fn remaining_gap(x: int, p: int) -> int {
    if x - p < 0 {
        0
    } else {
        x - p
    }
}

/// The power of two at or above `x`, capped at `max` when a positive cap
/// is given; zero anchors to one. Anchoring autotune keys this way lets
/// one benchmark stand for every nearby problem size.
pub fn anchor(x: usize, max: Option<usize>) -> (r: usize)
    ensures
        r >= 1,
        (match max {
            Some(m) => m >= 1 ==> r <= m,
            None => true,
        }),
{
    let mut p: usize = 1;
    while p < x && p <= usize::MAX / 2
        invariant
            1 <= p,
        decreases remaining_gap(x as int, p as int),
    {
        p = p * 2;
    }
    match max {
        Some(m) => {
            if m >= 1 && p > m {
                m
            } else {
                p
            }
        },
        None => p,
    }
}

/// An autotune key standing for a family of fused elementwise kernels:
/// the operation count and the dimensions, each anchored to a power of
/// two so that one benchmark stands for every nearby size.
#[derive(Clone, Debug)]
pub struct FusionElemWiseAutotuneKey {
    /// The anchored number of fused operations.
    pub anchored_num_operations: usize,
    /// The anchored dimensions.
    pub anchored_shape: Vec<usize>,
}

impl FusionElemWiseAutotuneKey {
    /// Create a fused elementwise autotune key: dimensions anchor with a
    /// cap, the operation count anchors without one.
    pub fn new(num_operations: usize, shape: &Vec<usize>) -> (r: FusionElemWiseAutotuneKey)
        ensures
            r.anchored_shape@.len() == shape@.len(),
    {
        let mut anchored: Vec<usize> = Vec::new();
        let mut i: usize = 0;
        while i < shape.len()
            invariant
                i <= shape@.len(),
                anchored@.len() == i,
            decreases shape@.len() - i,
        {
            anchored.push(anchor(shape[i], Some(4096)));
            i = i + 1;
        }
        FusionElemWiseAutotuneKey {
            anchored_num_operations: anchor(num_operations, None),
            anchored_shape: anchored,
        }
    }
}

/// A set of interchangeable fused elementwise kernels to choose among: the
/// key that names the family and the candidates' names.
#[derive(Clone, Debug)]
pub struct ElementWiseAutotuneOperationSet {
    /// The family's autotune key.
    pub key: FusionElemWiseAutotuneKey,
    /// The candidate kernels' names.
    pub candidates: Vec<String>,
}

} // verus!

