use vstd::prelude::*;
use vstd::arithmetic::power2::*;

verus! {

/// `ceil(n / 4)`.
pub open spec fn quarter_ceil(n: u32) -> u32 {
    if n % 4 == 0 { n / 4 } else { (n / 4 + 1) as u32 }
}

/// `n`, but at least 1.
pub open spec fn at_least_one(n: u32) -> u32 {
    if n == 0 { 1 } else { n }
}

/// Size of the quarter-resolution offscreen sky texture for a surface:
/// each side rounded up, never zero.
pub fn offscreen_extent(width: u32, height: u32) -> (extent: (u32, u32))
    ensures
        extent == (quarter_ceil(at_least_one(width)), quarter_ceil(at_least_one(height))),
        extent.0 >= 1 && extent.1 >= 1,
        4 * extent.0 >= at_least_one(width) && 4 * (extent.0 - 1) < at_least_one(width),
        4 * extent.1 >= at_least_one(height) && 4 * (extent.1 - 1) < at_least_one(height),
{
    let w = if width == 0 { 1 } else { width };
    let h = if height == 0 { 1 } else { height };
    let ow = if w % 4 == 0 { w / 4 } else { w / 4 + 1 };
    let oh = if h % 4 == 0 { h / 4 } else { h / 4 + 1 };
    (ow, oh)
}

/// Number of binary digits of `n` (0 for 0).
pub open spec fn bit_length(n: nat) -> nat
    decreases n,
{
    if n == 0 { 0 } else { 1 + bit_length(n / 2) }
}

/// The bit length `k` of a positive `n` is the `k` with `2^(k-1) <= n < 2^k`.
pub proof fn lemma_bit_length_bounds(n: nat)
    requires
        n > 0,
    ensures
        bit_length(n) >= 1,
        pow2((bit_length(n) - 1) as nat) <= n < pow2(bit_length(n)),
    decreases n,
{
    lemma_pow2_unfold(bit_length(n));
    if n / 2 == 0 {
        assert(n == 1);
        assert(bit_length(0) == 0);
        assert(bit_length(1) == 1);
        lemma2_to64();
    } else {
        let b = bit_length(n);
        lemma_bit_length_bounds(n / 2);
        assert(b == 1 + bit_length(n / 2));
        assert(b >= 2);
        lemma_pow2_unfold((b - 1) as nat);
        assert(pow2((b - 1) as nat) == 2 * pow2((b - 2) as nat));
        assert(pow2(b) == 2 * pow2((b - 1) as nat));
        assert(pow2((b - 2) as nat) <= n / 2 < pow2((b - 1) as nat));
        assert(2 * (n / 2) <= n < 2 * (n / 2) + 2);
        assert(2 * pow2((b - 2) as nat) <= 2 * (n / 2));
        assert(2 * (n / 2) + 2 <= 2 * pow2((b - 1) as nat));
    }
}

/// Mip levels the glass pass can sample: the full chain of an offscreen
/// texture of this size, but no more than seven (the blur focus never goes
/// past level six).
pub open spec fn spec_mip_count(width: u32, height: u32) -> u32 {
    let m = if width >= height { width } else { height };
    let b = bit_length(at_least_one(m) as nat);
    if b < 7 { b as u32 } else { 7 }
}

/// Mip level count of the offscreen texture.
pub fn heartfelt_mip_count(width: u32, height: u32) -> (count: u32)
    ensures
        count == spec_mip_count(width, height),
        1 <= count <= 7,
{
    let m = if width >= height { width } else { height };
    let m = if m == 0 { 1 } else { m };
    let mut rest = m;
    let mut bits: u32 = 0;
    assert(u32::MAX >> 0u32 == u32::MAX) by (bit_vector);
    while rest > 0
        invariant
            bits + bit_length(rest as nat) == bit_length(m as nat),
            bits <= 32,
            rest <= u32::MAX >> (bits as u32),
        decreases rest,
    {
        assert(rest / 2 <= u32::MAX >> ((bits + 1) as u32)) by (bit_vector)
            requires
                rest <= u32::MAX >> (bits as u32),
                rest > 0,
                bits <= 32,
        ;
        assert(bits < 32) by (bit_vector)
            requires
                rest <= u32::MAX >> (bits as u32),
                rest > 0,
                bits <= 32,
        ;
        rest = rest / 2;
        bits = bits + 1;
    }
    proof {
        assert(bit_length(m as nat) >= 1);
    }
    if bits < 7 { bits } else { 7 }
}

/// Mip passes drawn for a target with `available` downsampling passes when
/// the glass pass samples up to level `max_level`.
pub fn mip_pass_count(available: usize, max_level: u32) -> (passes: usize)
    ensures
        passes as int == (if (available as int) < (max_level as int) { available as int } else { max_level as int }),
{
    let mut passes: usize = 0;
    while passes < available && (passes as u64) < (max_level as u64)
        invariant
            passes <= available,
            passes as int <= max_level as int,
        decreases available - passes,
    {
        passes = passes + 1;
    }
    passes
}

/// A render target cached by the surface size it was made for.
pub struct SizedTarget<T> {
    pub width: u32,
    pub height: u32,
    pub payload: T,
}

/// Whether a size occurs in a list of sizes.
pub open spec fn has_size(sizes: Seq<(u32, u32)>, width: u32, height: u32) -> bool {
    exists|k: int| 0 <= k < sizes.len() && sizes[k] == (width, height)
}

/// The targets whose size is still in use, in the order they were cached.
pub open spec fn kept_targets<T>(targets: Seq<SizedTarget<T>>, sizes: Seq<(u32, u32)>) -> Seq<SizedTarget<T>>
    decreases targets.len(),
{
    if targets.len() == 0 {
        Seq::empty()
    } else {
        let before = kept_targets(targets.drop_last(), sizes);
        let t = targets.last();
        if has_size(sizes, t.width, t.height) {
            before.push(t)
        } else {
            before
        }
    }
}

/// No two targets were made for the same size.
pub open spec fn unique_sizes<T>(targets: Seq<SizedTarget<T>>) -> bool {
    forall|i: int, j: int| 0 <= i < j < targets.len() ==> !(targets[i].width == targets[j].width
        && targets[i].height == targets[j].height)
}

/// Retaining sizes keeps the cache free of duplicate sizes.
pub proof fn lemma_retain_keeps_sizes_unique<T>(targets: Seq<SizedTarget<T>>, sizes: Seq<(u32, u32)>)
    requires
        unique_sizes(targets),
    ensures
        unique_sizes(kept_targets(targets, sizes)),
        forall|i: int| 0 <= i < kept_targets(targets, sizes).len() ==> targets.contains(#[trigger] kept_targets(targets, sizes)[i]),
    decreases targets.len(),
{
    if targets.len() > 0 {
        let front = targets.drop_last();
        assert(unique_sizes(front)) by {
            assert forall|i: int, j: int| 0 <= i < j < front.len() implies !(front[i].width == front[j].width
                && front[i].height == front[j].height) by {
                assert(front[i] == targets[i] && front[j] == targets[j]);
            }
        }
        lemma_retain_keeps_sizes_unique(front, sizes);
        let before = kept_targets(front, sizes);
        let t = targets.last();
        let k = kept_targets(targets, sizes);
        assert forall|i: int| 0 <= i < before.len() implies targets.contains(#[trigger] before[i]) by {
            let m = choose|m: int| 0 <= m < front.len() && front[m] == before[i];
            assert(targets[m] == before[i]);
        }
        assert forall|i: int| 0 <= i < before.len() implies !(before[i].width == t.width && before[i].height == t.height) by {
            let m = choose|m: int| 0 <= m < front.len() && front[m] == before[i];
            assert(targets[m] == before[i]);
        }
        if has_size(sizes, t.width, t.height) {
            assert forall|i: int| 0 <= i < k.len() implies targets.contains(#[trigger] k[i]) by {
                if i < before.len() {
                    assert(k[i] == before[i]);
                } else {
                    assert(k[i] == targets[targets.len() - 1]);
                }
            }
            assert forall|i: int, j: int| 0 <= i < j < k.len() implies !(k[i].width == k[j].width
                && k[i].height == k[j].height) by {
                if j < before.len() {
                    assert(k[i] == before[i] && k[j] == before[j]);
                } else {
                    assert(k[i] == before[i] && k[j] == t);
                }
            }
        }
    }
}

/// Whether a target made for `width` × `height` is cached.
pub open spec fn holds_size<T>(targets: Seq<SizedTarget<T>>, width: u32, height: u32) -> bool {
    exists|j: int| 0 <= j < targets.len() && targets[j].width == width && targets[j].height == height
}

/// What finding or adding the target of a `width` × `height` surface does to
/// the cache: a cached size leaves every target in place and points at the
/// first target of that size; a new size keeps every target and appends one,
/// made for at least 1 × 1, at the end.
pub open spec fn found_or_appended<T>(before: Seq<SizedTarget<T>>, after: Seq<SizedTarget<T>>, width: u32, height: u32, index: int) -> bool {
    &&& 0 <= index < after.len()
    &&& holds_size(before, width, height) ==> {
        &&& after == before
        &&& after[index].width == width && after[index].height == height
        &&& forall|j: int| 0 <= j < index ==> !(before[j].width == width && before[j].height == height)
    }
    &&& !holds_size(before, width, height) ==> {
        &&& index == before.len()
        &&& after.len() == before.len() + 1
        &&& after.take(index) == before
        &&& after[index].width == at_least_one(width)
        &&& after[index].height == at_least_one(height)
    }
}

/// The quarter-resolution extent of the offscreen target of a surface, and
/// the mip level count of that extent.
pub fn target_shape(width: u32, height: u32) -> (s: (u32, u32, u32))
    ensures
        s == (
            quarter_ceil(at_least_one(width)),
            quarter_ceil(at_least_one(height)),
            spec_mip_count(quarter_ceil(at_least_one(width)), quarter_ceil(at_least_one(height))),
        ),
{
    let (w, h) = offscreen_extent(width, height);
    (w, h, heartfelt_mip_count(w, h))
}

/// Offscreen targets of the renderer, one per surface size in use.
pub struct TargetCache<T> {
    targets: Vec<SizedTarget<T>>,
}

impl<T> View for TargetCache<T> {
    type V = Seq<SizedTarget<T>>;

    closed spec fn view(&self) -> Seq<SizedTarget<T>> {
        self.targets@
    }
}

impl<T> TargetCache<T> {
    /// An empty cache.
    pub fn new() -> (cache: Self)
        ensures
            cache@ == Seq::<SizedTarget<T>>::empty(),
    {
        TargetCache { targets: Vec::new() }
    }

    /// Number of cached targets.
    pub fn len(&self) -> (n: usize)
        ensures
            n == self@.len(),
    {
        self.targets.len()
    }

    /// The target at `index`.
    pub fn get(&self, index: usize) -> (t: &SizedTarget<T>)
        requires
            index < self@.len(),
        ensures
            *t == self@[index as int],
    {
        &self.targets[index]
    }

    /// Drops every target.
    pub fn clear(&mut self)
        ensures
            final(self)@ == Seq::<SizedTarget<T>>::empty(),
    {
        self.targets.clear();
    }

    /// Drops the targets whose size is not among `sizes`, keeping the order
    /// of the rest.
    pub fn retain_sizes(&mut self, sizes: &[(u32, u32)])
        ensures
            final(self)@ == kept_targets(old(self)@, sizes@),
    {
        let ghost before = self.targets@;
        let mut old_targets: Vec<SizedTarget<T>> = Vec::new();
        std::mem::swap(&mut old_targets, &mut self.targets);
        let mut kept: Vec<SizedTarget<T>> = Vec::new();
        let mut rest: Vec<SizedTarget<T>> = Vec::new();
        // Consume front to back by reversing first.
        let n = old_targets.len();
        while old_targets.len() > 0
            invariant
                old_targets@.len() + rest@.len() == n,
                n == before.len(),
                forall|k: int| 0 <= k < rest@.len() ==> #[trigger] rest@[k] == before[n - 1 - k],
                old_targets@ == before.take(old_targets@.len() as int),
            decreases old_targets@.len(),
        {
            let t = old_targets.pop().unwrap();
            rest.push(t);
        }
        let mut i: usize = 0;
        while rest.len() > 0
            invariant
                i + rest@.len() == n,
                n == before.len(),
                forall|k: int| 0 <= k < rest@.len() ==> #[trigger] rest@[k] == before[n - 1 - k],
                kept@ == kept_targets(before.take(i as int), sizes@),
            decreases rest@.len(),
        {
            let t = rest.pop().unwrap();
            proof {
                assert(t == before[i as int]);
                assert(before.take(i + 1).drop_last() =~= before.take(i as int));
                assert(before.take(i + 1).last() == before[i as int]);
            }
            let mut found = false;
            let mut k: usize = 0;
            while k < sizes.len()
                invariant
                    k <= sizes@.len(),
                    found == exists|j: int| 0 <= j < k && sizes@[j] == (t.width, t.height),
                decreases sizes@.len() - k,
            {
                let (w, h) = sizes[k];
                if w == t.width && h == t.height {
                    found = true;
                }
                proof {
                    if w == t.width && h == t.height {
                        assert(sizes@[k as int] == (t.width, t.height));
                    }
                }
                k = k + 1;
            }
            if found {
                kept.push(t);
            }
            i = i + 1;
        }
        assert(before.take(n as int) =~= before);
        self.targets = kept;
    }

    /// Index of the first target made for `width` × `height`.
    pub fn position(&self, width: u32, height: u32) -> (index: Option<usize>)
        ensures
            index matches Some(i) ==> i < self@.len() && self@[i as int].width == width
                && self@[i as int].height == height,
            index matches Some(i) ==> forall|j: int| 0 <= j < i ==> !(self@[j].width == width && self@[j].height == height),
            index is None ==> forall|j: int| 0 <= j < self@.len() ==> !(self@[j].width == width && self@[j].height == height),
    {
        let mut i: usize = 0;
        while i < self.targets.len()
            invariant
                i <= self@.len(),
                forall|j: int| 0 <= j < i ==> !(self@[j].width == width && self@[j].height == height),
            decreases self@.len() - i,
        {
            if self.targets[i].width == width && self.targets[i].height == height {
                return Some(i);
            }
            i = i + 1;
        }
        None
    }

    /// The index of the target for a surface of `width` × `height`: the first
    /// cached one of that size, or a new one made by `make` (with each side
    /// at least 1) and appended.
    pub fn ensure<F: FnOnce(u32, u32) -> T>(&mut self, width: u32, height: u32, make: F) -> (index: usize)
        requires
            old(self)@.len() < usize::MAX,
            call_requires(make, (at_least_one(width), at_least_one(height))),
        ensures
            found_or_appended(old(self)@, final(self)@, width, height, index as int),
            !holds_size(old(self)@, width, height) ==> call_ensures(
                make,
                (at_least_one(width), at_least_one(height)),
                final(self)@[index as int].payload,
            ),
            width >= 1 && height >= 1 && unique_sizes(old(self)@) ==> unique_sizes(final(self)@),
    {
        match self.position(width, height) {
            Some(i) => i,
            None => {
                let w = if width == 0 { 1 } else { width };
                let h = if height == 0 { 1 } else { height };
                let payload = make(w, h);
                let ghost before = self.targets@;
                self.targets.push(SizedTarget { width: w, height: h, payload });
                proof {
                    assert(self.targets@.take(before.len() as int) =~= before);
                }
                self.targets.len() - 1
            },
        }
    }

    /// Prepares the cache for drawing one surface: with the glass overlay the
    /// surface needs its offscreen target (found or made); without it every
    /// offscreen target is dropped and the sky is drawn straight to the
    /// surface.
    pub fn prepare_frame<F: FnOnce(u32, u32) -> T>(&mut self, overlay: bool, width: u32, height: u32, make: F) -> (index: Option<usize>)
        requires
            old(self)@.len() < usize::MAX,
            call_requires(make, (at_least_one(width), at_least_one(height))),
        ensures
            !overlay ==> index is None && final(self)@ == Seq::<SizedTarget<T>>::empty(),
            overlay ==> index is Some && found_or_appended(old(self)@, final(self)@, width, height, index.unwrap() as int),
            overlay && !holds_size(old(self)@, width, height) ==> call_ensures(
                make,
                (at_least_one(width), at_least_one(height)),
                final(self)@[index.unwrap() as int].payload,
            ),
            overlay && width >= 1 && height >= 1 ==> final(self)@[index.unwrap() as int].width == width
                && final(self)@[index.unwrap() as int].height == height,
            overlay && width >= 1 && height >= 1 && unique_sizes(old(self)@) ==> {
                &&& unique_sizes(final(self)@)
                &&& forall|j: int| 0 <= j < final(self)@.len() && final(self)@[j].width == width
                    && final(self)@[j].height == height ==> j == index.unwrap()
            },
    {
        if overlay {
            Some(self.ensure(width, height, make))
        } else {
            self.clear();
            None
        }
    }

    /// Caches a target made for a surface of `width` × `height` (each side at
    /// least 1, as the target itself is) and returns its index; no target of
    /// that size may be cached yet.
    pub fn insert(&mut self, width: u32, height: u32, payload: T) -> (index: usize)
        requires
            old(self)@.len() < usize::MAX,
            !holds_size(old(self)@, at_least_one(width), at_least_one(height)),
        ensures
            unique_sizes(old(self)@) ==> unique_sizes(final(self)@),
            final(self)@ == old(self)@.push(SizedTarget { width: at_least_one(width), height: at_least_one(height), payload }),
            index == old(self)@.len(),
    {
        let w = if width == 0 { 1 } else { width };
        let h = if height == 0 { 1 } else { height };
        self.targets.push(SizedTarget { width: w, height: h, payload });
        self.targets.len() - 1
    }
}

/// After retaining, every cached target was made for one of the sizes in
/// use.
pub proof fn lemma_retained_sizes_in_use<T>(targets: Seq<SizedTarget<T>>, sizes: Seq<(u32, u32)>)
    ensures
        forall|i: int| 0 <= i < kept_targets(targets, sizes).len() ==> has_size(
            sizes,
            #[trigger] kept_targets(targets, sizes)[i].width,
            kept_targets(targets, sizes)[i].height,
        ),
        kept_targets(targets, sizes).len() <= targets.len(),
    decreases targets.len(),
{
    if targets.len() > 0 {
        lemma_retained_sizes_in_use(targets.drop_last(), sizes);
    }
}

/// Retaining never drops a target whose size is still in use.
pub proof fn lemma_retain_keeps_sizes_in_use<T>(targets: Seq<SizedTarget<T>>, sizes: Seq<(u32, u32)>, i: int)
    requires
        0 <= i < targets.len(),
        has_size(sizes, targets[i].width, targets[i].height),
    ensures
        kept_targets(targets, sizes).contains(targets[i]),
    decreases targets.len(),
{
    let k = kept_targets(targets, sizes);
    if i == targets.len() - 1 {
        assert(k.last() == targets[i]);
    } else {
        lemma_retain_keeps_sizes_in_use(targets.drop_last(), sizes, i);
        let before = kept_targets(targets.drop_last(), sizes);
        let j = choose|j: int| 0 <= j < before.len() && before[j] == targets[i];
        assert(k[j] == targets[i]);
    }
}

/// Retaining the same sizes a second time changes nothing.
pub proof fn lemma_retain_idempotent<T>(targets: Seq<SizedTarget<T>>, sizes: Seq<(u32, u32)>)
    ensures
        kept_targets(kept_targets(targets, sizes), sizes) == kept_targets(targets, sizes),
    decreases targets.len(),
{
    if targets.len() > 0 {
        lemma_retain_idempotent(targets.drop_last(), sizes);
        let before = kept_targets(targets.drop_last(), sizes);
        let t = targets.last();
        if has_size(sizes, t.width, t.height) {
            let k = before.push(t);
            assert(k.drop_last() =~= before);
        }
    }
}
} // verus!
