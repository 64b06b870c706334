//! Performance support: settings, GPU detection and description, a lazy
//! loader that loads at most a given number of items, a pool of fixed-size
//! memory blocks under a memory limit, and the choice of SIMD level.

use vstd::prelude::*;

use crate::plugin_error::append;
use crate::text::{decimal, push_decimal_u64, string_equals_str, string_from_chars};

verus! {

/// Performance settings.
#[derive(Debug, Clone, Copy, PartialEq, Eq, Structural)]
pub struct PerformanceConfig {
    pub gpu_acceleration: bool,
    pub hardware_decoding: bool,
    /// Memory cache size in MB
    pub cache_size_mb: u32,
    pub lazy_loading: bool,
    pub thread_pool_size: usize,
    pub simd: bool,
    pub target_fps: u32,
}

impl Default for PerformanceConfig {
    fn default() -> (c: PerformanceConfig)
        ensures
            c == (PerformanceConfig {
                gpu_acceleration: true,
                hardware_decoding: true,
                cache_size_mb: 512,
                lazy_loading: true,
                thread_pool_size: 4,
                simd: true,
                target_fps: 60,
            }),
    {
        PerformanceConfig {
            gpu_acceleration: true,
            hardware_decoding: true,
            cache_size_mb: 512,
            lazy_loading: true,
            thread_pool_size: 4,
            simd: true,
            target_fps: 60,
        }
    }
}

/// How well playback keeps up.
#[derive(Debug, Clone, Copy, PartialEq, Eq, Structural)]
pub enum PerformanceRating {
    Poor,
    BelowAverage,
    Average,
    Good,
    Excellent,
}

/// The rating of a whole number of frames per second.
pub open spec fn rating_for(fps: u32) -> PerformanceRating {
    if fps <= 24 {
        PerformanceRating::Poor
    } else if fps <= 29 {
        PerformanceRating::BelowAverage
    } else if fps <= 44 {
        PerformanceRating::Average
    } else if fps <= 59 {
        PerformanceRating::Good
    } else {
        PerformanceRating::Excellent
    }
}

impl PerformanceRating {
    /// The rating of a whole number of frames per second.
    pub fn for_fps(fps: u32) -> (r: PerformanceRating)
        ensures
            r == rating_for(fps),
    {
        if fps <= 24 {
            PerformanceRating::Poor
        } else if fps <= 29 {
            PerformanceRating::BelowAverage
        } else if fps <= 44 {
            PerformanceRating::Average
        } else if fps <= 59 {
            PerformanceRating::Good
        } else {
            PerformanceRating::Excellent
        }
    }
}

/// A GPU that can accelerate playback.
#[derive(Debug, Clone, PartialEq, Eq)]
pub enum GpuDevice {
    Nvidia { name: String, vram: u64 },
    Amd { name: String, vram: u64 },
    Intel { name: String, vram: u64 },
    Apple { name: String, vram: u64 },
    Software,
}

/// A queue of GPU compute work.
#[derive(Debug)]
pub struct ComputeQueue {
    id: u32,
    priority: u8,
}

/// Whole gibibytes in a byte count.
pub open spec fn gib(bytes: u64) -> nat {
    (bytes / 1024 / 1024 / 1024) as nat
}

/// How a device is described.
pub open spec fn device_text(d: GpuDevice) -> Seq<char> {
    match d {
        GpuDevice::Nvidia { name, vram } => "NVIDIA "@ + name@ + " ("@ + decimal(gib(vram)) + "GB VRAM)"@,
        GpuDevice::Amd { name, vram } => "AMD "@ + name@ + " ("@ + decimal(gib(vram)) + "GB VRAM)"@,
        GpuDevice::Intel { name, vram } => "Intel "@ + name@ + " ("@ + decimal(gib(vram)) + "GB)"@,
        GpuDevice::Apple { name, vram } => "Apple "@ + name@ + " ("@ + decimal(gib(vram)) + "GB)"@,
        GpuDevice::Software => "Software Renderer"@,
    }
}

/// Text of the form `<vendor> <name> (<n><suffix>`.
fn describe(vendor: &str, name: &String, vram: u64, suffix: &str) -> (s: String)
    ensures
        s@ == vendor@ + name@ + " ("@ + decimal(gib(vram)) + suffix@,
{
    let mut out: Vec<char> = Vec::new();
    append(&mut out, vendor);
    append(&mut out, name.as_str());
    append(&mut out, " (");
    push_decimal_u64(&mut out, vram / 1024 / 1024 / 1024);
    append(&mut out, suffix);
    string_from_chars(out.as_slice())
}

/// The GPU acceleration context.
pub struct GpuContext {
    device: Option<GpuDevice>,
    compute_queue: Option<ComputeQueue>,
}

impl GpuContext {
    /// The device found, if any.
    pub closed spec fn device(&self) -> Option<GpuDevice> {
        self.device
    }

    /// A context with no device found yet.
    pub fn new() -> (g: GpuContext)
        ensures
            g.device() is None,
    {
        GpuContext { device: None, compute_queue: None }
    }

    /// Looks for a GPU. No hardware backend is wired in, so the software
    /// renderer is what is found.
    pub fn detect_gpu(&mut self) -> (d: Option<GpuDevice>)
        ensures
            final(self).device() == Some(GpuDevice::Software),
            d == Some(GpuDevice::Software),
    {
        self.device = Some(GpuDevice::Software);
        Some(GpuDevice::Software)
    }

    /// Whether a device was found.
    pub fn is_available(&self) -> (r: bool)
        ensures
            r == self.device() is Some,
    {
        self.device.is_some()
    }

    /// A description of the device found, if any.
    pub fn info(&self) -> (r: Option<String>)
        ensures
            match self.device() {
                Some(d) => r matches Some(s) && s@ == device_text(d),
                None => r is None,
            },
    {
        match &self.device {
            Some(GpuDevice::Nvidia { name, vram }) => Some(describe("NVIDIA ", name, *vram, "GB VRAM)")),
            Some(GpuDevice::Amd { name, vram }) => Some(describe("AMD ", name, *vram, "GB VRAM)")),
            Some(GpuDevice::Intel { name, vram }) => Some(describe("Intel ", name, *vram, "GB)")),
            Some(GpuDevice::Apple { name, vram }) => Some(describe("Apple ", name, *vram, "GB)")),
            Some(GpuDevice::Software) => Some(crate::text::owned("Software Renderer")),
            None => None,
        }
    }
}

/// The texts of a list of strings.
pub open spec fn texts_of(v: Seq<String>) -> Seq<Seq<char>> {
    v.map_values(|s: String| s@)
}

/// Whether a list holds a string with the given text.
fn holds(v: &Vec<String>, item: &str) -> (r: bool)
    ensures
        r == texts_of(v@).contains(item@),
{
    let mut i: usize = 0;
    while i < v.len()
        invariant
            i <= v@.len(),
            forall|j: int| 0 <= j < i ==> (#[trigger] v@[j])@ != item@,
        decreases v@.len() - i,
    {
        if string_equals_str(&v[i], item) {
            assert(texts_of(v@)[i as int] == item@);
            return true;
        }
        i = i + 1;
    }
    assert(!texts_of(v@).contains(item@)) by {
        if texts_of(v@).contains(item@) {
            let k = choose|k: int| 0 <= k < texts_of(v@).len() && texts_of(v@)[k] == item@;
            assert(v@[k]@ == item@);
        }
    }
    false
}

/// How many pending items the next `process` call loads.
pub open spec fn load_count(loaded: nat, pending: nat, max: nat) -> nat {
    if loaded >= max {
        0
    } else if pending < max - loaded {
        pending
    } else {
        (max - loaded) as nat
    }
}

/// The last `k` items of `s`, newest first.
pub open spec fn last_reversed(s: Seq<Seq<char>>, k: nat) -> Seq<Seq<char>> {
    Seq::new(k, |i: int| s[s.len() - 1 - i])
}

/// No item is loaded twice or waits twice, and none is both loaded and
/// waiting.
pub open spec fn items_consistent(loaded: Seq<Seq<char>>, pending: Seq<Seq<char>>) -> bool {
    &&& loaded.no_duplicates()
    &&& pending.no_duplicates()
    &&& forall|i: int, j: int| 0 <= i < loaded.len() && 0 <= j < pending.len() ==> loaded[i] != pending[j]
}

/// Queueing an item that is neither loaded nor waiting keeps the items
/// consistent.
pub proof fn law_queue_keeps_items_consistent(loaded: Seq<Seq<char>>, pending: Seq<Seq<char>>, x: Seq<char>)
    requires
        items_consistent(loaded, pending),
        !loaded.contains(x),
        !pending.contains(x),
    ensures
        items_consistent(loaded, pending.push(x)),
{
    let p = pending.push(x);
    assert forall|i: int, j: int| 0 <= i < j < p.len() implies p[i] != p[j] by {
        if j == pending.len() {
            assert(pending[i] == p[i]);
        }
    }
    assert forall|i: int, j: int| 0 <= i < loaded.len() && 0 <= j < p.len() implies loaded[i] != p[j] by {
        if j == pending.len() {
            assert(loaded.contains(loaded[i]));
        }
    }
}

/// Moving the last `k` waiting items, newest first, to the loaded ones
/// keeps the items consistent.
pub proof fn law_process_keeps_items_consistent(loaded: Seq<Seq<char>>, pending: Seq<Seq<char>>, k: nat)
    requires
        items_consistent(loaded, pending),
        k <= pending.len(),
    ensures
        items_consistent(loaded + last_reversed(pending, k), pending.take(pending.len() - k)),
{
    let n = pending.len();
    let r = last_reversed(pending, k);
    let l2 = loaded + r;
    let p2 = pending.take(n - k);
    assert forall|i: int, j: int| 0 <= i < j < l2.len() implies l2[i] != l2[j] by {
        if j >= loaded.len() {
            assert(l2[j] == pending[n - 1 - (j - loaded.len())]);
            if i >= loaded.len() {
                assert(l2[i] == pending[n - 1 - (i - loaded.len())]);
            } else {
                assert(l2[i] == loaded[i]);
            }
        } else {
            assert(l2[i] == loaded[i] && l2[j] == loaded[j]);
        }
    }
    assert forall|i: int, j: int| 0 <= i < j < p2.len() implies p2[i] != p2[j] by {
        assert(p2[i] == pending[i] && p2[j] == pending[j]);
    }
    assert forall|i: int, j: int| 0 <= i < l2.len() && 0 <= j < p2.len() implies l2[i] != p2[j] by {
        assert(p2[j] == pending[j]);
        if i >= loaded.len() {
            assert(l2[i] == pending[n - 1 - (i - loaded.len())]);
        } else {
            assert(l2[i] == loaded[i]);
        }
    }
}

/// Items other than `x`.
pub open spec fn other_than(x: Seq<char>) -> spec_fn(Seq<char>) -> bool {
    |s: Seq<char>| s != x
}

/// Every item a filter keeps was in the sequence filtered.
proof fn lemma_filter_kept(s: Seq<Seq<char>>, pred: spec_fn(Seq<char>) -> bool)
    ensures
        forall|i: int| 0 <= i < s.filter(pred).len() ==> s.contains(#[trigger] s.filter(pred)[i]),
    decreases s.len(),
{
    if s.len() == 0 {
        assert(s.filter(pred) =~= Seq::<Seq<char>>::empty()) by {
            reveal(Seq::filter);
        }
    } else {
        let d = s.drop_last();
        lemma_filter_kept(d, pred);
        assert(s =~= d.push(s.last()));
        d.lemma_filter_push(s.last(), pred);
        assert forall|i: int| 0 <= i < s.filter(pred).len() implies s.contains(#[trigger] s.filter(pred)[i]) by {
            if i < d.filter(pred).len() {
                assert(s.filter(pred)[i] == d.filter(pred)[i]);
                let m = choose|m: int| 0 <= m < d.len() && d[m] == d.filter(pred)[i];
                assert(s[m] == d[m]);
            } else {
                assert(s[s.len() - 1] == s.last());
            }
        }
    }
}

/// Unloading an item keeps the items consistent.
pub proof fn law_unload_keeps_items_consistent(loaded: Seq<Seq<char>>, pending: Seq<Seq<char>>, x: Seq<char>)
    requires
        items_consistent(loaded, pending),
    ensures
        items_consistent(loaded.filter(other_than(x)), pending),
    decreases loaded.len(),
{
    let pred = other_than(x);
    let f = loaded.filter(pred);
    if loaded.len() > 0 {
        let d = loaded.drop_last();
        assert(items_consistent(d, pending)) by {
            assert forall|i: int, j: int| 0 <= i < j < d.len() implies d[i] != d[j] by {
                assert(d[i] == loaded[i] && d[j] == loaded[j]);
            }
            assert forall|i: int, j: int| 0 <= i < d.len() && 0 <= j < pending.len() implies d[i] != pending[j] by {
                assert(d[i] == loaded[i]);
            }
        }
        law_unload_keeps_items_consistent(d, pending, x);
        assert(loaded =~= d.push(loaded.last()));
        d.lemma_filter_push(loaded.last(), pred);
        lemma_filter_kept(d, pred);
        let fd = d.filter(pred);
        if pred(loaded.last()) {
            assert(f =~= fd.push(loaded.last()));
            assert forall|i: int| 0 <= i < fd.len() implies fd[i] != loaded.last() by {
                assert(d.contains(fd[i]));
                let m = choose|m: int| 0 <= m < d.len() && d[m] == fd[i];
                assert(loaded[m] == d[m]);
                assert(loaded[loaded.len() - 1] == loaded.last());
            }
            assert forall|i: int, j: int| 0 <= i < j < f.len() implies f[i] != f[j] by {
                if j == fd.len() {
                    assert(f[i] == fd[i]);
                } else {
                    assert(f[i] == fd[i] && f[j] == fd[j]);
                }
            }
            assert forall|i: int, j: int| 0 <= i < f.len() && 0 <= j < pending.len() implies f[i] != pending[j] by {
                if i == fd.len() {
                    assert(loaded[loaded.len() - 1] == f[i]);
                } else {
                    assert(f[i] == fd[i]);
                }
            }
        } else {
            assert(f =~= fd);
        }
    } else {
        assert(f =~= Seq::<Seq<char>>::empty()) by {
            reveal(Seq::filter);
        }
    }
}

/// Loads items on demand, at most a given number at a time.
pub struct LazyLoadManager {
    loaded_items: Vec<String>,
    pending_items: Vec<String>,
    max_concurrent: usize,
}

impl LazyLoadManager {
    /// Items loaded, in the order they were loaded.
    pub closed spec fn loaded(&self) -> Seq<Seq<char>> {
        texts_of(self.loaded_items@)
    }

    /// Items waiting, in the order they were queued.
    pub closed spec fn pending(&self) -> Seq<Seq<char>> {
        texts_of(self.pending_items@)
    }

    /// The most items loaded at once.
    pub closed spec fn limit(&self) -> nat {
        self.max_concurrent as nat
    }

    /// A manager with nothing loaded or waiting.
    pub fn new(max_concurrent: usize) -> (m: LazyLoadManager)
        ensures
            items_consistent(m.loaded(), m.pending()),
            m.loaded().len() == 0,
            m.pending().len() == 0,
            m.limit() == max_concurrent,
    {
        let m = LazyLoadManager { loaded_items: Vec::new(), pending_items: Vec::new(), max_concurrent };
        assert(m.loaded() =~= Seq::<Seq<char>>::empty());
        assert(m.pending() =~= Seq::<Seq<char>>::empty());
        m
    }

    /// Queues an item unless it is already loaded or waiting.
    pub fn queue(&mut self, item_id: String)
        ensures
            items_consistent(old(self).loaded(), old(self).pending()) ==> items_consistent(
                final(self).loaded(),
                final(self).pending(),
            ),
            final(self).loaded() == old(self).loaded(),
            final(self).limit() == old(self).limit(),
            final(self).pending() == if old(self).loaded().contains(item_id@) || old(self).pending().contains(item_id@) {
                old(self).pending()
            } else {
                old(self).pending().push(item_id@)
            },
    {
        let present = holds(&self.loaded_items, item_id.as_str()) || holds(&self.pending_items, item_id.as_str());
        if !present {
            let ghost before = self.pending_items@;
            self.pending_items.push(item_id);
            assert(texts_of(self.pending_items@) =~= texts_of(before).push(item_id@));
        }
    }

    /// Loads waiting items, the most recently queued first, until the limit
    /// is reached or nothing waits; returns them in the order loaded.
    pub fn process(&mut self) -> (r: Vec<String>)
        ensures
            items_consistent(old(self).loaded(), old(self).pending()) ==> items_consistent(
                final(self).loaded(),
                final(self).pending(),
            ),
            ({
                let k = load_count(old(self).loaded().len(), old(self).pending().len(), old(self).limit());
                &&& texts_of(r@) == last_reversed(old(self).pending(), k)
                &&& final(self).pending() == old(self).pending().take(old(self).pending().len() - k)
                &&& final(self).loaded() == old(self).loaded() + texts_of(r@)
            }),
            final(self).limit() == old(self).limit(),
    {
        let ghost p0 = texts_of(self.pending_items@);
        let ghost l0 = texts_of(self.loaded_items@);
        let ghost k = load_count(l0.len(), p0.len(), self.max_concurrent as nat);
        let mut loaded: Vec<String> = Vec::new();
        while self.loaded_items.len() < self.max_concurrent
            invariant_except_break
                loaded@.len() <= p0.len(),
                texts_of(self.pending_items@) == p0.take(p0.len() - loaded@.len()),
                texts_of(loaded@) == last_reversed(p0, loaded@.len() as nat),
                texts_of(self.loaded_items@) == l0 + texts_of(loaded@),
                self.loaded_items@.len() == l0.len() + loaded@.len(),
                self.pending_items@.len() == p0.len() - loaded@.len(),
                l0.len() >= self.max_concurrent ==> loaded@.len() == 0,
                self.max_concurrent as nat >= l0.len() ==> loaded@.len() <= self.max_concurrent - l0.len(),
                self.max_concurrent == old(self).max_concurrent,
                p0 == old(self).pending(),
                l0 == old(self).loaded(),
                k == load_count(l0.len(), p0.len(), self.max_concurrent as nat),
            ensures
                loaded@.len() == k,
                texts_of(self.pending_items@) == p0.take(p0.len() - k),
                texts_of(loaded@) == last_reversed(p0, k),
                texts_of(self.loaded_items@) == l0 + texts_of(loaded@),
                self.max_concurrent == old(self).max_concurrent,
            decreases self.pending_items@.len(),
        {
            if self.pending_items.len() == 0 {
                break;
            }
            let ghost pending_before = self.pending_items@;
            let ghost loaded_before = loaded@;
            let ghost items_before = self.loaded_items@;
            let item = self.pending_items.pop().unwrap();
            let ghost n = loaded@.len();
            proof {
                assert(item == pending_before[pending_before.len() - 1]);
                assert(texts_of(pending_before)[pending_before.len() - 1] == item@);
                assert(item@ == p0[p0.len() - 1 - n]);
            }
            let copy = item.clone();
            self.loaded_items.push(copy);
            loaded.push(item);
            proof {
                assert(texts_of(loaded@) =~= texts_of(loaded_before).push(item@));
                assert(texts_of(self.loaded_items@) =~= texts_of(items_before).push(item@));
                assert(texts_of(self.pending_items@) =~= p0.take(p0.len() - loaded@.len()));
                assert(texts_of(loaded@) =~= last_reversed(p0, loaded@.len() as nat));
                assert(texts_of(self.loaded_items@) =~= l0 + texts_of(loaded@));
            }
        }
        loaded
    }

    /// Unloads every copy of an item.
    pub fn unload(&mut self, item_id: &str)
        ensures
            items_consistent(old(self).loaded(), old(self).pending()) ==> items_consistent(
                final(self).loaded(),
                final(self).pending(),
            ),
            final(self).loaded() == old(self).loaded().filter(other_than(item_id@)),
            final(self).pending() == old(self).pending(),
            final(self).limit() == old(self).limit(),
    {
        let ghost pred = other_than(item_id@);
        let mut kept: Vec<String> = Vec::new();
        let mut i: usize = 0;
        while i < self.loaded_items.len()
            invariant
                i <= self.loaded_items@.len(),
                self.loaded_items@ == old(self).loaded_items@,
                self.pending_items@ == old(self).pending_items@,
                self.max_concurrent == old(self).max_concurrent,
                pred == other_than(item_id@),
                texts_of(kept@) == texts_of(self.loaded_items@).take(i as int).filter(pred),
            decreases self.loaded_items@.len() - i,
        {
            proof {
                let t = texts_of(self.loaded_items@);
                assert(t.take(i + 1).drop_last() =~= t.take(i as int));
                reveal(Seq::filter);
            }
            if !string_equals_str(&self.loaded_items[i], item_id) {
                let ghost before = kept@;
                kept.push(self.loaded_items[i].clone());
                assert(texts_of(kept@) =~= texts_of(before).push(self.loaded_items@[i as int]@));
            }
            i = i + 1;
        }
        proof {
            let t = texts_of(self.loaded_items@);
            assert(t.take(t.len() as int) =~= t);
        }
        self.loaded_items = kept;
        proof {
            if items_consistent(old(self).loaded(), old(self).pending()) {
                law_unload_keeps_items_consistent(old(self).loaded(), old(self).pending(), item_id@);
                assert(self.loaded() == old(self).loaded().filter(pred));
            }
        }
    }

    /// Whether an item is loaded.
    pub fn is_loaded(&self, item_id: &str) -> (r: bool)
        ensures
            r == self.loaded().contains(item_id@),
    {
        holds(&self.loaded_items, item_id)
    }
}

/// A block of `n` zero bytes.
fn zeroed(n: usize) -> (v: Vec<u8>)
    ensures
        v@ == Seq::new(n as nat, |i: int| 0u8),
{
    let mut v: Vec<u8> = Vec::new();
    let mut i: usize = 0;
    while i < n
        invariant
            i <= n,
            v@ == Seq::new(i as nat, |j: int| 0u8),
        decreases n - i,
    {
        v.push(0u8);
        i = i + 1;
        assert(v@ =~= Seq::new(i as nat, |j: int| 0u8));
    }
    v
}

/// A pool of equal-sized memory blocks that never holds more than a limit.
pub struct MemoryPool {
    blocks: Vec<Vec<u8>>,
    block_size: usize,
    total_allocated: usize,
    max_memory: usize,
}

impl MemoryPool {
    /// The contents of the blocks, by index.
    pub closed spec fn block_contents(&self) -> Seq<Seq<u8>> {
        self.blocks@.map_values(|b: Vec<u8>| b@)
    }

    /// Size of every block.
    pub closed spec fn size(&self) -> nat {
        self.block_size as nat
    }

    /// The memory limit.
    pub closed spec fn limit(&self) -> nat {
        self.max_memory as nat
    }

    /// Bytes held by the blocks.
    pub closed spec fn usage(&self) -> nat {
        self.total_allocated as nat
    }

    /// Internal consistency: every block has the block size, the usage is
    /// their total, it stays within the limit, and the blocks can be
    /// counted by a `usize`.
    pub closed spec fn wf(&self) -> bool {
        &&& forall|i: int| 0 <= i < self.blocks@.len() ==> (#[trigger] self.blocks@[i])@.len() == self.block_size
        &&& self.total_allocated == self.blocks@.len() * self.block_size
        &&& self.total_allocated <= self.max_memory
        &&& self.blocks@.len() <= usize::MAX
    }

    /// An empty pool.
    pub fn new(block_size: usize, max_memory: usize) -> (p: MemoryPool)
        ensures
            p.wf(),
            p.block_contents().len() == 0,
            p.size() == block_size,
            p.limit() == max_memory,
            p.usage() == 0,
    {
        let p = MemoryPool { blocks: Vec::new(), block_size, total_allocated: 0, max_memory };
        assert(p.block_contents() =~= Seq::<Seq<u8>>::empty());
        p
    }

    /// Adds a zeroed block and returns its index, or `None` when it would
    /// take the pool over its limit.
    pub fn allocate(&mut self) -> (r: Option<usize>)
        requires
            old(self).wf(),
        ensures
            final(self).wf(),
            final(self).size() == old(self).size(),
            final(self).limit() == old(self).limit(),
            old(self).usage() + old(self).size() > old(self).limit() ==> {
                &&& r is None
                &&& final(self).block_contents() == old(self).block_contents()
                &&& final(self).usage() == old(self).usage()
            },
            old(self).usage() + old(self).size() <= old(self).limit() ==> {
                &&& r == Some(old(self).block_contents().len() as usize)
                &&& final(self).block_contents() == old(self).block_contents().push(Seq::new(old(self).size(), |i: int| 0u8))
                &&& final(self).usage() == old(self).usage() + old(self).size()
            },
    {
        if self.block_size > self.max_memory - self.total_allocated {
            return None;
        }
        let block = zeroed(self.block_size);
        let ghost before = self.blocks@;
        self.blocks.push(block);
        proof {
            vstd::arithmetic::mul::lemma_mul_is_distributive_add_other_way(
                self.block_size as int,
                before.len() as int,
                1,
            );
            assert(self.block_contents() =~= old(self).block_contents().push(Seq::new(self.block_size as nat, |i: int| 0u8)));
        }
        self.total_allocated = self.total_allocated + self.block_size;
        Some(self.blocks.len() - 1)
    }

    /// The contents of a block, or `None` for an index out of range.
    pub fn get(&self, index: usize) -> (r: Option<&[u8]>)
        ensures
            index < self.block_contents().len() ==> (r matches Some(b) && b@ == self.block_contents()[index as int]),
            index >= self.block_contents().len() ==> r is None,
    {
        if index < self.blocks.len() {
            Some(self.blocks[index].as_slice())
        } else {
            None
        }
    }

    /// The block at `index` to write into, or `None` for an index out of
    /// range. What is written through it becomes the block's contents.
    pub fn get_mut(&mut self, index: usize) -> (r: Option<&mut [u8]>)
        requires
            old(self).wf(),
        ensures
            index >= old(self).block_contents().len() ==> r is None && *final(self) == *old(self),
            index < old(self).block_contents().len() ==> r is Some,
            r matches Some(b) ==> b@ == old(self).block_contents()[index as int],
            r matches Some(b) ==> final(self).block_contents() == old(self).block_contents().update(
                index as int,
                final(b)@,
            ),
            r matches Some(b) ==> final(self).size() == old(self).size() && final(self).limit() == old(self).limit()
                && final(self).usage() == old(self).usage(),
            r matches Some(b) ==> (final(self).wf() <==> final(b)@.len() == b@.len()),
    {
        if index < self.blocks.len() {
            Some(self.blocks[index].as_mut_slice())
        } else {
            None
        }
    }

    /// Frees a block; the blocks after it move down by one. An index out of
    /// range changes nothing.
    pub fn free(&mut self, index: usize)
        requires
            old(self).wf(),
        ensures
            final(self).wf(),
            final(self).size() == old(self).size(),
            final(self).limit() == old(self).limit(),
            index < old(self).block_contents().len() ==> {
                &&& final(self).block_contents() == old(self).block_contents().remove(index as int)
                &&& final(self).usage() == old(self).usage() - old(self).size()
            },
            index >= old(self).block_contents().len() ==> {
                &&& final(self).block_contents() == old(self).block_contents()
                &&& final(self).usage() == old(self).usage()
            },
    {
        if index < self.blocks.len() {
            let len = self.blocks[index].len();
            proof {
                vstd::arithmetic::mul::lemma_mul_is_distributive_sub_other_way(
                    self.block_size as int,
                    self.blocks@.len() as int,
                    1,
                );
            }
            self.total_allocated = self.total_allocated - len;
            let ghost before = self.blocks@;
            self.blocks.remove(index);
            proof {
                assert(self.block_contents() =~= old(self).block_contents().remove(index as int));
                assert forall|i: int| 0 <= i < self.blocks@.len() implies (#[trigger] self.blocks@[i])@.len() == self.block_size by {
                    if i < index {
                        assert(self.blocks@[i] == before[i]);
                    } else {
                        assert(self.blocks@[i] == before[i + 1]);
                    }
                }
            }
        }
    }

    /// Bytes held by the blocks.
    pub fn memory_usage(&self) -> (r: usize)
        ensures
            r == self.usage(),
    {
        self.total_allocated
    }
}

/// Levels of SIMD support.
#[derive(Debug, Clone, Copy, PartialEq, Eq, Structural)]
pub enum SimdLevel {
    /// No SIMD support.
    NoSimd,
    SSE42,
    AVX2,
    NEON,
}

/// The best SIMD level given which instruction sets the processor has:
/// AVX2 before SSE4.2 before NEON.
pub open spec fn best_simd_for(avx2: bool, sse42: bool, neon: bool) -> SimdLevel {
    if avx2 {
        SimdLevel::AVX2
    } else if sse42 {
        SimdLevel::SSE42
    } else if neon {
        SimdLevel::NEON
    } else {
        SimdLevel::NoSimd
    }
}

/// The best SIMD level given which instruction sets the processor has.
pub fn best_simd_from(avx2: bool, sse42: bool, neon: bool) -> (l: SimdLevel)
    ensures
        l == best_simd_for(avx2, sse42, neon),
{
    if avx2 {
        SimdLevel::AVX2
    } else if sse42 {
        SimdLevel::SSE42
    } else if neon {
        SimdLevel::NEON
    } else {
        SimdLevel::NoSimd
    }
}

/// The pool never holds more than its limit, its usage is always a whole
/// number of blocks, every block has the block size, and the blocks can be
/// counted by a `usize`.
pub proof fn law_pool_within_limit(p: MemoryPool)
    requires
        p.wf(),
    ensures
        p.usage() <= p.limit(),
        p.usage() == p.block_contents().len() * p.size(),
        forall|i: int| 0 <= i < p.block_contents().len() ==> (#[trigger] p.block_contents()[i]).len() == p.size(),
        p.block_contents().len() <= usize::MAX,
{
    assert forall|i: int| 0 <= i < p.block_contents().len() implies (#[trigger] p.block_contents()[i]).len() == p.size() by {
        assert(p.block_contents()[i] == p.blocks@[i]@);
    }
}

} // verus!
