//! The core-count probe and the parallel generation-and-collection
//! engine.

use vstd::prelude::*;
use vstd::arithmetic::div_mod::lemma_fundamental_div_mod;
use vstd::arithmetic::div_mod::lemma_mod_bound;

verus! {

/// Bits 16 ..= 23 of CPUID leaf 1's EBX register: the maximum number of
/// addressable logical cores the processor reports.
pub open spec fn logical_cores_of(ebx: u32) -> u32 {
    (ebx & 0xFF0000) >> 16
}

/// Relies on `raw_cpuid::native_cpuid::cpuid_count`: it executes the
/// x86 `CPUID` instruction for the given leaf (subleaf 0) and hands
/// back the EBX register. The value depends on the machine, so nothing
/// is promised of it.
#[verifier::external_body]
fn cpuid_ebx(leaf: u32) -> (r: u32) {
    raw_cpuid::native_cpuid::cpuid_count(leaf, 0).ebx
}

/// Isolates the logical-core field of a feature-information EBX value:
/// bits 16 ..= 23, so the result never exceeds 255.
pub fn extract_logical_cores(ebx: u32) -> (r: usize)
    ensures
        r == logical_cores_of(ebx),
        r <= 255,
{
    let n: u32 = (ebx & 0xFF0000) >> 16;
    proof {
        assert((ebx & 0xFF0000) >> 16 <= 255) by (bit_vector);
    }
    n as usize
}

/// Uses the x86-64 instruction `CPUID` to obtain the amount of logical
/// cores in the current machine. The count is whatever the hardware
/// reports; only its 8-bit width is known in advance.
pub fn get_logical_cores() -> (r: usize)
    ensures
        r <= 255,
{
    let ebx: u32 = cpuid_ebx(1);
    extract_logical_cores(ebx)
}

/// How many batches one invocation of the engine hands back: one per
/// worker, or a single batch when the calling context generates
/// everything itself.
pub open spec fn batch_count(threads: nat) -> nat {
    if threads == 0 {
        1
    } else {
        threads
    }
}

/// How many values each batch holds: the job size `total_size /
/// threads` (integer division; the remainder is dropped, never
/// generated), or the whole request when no worker is spawned.
pub open spec fn per_worker_count(threads: nat, total_size: nat) -> nat {
    if threads == 0 {
        total_size
    } else {
        total_size / threads
    }
}

/// The total number of values one invocation of the engine delivers.
pub open spec fn generated_count(threads: nat, total_size: nat) -> nat {
    batch_count(threads) * per_worker_count(threads, total_size)
}

/// The shape every result of the engine has: `batch_count` batches,
/// each of exactly `per_worker_count` values.
pub open spec fn result_shape(threads: nat, total_size: nat, s: Seq<Seq<u64>>) -> bool {
    &&& s.len() == batch_count(threads)
    &&& forall|i: int|
        0 <= i < s.len() ==> (#[trigger] s[i].len()) == per_worker_count(threads, total_size)
}

/// The number of values in all batches together.
pub open spec fn flat_len(s: Seq<Seq<u64>>) -> nat
    decreases s.len(),
{
    if s.len() == 0 {
        0
    } else {
        flat_len(s.drop_last()) + s.last().len()
    }
}

/// When every batch holds exactly `k` values, the total is the number
/// of batches times `k`.
pub proof fn lemma_flat_len_uniform(s: Seq<Seq<u64>>, k: nat)
    requires
        forall|i: int| 0 <= i < s.len() ==> (#[trigger] s[i].len()) == k,
    ensures
        flat_len(s) == s.len() * k,
    decreases s.len(),
{
    if s.len() == 0 {
    } else {
        lemma_flat_len_uniform(s.drop_last(), k);
        assert(s.last().len() == k);
        assert((s.len() - 1) * k + k == s.len() * k) by (nonlinear_arith)
            requires
                s.len() >= 1,
        ;
    }
}

/// The engine never delivers more values than were requested: with
/// workers, exactly the division remainder is dropped; without, the
/// request is met in full.
pub proof fn lemma_generated_le_total(threads: nat, total_size: nat)
    ensures
        generated_count(threads, total_size) <= total_size,
        threads > 0 ==> generated_count(threads, total_size) == total_size - total_size % threads,
        threads == 0 ==> generated_count(threads, total_size) == total_size,
{
    if threads == 0 {
    } else {
        lemma_fundamental_div_mod(total_size as int, threads as int);
        lemma_mod_bound(total_size as int, threads as int);
    }
}

/// Law: the shape of the engine's result is a function of the
/// arguments alone. Two invocations with the same arguments return the
/// same number of batches, batches of pairwise equal sizes, and the
/// same total count, however the generated values themselves differ.
pub proof fn lemma_structure_idempotent(
    threads: nat,
    total_size: nat,
    a: Seq<Seq<u64>>,
    b: Seq<Seq<u64>>,
)
    requires
        result_shape(threads, total_size, a),
        result_shape(threads, total_size, b),
    ensures
        a.len() == b.len(),
        forall|i: int| 0 <= i < a.len() ==> (#[trigger] a[i].len()) == b[i].len(),
        flat_len(a) == flat_len(b),
{
    lemma_flat_len_uniform(a, per_worker_count(threads, total_size));
    lemma_flat_len_uniform(b, per_worker_count(threads, total_size));
}

/// One worker's private batch: exactly `job_size` hardware draws, in
/// generation order.
pub fn worker_batch(job_size: usize) -> (r: Vec<u64>)
    ensures
        r@.len() == job_size,
{
    let mut tmp: Vec<u64> = Vec::new();
    let mut i: usize = 0;
    while i < job_size
        invariant
            tmp@.len() == i,
            i <= job_size,
        decreases job_size - i,
    {
        tmp.push(crate::rng::hw_rand_u64());
        i = i + 1;
    }
    tmp
}

/// Relies on `crossbeam_utils::thread::scope`, `Scope::spawn`,
/// `std::sync::mpsc::channel`, `Sender::clone`, `Sender::send` and
/// `Receiver::try_iter`: every spawned worker runs the verified
/// `worker_batch` once and sends its whole batch over its own clone of
/// the sender; the scope joins all workers before it returns, and all
/// sender clones are gone before the drain, so the drain yields exactly
/// one intact batch per worker, in arrival order. A worker that
/// panicked, or a failed send, aborts the invocation by panic, as the
/// benchmark has no meaningful partial result.
#[verifier::external_body]
fn spawn_workers(threads: usize, job_size: usize) -> (r: Vec<Vec<u64>>)
    ensures
        r.deep_view().len() == threads,
        forall|i: int|
            0 <= i < r.deep_view().len() ==> (#[trigger] r.deep_view()[i].len()) == job_size,
{
    let (tx, rx) = std::sync::mpsc::channel();
    crossbeam_utils::thread::scope(|s| {
        for _worker in 0..threads {
            let tx = tx.clone();
            s.spawn(move |_| tx.send(worker_batch(job_size)).unwrap());
        }
    })
    .unwrap();
    drop(tx);
    rx.try_iter().collect()
}

/// The parallel generation-and-collection engine. With `threads == 0`
/// the calling context itself generates all `total_size` values and
/// returns them as the sole batch; with `threads > 0` it spawns exactly
/// `threads` workers, each generating `total_size / threads` values
/// (the division remainder is dropped, never generated), joins them
/// all, and returns one batch per worker in arrival order.
pub fn threaded_mpsc(threads: usize, total_size: usize) -> (r: Vec<Vec<u64>>)
    ensures
        result_shape(threads as nat, total_size as nat, r.deep_view()),
        flat_len(r.deep_view()) == generated_count(threads as nat, total_size as nat),
        flat_len(r.deep_view()) <= total_size,
{
    proof {
        lemma_generated_le_total(threads as nat, total_size as nat);
    }
    if threads == 0 {
        let batch = worker_batch(total_size);
        let mut rd_vec: Vec<Vec<u64>> = Vec::new();
        rd_vec.push(batch);
        proof {
            assert(rd_vec.deep_view().len() == 1);
            assert(rd_vec.deep_view()[0] == batch@);
            lemma_flat_len_uniform(rd_vec.deep_view(), total_size as nat);
        }
        rd_vec
    } else {
        let job_size: usize = total_size / threads;
        let rd_vec = spawn_workers(threads, job_size);
        proof {
            lemma_flat_len_uniform(rd_vec.deep_view(), job_size as nat);
        }
        rd_vec
    }
}


} // verus!

