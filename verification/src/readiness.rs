//! What a query waits for between two wakes: the retry clock of the
//! protocol engine, and the set of descriptors the engine is to read.

use vstd::prelude::*;

verus! {

/// A span of time: whole seconds and the billionths of a second beyond
/// them.
#[derive(Debug, Clone, Copy, PartialEq, Eq, Structural)]
pub struct Timeout {
    pub secs: u64,
    pub nanos: u32,
}

/// A signed machine word read as an unsigned one.
pub open spec fn unsigned(x: i64) -> int {
    if x >= 0 {
        x as int
    } else {
        x + 0x1_0000_0000_0000_0000
    }
}

/// The whole seconds of the time that the protocol engine gives as seconds
/// and microseconds; both are taken as unsigned.
pub open spec fn whole_seconds(tv_sec: i64, tv_usec: i64) -> int {
    unsigned(tv_sec) + unsigned(tv_usec) / 1_000_000
}

/// The billionths of a second left over beyond the whole seconds.
pub open spec fn left_over_nanos(tv_usec: i64) -> int {
    (unsigned(tv_usec) % 1_000_000) * 1000
}

impl Timeout {
    /// The span in billionths of a second.
    pub open spec fn total_nanos(self) -> int {
        self.secs * 1_000_000_000 + self.nanos
    }
}

fn to_unsigned(x: i64) -> (res: u64)
    ensures
        res == unsigned(x),
{
    if x >= 0 {
        x as u64
    } else {
        let low: u64 = (x - i64::MIN) as u64;
        low + 0x8000_0000_0000_0000
    }
}

/// The time left on the retry clock, as the protocol engine gives it in
/// seconds and microseconds.
pub fn retry_timeout(tv_sec: i64, tv_usec: i64) -> (res: Timeout)
    requires
        whole_seconds(tv_sec, tv_usec) <= u64::MAX,
    ensures
        res.secs == whole_seconds(tv_sec, tv_usec),
        res.nanos == left_over_nanos(tv_usec),
        res.nanos < 1_000_000_000,
        res.total_nanos() == unsigned(tv_sec) * 1_000_000_000 + unsigned(tv_usec) * 1000,
{
    let secs = to_unsigned(tv_sec);
    let micros = to_unsigned(tv_usec);
    let carry: u64 = micros / 1_000_000;
    let rest: u64 = micros % 1_000_000;
    let nanos: u32 = (rest * 1000) as u32;
    Timeout { secs: secs + carry, nanos }
}

/// The time left on the retry clock where it can be told in 64 bits of
/// seconds, and nothing where it cannot.
pub fn checked_retry_timeout(tv_sec: i64, tv_usec: i64) -> (res: Option<Timeout>)
    ensures
        whole_seconds(tv_sec, tv_usec) <= u64::MAX ==> res == Some(
            Timeout {
                secs: whole_seconds(tv_sec, tv_usec) as u64,
                nanos: left_over_nanos(tv_usec) as u32,
            },
        ),
        whole_seconds(tv_sec, tv_usec) > u64::MAX ==> res is None,
{
    let secs = to_unsigned(tv_sec);
    let carry: u64 = to_unsigned(tv_usec) / 1_000_000;
    if secs > u64::MAX - carry {
        None
    } else {
        Some(retry_timeout(tv_sec, tv_usec))
    }
}

/// Whether descriptor `fd` is a member of the set that the words of `set`
/// hold, sixty-four descriptors to a word.
pub open spec fn in_fd_set(set: Seq<u64>, fd: int) -> bool {
    &&& 0 <= fd
    &&& fd / 64 < set.len()
    &&& (set[fd / 64] >> ((fd % 64) as u64)) & 1 == 1
}

/// The set of descriptors that holds `fd` and nothing else, in as many
/// words as it takes to reach `fd`.
pub fn descriptor_set(fd: i32) -> (res: Vec<u64>)
    requires
        fd > 0,
    ensures
        res@.len() == fd / 64 + 1,
        forall|i: int|
            0 <= i < res@.len() ==> #[trigger] res@[i] == if i == fd / 64 {
                1u64 << ((fd % 64) as u64)
            } else {
                0u64
            },
        forall|k: int| in_fd_set(res@, k) <==> k == fd,
{
    let word: usize = (fd / 64) as usize;
    let bit: u64 = (fd % 64) as u64;
    let mut set: Vec<u64> = Vec::new();
    let mut i: usize = 0;
    while i <= word
        invariant
            i <= word + 1,
            word == fd / 64,
            set@.len() == i,
            forall|j: int| 0 <= j < i ==> #[trigger] set@[j] == 0u64,
        decreases word + 1 - i,
    {
        set.push(0u64);
        i += 1;
    }
    set.set(word, 1u64 << bit);
    proof {
        assert forall|k: int| in_fd_set(set@, k) <==> k == fd by {
            if 0 <= k && k / 64 < set@.len() {
                let other: u64 = (k % 64) as u64;
                lemma_single_bit(bit, other);
                if k / 64 != word {
                    assert(set@[k / 64] == 0u64);
                }
            }
        }
    }
    set
}

/// Adds descriptor `fd` to a set that the protocol engine has filled, and
/// gives the number of descriptors to watch: one more than the greatest
/// descriptor, be it `fd` or one of the engine's, of which there are
/// `nfds`.
pub fn watch_descriptor(set: &mut Vec<u64>, nfds: i32, fd: i32) -> (res: i32)
    requires
        0 <= fd < i32::MAX,
        fd / 64 < old(set)@.len(),
        nfds > i32::MIN,
    ensures
        final(set)@.len() == old(set)@.len(),
        forall|k: int| in_fd_set(final(set)@, k) <==> in_fd_set(old(set)@, k) || k == fd,
        res == if nfds - 1 > fd {
            nfds as int
        } else {
            fd + 1
        },
{
    let word: usize = (fd / 64) as usize;
    let bit: u64 = (fd % 64) as u64;
    let before: u64 = set[word];
    set.set(word, before | (1u64 << bit));
    proof {
        assert forall|k: int| in_fd_set(set@, k) <==> in_fd_set(old(set)@, k) || k == fd by {
            if 0 <= k && k / 64 < set@.len() {
                if k / 64 == word {
                    lemma_added_bit(before, bit, (k % 64) as u64);
                }
            }
        }
    }
    if nfds - 1 > fd {
        nfds
    } else {
        fd + 1
    }
}

proof fn lemma_added_bit(word: u64, bit: u64, other: u64)
    requires
        bit < 64,
        other < 64,
    ensures
        ((word | (1u64 << bit)) >> other) & 1 == 1 <==> (word >> other) & 1 == 1 || bit == other,
{
    assert(bit < 64 && other < 64 ==> ((((word | (1u64 << bit)) >> other) & 1 == 1) <==> ((word
        >> other) & 1 == 1 || bit == other))) by (bit_vector);
}

proof fn lemma_single_bit(bit: u64, other: u64)
    requires
        bit < 64,
        other < 64,
    ensures
        ((1u64 << bit) >> other) & 1 == 1 <==> bit == other,
        (0u64 >> other) & 1 == 0,
{
    assert(bit < 64 && other < 64 ==> (((1u64 << bit) >> other) & 1 == 1 <==> bit == other))
        by (bit_vector);
    assert((0u64 >> other) & 1 == 0) by (bit_vector);
}

} // verus!
