//! The read-only state driver: per-process records, the publisher that the
//! scheduler invokes on every context switch away from a process, and the
//! synchronous command surface.
//!
//! The kernel owns one record per process that has engaged the mechanism,
//! holding a wrapping 32-bit switch counter. On every switch away from a
//! process the publisher writes the advanced counter, the process's
//! pending-task count and the current monotonic tick reading into the buffer
//! the process has offered, at the offsets of [`crate::layout`] — but only
//! those fields whose full byte range fits within the buffer's current
//! length. The buffer is owned by the process and may be resized between
//! cycles; the publisher re-checks its length on every invocation and never
//! writes past it.

use vstd::arithmetic::div_mod::lemma_add_mod_noop;
use vstd::arithmetic::div_mod::lemma_mod_self_0;
use vstd::arithmetic::div_mod::lemma_small_mod;
use vstd::bytes::lemma_auto_spec_u32_to_from_le_bytes;
use vstd::bytes::lemma_auto_spec_u64_to_from_le_bytes;
use vstd::bytes::spec_u32_from_le_bytes;
use vstd::bytes::spec_u32_to_le_bytes;
use vstd::bytes::spec_u64_from_le_bytes;
use vstd::bytes::spec_u64_to_le_bytes;
use vstd::bytes::u32_to_le_bytes;
use vstd::bytes::u64_to_le_bytes;
use vstd::prelude::*;

use crate::layout::fields_at;
use crate::layout::Field;
use crate::layout::FieldKind;
use crate::layout::RECORD_SIZE;
use crate::layout::VERSION;

verus! {

/// Error signals surfaced by the mechanism.
#[derive(Clone, Copy, PartialEq, Eq, Structural, Debug)]
pub enum ErrorCode {
    /// The request number is not recognized.
    NoSupport,
    /// No room is left to allocate a per-process record.
    NoMem,
}

/// Outcome of a synchronous command request.
#[derive(Clone, Copy, PartialEq, Eq, Structural, Debug)]
pub enum CommandReturn {
    /// The request succeeded with no payload.
    Success,
    /// The request succeeded, carrying a 32-bit value.
    SuccessU32(u32),
    /// The request failed.
    Failure(ErrorCode),
}

/// The per-process record: kernel-owned state for one process, created lazily
/// on the process's first grant allocation. It holds the process's wrapping
/// switch counter, which only the publisher mutates.
#[derive(Clone, Copy)]
pub struct App {
    count: u32,
}

impl App {
    /// The current switch counter of the record.
    pub closed spec fn spec_count(&self) -> u32 {
        self.count
    }
}

impl Default for App {
    /// A fresh record starts with a switch counter of 0.
    fn default() -> (r: Self)
        ensures
            r.spec_count() == 0,
    {
        App { count: 0 }
    }
}

/// The successor of a switch counter: one more, wrapping at the 32-bit
/// boundary instead of faulting.
pub open spec fn next_count(c: u32) -> u32 {
    if c == 0xffff_ffffu32 {
        0u32
    } else {
        (c + 1) as u32
    }
}

/// The pending-task count as published: cast to the 32-bit field width.
pub open spec fn pending_field(pending_tasks: usize) -> u32 {
    pending_tasks as u32
}

/// One publish cycle's effect on the offered buffer: each field of the active
/// layout whose full byte range fits within the buffer length is overwritten
/// with the little-endian encoding of its value; every other byte keeps its
/// old value.
pub open spec fn publish_bytes(b: Seq<u8>, count: u32, pending: u32, ticks: u64) -> Seq<u8> {
    Seq::new(
        b.len(),
        |i: int|
            if b.len() >= 4 && 0 <= i < 4 {
                spec_u32_to_le_bytes(count)[i]
            } else if b.len() >= 8 && 4 <= i < 8 {
                spec_u32_to_le_bytes(pending)[i - 4]
            } else if b.len() >= 16 && 8 <= i < 16 {
                spec_u64_to_le_bytes(ticks)[i - 8]
            } else {
                b[i]
            },
    )
}

/// Whether the process has an allocated record in the given record table.
pub open spec fn has_record(records: Seq<Option<u32>>, processid: usize) -> bool {
    processid < records.len() && records[processid as int] is Some
}

/// The switch counter of the process's record.
pub open spec fn record_count(records: Seq<Option<u32>>, processid: usize) -> u32
    recommends
        has_record(records, processid),
{
    records[processid as int]->Some_0
}

/// The read-only state driver. Its view is the kernel-side record table: one
/// slot per process identity, holding the switch counter of the process's
/// record once the record has been allocated.
pub struct ReadOnlyStateDriver {
    apps: Vec<Option<App>>,
}

impl View for ReadOnlyStateDriver {
    type V = Seq<Option<u32>>;

    closed spec fn view(&self) -> Seq<Option<u32>> {
        self.apps@.map(
            |_i: int, a: Option<App>|
                match a {
                    Option::Some(app) => Option::Some(app.count),
                    Option::None => Option::None,
                },
        )
    }
}

impl ReadOnlyStateDriver {
    /// Creates the mechanism with room for `capacity` process identities.
    /// No per-process record exists yet; each is allocated lazily on first
    /// use via [`Self::allocate_grant`].
    pub fn new(capacity: usize) -> (r: Self)
        ensures
            r@.len() == capacity,
            forall|i: int| 0 <= i < capacity ==> r@[i] is None,
    {
        let mut apps: Vec<Option<App>> = Vec::new();
        let mut j: usize = 0;
        while j < capacity
            invariant
                j <= capacity,
                apps@.len() == j,
                forall|i: int| 0 <= i < j ==> apps@[i] is None,
            decreases capacity - j,
        {
            apps.push(Option::None);
            j += 1;
        }
        let r = ReadOnlyStateDriver { apps };
        proof {
            assert forall|i: int| 0 <= i < capacity implies r@[i] is None by {
                assert(r.apps@[i] is None);
            }
        }
        r
    }

    /// Allocates the per-process record for `processid` if it does not exist
    /// yet, leaving an existing record untouched. Fails — changing nothing —
    /// exactly when the arena has no slot for the process, the mechanism's
    /// form of resource exhaustion; the failure is reported to the caller
    /// rather than panicking.
    pub fn allocate_grant(&mut self, processid: usize) -> (r: Result<(), ErrorCode>)
        ensures
            final(self)@.len() == old(self)@.len(),
            r is Ok <==> processid < old(self)@.len(),
            r is Err ==> final(self)@ == old(self)@ && r == Err::<(), ErrorCode>(ErrorCode::NoMem),
            forall|i: int|
                0 <= i < old(self)@.len() && i != processid ==> final(self)@[i] == old(self)@[i],
            processid < old(self)@.len() && old(self)@[processid as int] is Some
                ==> final(self)@[processid as int] == old(self)@[processid as int],
            processid < old(self)@.len() && old(self)@[processid as int] is None
                ==> final(self)@[processid as int] == Some(0u32),
    {
        if processid < self.apps.len() {
            if self.apps[processid].is_none() {
                self.apps[processid] = Option::Some(App::default());
            }
            proof {
                assert forall|i: int|
                    0 <= i < old(self)@.len() && i != processid
                    implies final(self)@[i] == old(self)@[i] by {
                    assert(self.apps@[i] == old(self).apps@[i]);
                }
            }
            Ok(())
        } else {
            proof {
                assert(final(self)@ =~= old(self)@);
            }
            Err(ErrorCode::NoMem)
        }
    }

    /// The publisher, invoked by the scheduler exactly once per transition
    /// away from a running process, with the process's identity, its current
    /// pending-task count, the monotonic tick reading taken for this cycle,
    /// and the buffer the process has offered for kernel writes.
    ///
    /// When the process has an allocated record, its switch counter advances
    /// by one (wrapping at the 32-bit boundary) and every field of the active
    /// layout whose full byte range fits within the buffer's current length
    /// is written — fields that do not fully fit are skipped, never partially
    /// written. A process with no record is skipped entirely: the cycle is a
    /// safe no-op that surfaces no error to the scheduler and affects no
    /// other process.
    pub fn context_switch_hook(
        &mut self,
        processid: usize,
        pending_tasks: usize,
        now: u64,
        buffer: &mut Vec<u8>,
    )
        ensures
            final(self)@.len() == old(self)@.len(),
            final(buffer)@.len() == old(buffer)@.len(),
            forall|i: int|
                0 <= i < old(self)@.len() && i != processid ==> final(self)@[i] == old(self)@[i],
            !has_record(old(self)@, processid) ==> final(self)@ == old(self)@ && final(buffer)@
                == old(buffer)@,
            has_record(old(self)@, processid) ==> {
                let c = next_count(record_count(old(self)@, processid));
                &&& final(self)@[processid as int] == Some(c)
                &&& final(buffer)@ == publish_bytes(
                    old(buffer)@,
                    c,
                    pending_field(pending_tasks),
                    now,
                )
            },
    {
        if processid < self.apps.len() {
            let entry: Option<App> = self.apps[processid];
            match entry {
                Option::Some(app) => {
                    let new_count = app.count.wrapping_add(1);
                    if buffer.len() >= 4 {
                        let bs = u32_to_le_bytes(new_count);
                        write_at(buffer, 0, &bs);
                    }
                    if buffer.len() >= 8 {
                        #[verifier::truncate]
                        let pending = pending_tasks as u32;
                        let bs = u32_to_le_bytes(pending);
                        write_at(buffer, 4, &bs);
                    }
                    if buffer.len() >= 16 {
                        let bs = u64_to_le_bytes(now);
                        write_at(buffer, 8, &bs);
                    }
                    self.apps[processid] = Option::Some(App { count: new_count });
                    proof {
                        let c = next_count(record_count(old(self)@, processid));
                        assert(new_count == c);
                        assert(final(buffer)@ =~= publish_bytes(
                            old(buffer)@,
                            c,
                            pending_field(pending_tasks),
                            now,
                        ));
                        assert forall|i: int|
                            0 <= i < old(self)@.len() && i != processid implies final(self)@[i]
                            == old(self)@[i] by {
                            assert(self.apps@[i] == old(self).apps@[i]);
                        }
                    }
                },
                Option::None => {
                    proof {
                        assert(final(self)@ =~= old(self)@);
                    }
                },
            }
        } else {
            proof {
                assert(final(self)@ =~= old(self)@);
            }
        }
    }

    /// The synchronous command surface. Request 0 is the existence probe and
    /// always succeeds with no payload; request 1 returns the constant active
    /// layout version; every other request fails as unsupported. No request
    /// mutates or depends on any process state.
    pub fn command(
        &self,
        command_number: usize,
        _target_id: usize,
        _data: usize,
        _processid: usize,
    ) -> (r: CommandReturn)
        ensures
            r == spec_command(command_number),
    {
        match command_number {
            0 => CommandReturn::Success,
            1 => CommandReturn::SuccessU32(VERSION),
            _ => CommandReturn::Failure(ErrorCode::NoSupport),
        }
    }
}

/// What each request returns: a function of the request number alone,
/// independent of all process state and command ordering.
pub open spec fn spec_command(command_number: usize) -> CommandReturn {
    if command_number == 0 {
        CommandReturn::Success
    } else if command_number == 1 {
        CommandReturn::SuccessU32(VERSION)
    } else {
        CommandReturn::Failure(ErrorCode::NoSupport)
    }
}

/// Copies `data` into `buffer` starting at `offset`, leaving every byte
/// outside the copied range unchanged.
fn write_at(buffer: &mut Vec<u8>, offset: usize, data: &Vec<u8>)
    requires
        offset + data@.len() <= old(buffer)@.len(),
    ensures
        final(buffer)@.len() == old(buffer)@.len(),
        forall|i: int|
            0 <= i < old(buffer)@.len() ==> final(buffer)@[i] == (if offset <= i < offset
                + data@.len() {
                data@[i - offset]
            } else {
                old(buffer)@[i]
            }),
{
    let blen = buffer.len();
    let mut j: usize = 0;
    while j < data.len()
        invariant
            j <= data@.len(),
            offset + data@.len() <= blen,
            blen == old(buffer)@.len(),
            buffer@.len() == old(buffer)@.len(),
            forall|i: int|
                0 <= i < buffer@.len() ==> buffer@[i] == (if offset <= i < offset + j {
                    data@[i - offset]
                } else {
                    old(buffer)@[i]
                }),
        decreases data@.len() - j,
    {
        buffer[offset + j] = data[j];
        j += 1;
    }
}

/// Whether byte `i` lies inside a field of the active layout whose full byte
/// range fits within a buffer of length `len`.
pub open spec fn byte_in_fitting_field(i: int, len: nat) -> bool {
    exists|k: int|
        0 <= k < fields_at(VERSION).len() && {
            let f = #[trigger] fields_at(VERSION)[k];
            &&& f.offset <= i < f.offset + f.width
            &&& f.offset + f.width <= len
        }
}

/// Law: one publish cycle writes exactly the fields of the active layout
/// whose full byte range fits within the buffer's length. Each fitting field
/// carries the little-endian encoding of its value; every byte outside a
/// fitting field keeps its old value; an empty buffer is untouched; and the
/// buffer's length never changes.
pub proof fn lemma_publish_writes_exactly_fitting_fields(
    b: Seq<u8>,
    count: u32,
    pending: u32,
    ticks: u64,
)
    ensures
        publish_bytes(b, count, pending, ticks).len() == b.len(),
        forall|i: int|
            0 <= i < b.len() && !byte_in_fitting_field(i, b.len()) ==> publish_bytes(
                b,
                count,
                pending,
                ticks,
            )[i] == b[i],
        b.len() >= 4 ==> publish_bytes(b, count, pending, ticks).subrange(0, 4)
            == spec_u32_to_le_bytes(count),
        b.len() >= 8 ==> publish_bytes(b, count, pending, ticks).subrange(4, 8)
            == spec_u32_to_le_bytes(pending),
        b.len() >= 16 ==> publish_bytes(b, count, pending, ticks).subrange(8, 16)
            == spec_u64_to_le_bytes(ticks),
        b.len() == 0 ==> publish_bytes(b, count, pending, ticks) == b,
{
    lemma_auto_spec_u32_to_from_le_bytes();
    lemma_auto_spec_u64_to_from_le_bytes();
    let out = publish_bytes(b, count, pending, ticks);
    let fs = fields_at(VERSION);
    assert(fs[0] == (Field {
        kind: FieldKind::SwitchCount,
        since: 1u32,
        offset: 0usize,
        width: 4usize,
    }));
    assert(fs[1] == (Field {
        kind: FieldKind::PendingTasks,
        since: 1u32,
        offset: 4usize,
        width: 4usize,
    }));
    assert(fs[2] == (Field {
        kind: FieldKind::TickCount,
        since: 1u32,
        offset: 8usize,
        width: 8usize,
    }));
    assert forall|i: int|
        0 <= i < b.len() && !byte_in_fitting_field(i, b.len()) implies out[i] == b[i] by {
        if b.len() >= 4 && 0 <= i < 4 {
            assert(fs[0].offset <= i < fs[0].offset + fs[0].width && fs[0].offset + fs[0].width
                <= b.len());
            assert(byte_in_fitting_field(i, b.len()));
        }
        if b.len() >= 8 && 4 <= i < 8 {
            assert(fs[1].offset <= i < fs[1].offset + fs[1].width && fs[1].offset + fs[1].width
                <= b.len());
            assert(byte_in_fitting_field(i, b.len()));
        }
        if b.len() >= 16 && 8 <= i < 16 {
            assert(fs[2].offset <= i < fs[2].offset + fs[2].width && fs[2].offset + fs[2].width
                <= b.len());
            assert(byte_in_fitting_field(i, b.len()));
        }
    }
    if b.len() >= 4 {
        assert(out.subrange(0, 4) =~= spec_u32_to_le_bytes(count));
    }
    if b.len() >= 8 {
        assert(out.subrange(4, 8) =~= spec_u32_to_le_bytes(pending));
    }
    if b.len() >= 16 {
        assert(out.subrange(8, 16) =~= spec_u64_to_le_bytes(ticks));
    }
    if b.len() == 0 {
        assert(out =~= b);
    }
}

/// Law: shrinking the offered buffer between two publish cycles never causes
/// the second cycle to write beyond the new, smaller length. The second
/// cycle's output is exactly as long as the shrunk buffer, and every byte
/// outside a field that fits in the shrunk length keeps the value the first
/// cycle left there.
pub proof fn lemma_shrunk_buffer_confines_next_cycle(
    b: Seq<u8>,
    shrunk_len: int,
    c1: u32,
    c2: u32,
    p1: u32,
    p2: u32,
    t1: u64,
    t2: u64,
)
    requires
        0 <= shrunk_len <= b.len(),
    ensures
        ({
            let first = publish_bytes(b, c1, p1, t1);
            let second = publish_bytes(first.take(shrunk_len), c2, p2, t2);
            &&& second.len() == shrunk_len
            &&& forall|i: int|
                0 <= i < shrunk_len && !byte_in_fitting_field(i, shrunk_len as nat) ==> second[i]
                    == first[i]
        }),
{
    let first = publish_bytes(b, c1, p1, t1);
    lemma_publish_writes_exactly_fitting_fields(first.take(shrunk_len), c2, p2, t2);
}

/// Law: the switch counter advances by exactly one per completed publish
/// cycle, and wraps from the largest 32-bit value to 0 rather than faulting.
/// (That it starts at 0 on a freshly allocated record is the contract of
/// [`ReadOnlyStateDriver::allocate_grant`].)
pub proof fn lemma_counter_advances_and_wraps(c: u32)
    ensures
        c < 0xffff_ffffu32 ==> next_count(c) == c + 1,
        next_count(0xffff_ffffu32) == 0,
{
}

/// The switch counter a record holds after `n` completed publish cycles,
/// starting from the fresh value 0: `next_count` applied `n` times. By the
/// contract of [`ReadOnlyStateDriver::context_switch_hook`], this is also the
/// value the `n`-th cycle publishes into the switch-count field.
pub open spec fn count_after_cycles(n: nat) -> u32
    decreases n,
{
    if n == 0 {
        0u32
    } else {
        next_count(count_after_cycles((n - 1) as nat))
    }
}

/// Law: after `n` completed publish cycles, a record that started fresh holds
/// a switch counter of `n` modulo 2^32.
pub proof fn lemma_count_after_cycles(n: nat)
    ensures
        count_after_cycles(n) == n % 0x1_0000_0000,
    decreases n,
{
    let m: int = 0x1_0000_0000;
    if n > 0 {
        lemma_count_after_cycles((n - 1) as nat);
        lemma_add_mod_noop(n - 1, 1, m);
        lemma_small_mod(1, m as nat);
        if count_after_cycles((n - 1) as nat) == 0xffff_ffffu32 {
            lemma_mod_self_0(m);
        } else {
            lemma_small_mod((count_after_cycles((n - 1) as nat) + 1) as nat, m as nat);
        }
    } else {
        lemma_small_mod(0, m as nat);
    }
}

/// Law: with a buffer at least the full record long, the `n`-th publish cycle
/// on a record that started fresh leaves the switch-count field decoding to
/// `n` modulo 2^32, the pending field decoding to the pending count supplied
/// on the `n`-th cycle, and the tick field decoding to the reading taken
/// during that cycle.
pub proof fn lemma_fields_after_nth_cycle(n: nat, b: Seq<u8>, pending_tasks: usize, ticks: u64)
    requires
        n >= 1,
        b.len() >= RECORD_SIZE,
    ensures
        ({
            let out = publish_bytes(b, count_after_cycles(n), pending_field(pending_tasks), ticks);
            &&& spec_u32_from_le_bytes(out.subrange(0, 4)) == count_after_cycles(n)
            &&& count_after_cycles(n) == n % 0x1_0000_0000
            &&& spec_u32_from_le_bytes(out.subrange(4, 8)) == pending_field(pending_tasks)
            &&& spec_u64_from_le_bytes(out.subrange(8, 16)) == ticks
        }),
{
    lemma_auto_spec_u32_to_from_le_bytes();
    lemma_auto_spec_u64_to_from_le_bytes();
    lemma_count_after_cycles(n);
    lemma_publish_writes_exactly_fitting_fields(
        b,
        count_after_cycles(n),
        pending_field(pending_tasks),
        ticks,
    );
    let out = publish_bytes(b, count_after_cycles(n), pending_field(pending_tasks), ticks);
    assert(out.subrange(0, 4) == spec_u32_to_le_bytes(count_after_cycles(n)));
    assert(spec_u32_from_le_bytes(out.subrange(0, 4)) == count_after_cycles(n));
    assert(spec_u32_to_le_bytes(pending_field(pending_tasks)).len() == 4);
    assert(out.subrange(4, 8) == spec_u32_to_le_bytes(pending_field(pending_tasks)));
    assert(spec_u32_from_le_bytes(out.subrange(4, 8)) == pending_field(pending_tasks));
    assert(out.subrange(8, 16) == spec_u64_to_le_bytes(ticks));
    assert(spec_u64_from_le_bytes(out.subrange(8, 16)) == ticks);
}

/// Law: the version query returns the single constant version number,
/// whatever the process state and whatever requests came before it: what
/// [`ReadOnlyStateDriver::command`] returns is a function of the request
/// number alone, and for request 1 it is always the active layout version.
pub proof fn lemma_version_query_constant()
    ensures
        spec_command(1) == CommandReturn::SuccessU32(VERSION),
{
}

/// Law: a process with no allocated record never surfaces an error to the
/// scheduler — by the contract of
/// [`ReadOnlyStateDriver::context_switch_hook`], its publish cycle changes
/// neither the record table nor the buffer — and the command surface still
/// succeeds normally afterwards: the existence probe and the version query do
/// not depend on any per-process state.
pub proof fn lemma_missing_record_is_harmless(records: Seq<Option<u32>>, processid: usize)
    requires
        !has_record(records, processid),
    ensures
        spec_command(0) == CommandReturn::Success,
        spec_command(1) == CommandReturn::SuccessU32(VERSION),
{
}

} // verus!
