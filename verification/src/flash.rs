use vstd::prelude::*;

verus! {

/// Size of the key's flash memory in bytes.
pub const FLASH_SIZE: usize = 2 * 1024 * 1024;

/// Where in flash the key keeps its entries.
pub const ADDR_OFFSET: u32 = 0x100000;

/// Size of the smallest erasable flash sector.
pub const ERASE_SIZE: usize = 4096;

/// How many entries the key stores.
pub const ENTRY_COUNT: usize = 64;

/// The value every byte of an erased sector reads as.
pub const ERASED_BYTE: u8 = 0xFF;

/// The byte a cleared sector is filled with.
pub const FILL_BYTE: u8 = 0xDA;

/// Why a flash operation failed.
#[derive(PartialEq, Eq, Structural, Clone, Copy, Debug)]
pub enum FlashError {
    OutOfBounds,
    Unaligned,
    InvalidCore,
    Other,
}

/// The warning logged for a failed flash operation: the error's name.
pub fn print_error(error: FlashError) -> (r: &'static str)
    ensures
        r@ == match error {
            FlashError::OutOfBounds => "OutOfBounds"@,
            FlashError::Unaligned => "Unaligned"@,
            FlashError::InvalidCore => "InvalidCore"@,
            FlashError::Other => "Other"@,
        },
{
    match error {
        FlashError::OutOfBounds => "OutOfBounds",
        FlashError::Unaligned => "Unaligned",
        FlashError::InvalidCore => "InvalidCore",
        FlashError::Other => "Other",
    }
}

/// The bytes of `x`, least significant first.
pub open spec fn le_bytes(x: u32) -> Seq<u8> {
    seq![x as u8, (x >> 8) as u8, (x >> 16) as u8, (x >> 24) as u8]
}

/// The bytes of `x`, most significant first.
pub open spec fn be_bytes(x: u32) -> Seq<u8> {
    seq![(x >> 24) as u8, (x >> 16) as u8, (x >> 8) as u8, x as u8]
}

/// The bytes of `x` in the byte order of the machine the code runs on
/// (vstd's `endianness()`).
pub open spec fn native_order_bytes(x: u32) -> Seq<u8> {
    if vstd::endian::endianness() == vstd::endian::Endian::Little {
        le_bytes(x)
    } else {
        be_bytes(x)
    }
}

/// `u32::to_ne_bytes`: the bytes of `x` in the machine's byte order.
///
/// Trusted: std documents the result as the native byte order of the
/// target, which vstd abstracts as `endianness()`; which order that is the
/// contract does not say.
#[verifier::external_body]
fn native_bytes(x: u32) -> (b: [u8; 4])
    ensures
        b@ == native_order_bytes(x),
{
    x.to_ne_bytes()
}

/// One flash operation for the runner to carry out.
pub enum FlashOp {
    /// Read `len` bytes at `offset`.
    Read { offset: u32, len: usize },
    /// Erase the sectors from `from` up to `to`.
    Erase { from: u32, to: u32 },
    /// Write `data` at `offset`.
    Write { offset: u32, data: Vec<u8> },
    /// Read `count` words at `offset` in the background.
    ReadWords { offset: u32, count: usize },
}

/// What the runner does next.
pub enum FlashStep {
    /// Carry out this operation and report how it went.
    Perform(FlashOp),
    /// The job is over, with this outcome.
    Finished(Result<(), FlashError>),
    /// The job of reading the entries is over, with these entries.
    Loaded(Result<Vec<u32>, FlashError>),
}

/// What came of the last operation.
pub enum FlashEvent {
    /// The erase or write went through.
    Completed,
    /// The read went through and gave these bytes.
    ReadBack(Vec<u8>),
    /// The background read gave these words.
    WordsRead(Vec<u32>),
    /// The operation failed.
    Failed(FlashError),
}

/// The three flash jobs of the key.
#[derive(PartialEq, Eq, Structural, Clone, Copy, Debug)]
pub enum FlashTask {
    /// Erase the entry sector and write the entries into it.
    Store,
    /// Erase the entry sector and fill it with `FILL_BYTE`.
    Clear,
    /// Read the entries back.
    Load,
}

/// Where a flash job stands: which operation's outcome it waits for.
#[derive(PartialEq, Eq, Structural, Clone, Copy, Debug)]
pub enum FlashStage {
    ReadingBefore,
    Erasing,
    CheckingErased,
    WritingEntry(usize),
    WritingFill,
    ReadingBack,
    LoadingEntries,
    Done,
}

/// What a job decides to do next, as a value of the model.
pub enum FlashPlan {
    Read { offset: u32, len: usize },
    Erase { from: u32, to: u32 },
    /// Write the bytes of entry `value` at `offset`.
    WriteEntry { offset: u32, value: u32 },
    /// Write `len` copies of `FILL_BYTE` at `offset`.
    WriteFill { offset: u32, len: usize },
    ReadWords { offset: u32, count: usize },
    Finish(Result<(), FlashError>),
    Deliver(Result<Seq<u32>, FlashError>),
}

pub open spec fn all_erased(bytes: Seq<u8>) -> bool {
    forall|i: int| 0 <= i < bytes.len() ==> #[trigger] bytes[i] == ERASED_BYTE
}

/// Whether a job at `stage` goes on with `event`: it is an outcome the
/// operation the job waits for can have, and a sector read back after
/// erasing reads as erased. On anything else the firmware stops (panics)
/// without calling `step`; `FlashWrapper::accepts` tells the two apart.
pub open spec fn event_fits(stage: FlashStage, event: FlashEvent) -> bool {
    match stage {
        FlashStage::CheckingErased => (event matches FlashEvent::ReadBack(bytes) && all_erased(bytes@))
            || event is Failed,
        FlashStage::ReadingBefore | FlashStage::ReadingBack => event is ReadBack || event is Failed,
        FlashStage::Erasing | FlashStage::WritingEntry(_) | FlashStage::WritingFill => event is Completed
            || event is Failed,
        FlashStage::LoadingEntries => (event matches FlashEvent::WordsRead(words) && words@.len()
            == ENTRY_COUNT) || event is Failed,
        FlashStage::Done => false,
    }
}

pub open spec fn sector_end() -> u32 {
    (ADDR_OFFSET + ERASE_SIZE) as u32
}

/// One step of a flash job: from the task, the entries to store, the stage
/// and what came of the last operation, the next stage and plan. Outcomes
/// that `event_fits` rules out have no defined next step.
pub open spec fn flash_next(task: FlashTask, entries: Seq<u32>, stage: FlashStage, event: FlashEvent) -> (
    FlashStage,
    FlashPlan,
)
    recommends
        event_fits(stage, event),
{
    match event {
        FlashEvent::Failed(e) => (
            FlashStage::Done,
            if task == FlashTask::Load {
                FlashPlan::Deliver(Err(e))
            } else {
                FlashPlan::Finish(Err(e))
            },
        ),
        _ => match stage {
            FlashStage::ReadingBefore => (
                FlashStage::Erasing,
                FlashPlan::Erase { from: ADDR_OFFSET, to: sector_end() },
            ),
            FlashStage::Erasing => (
                FlashStage::CheckingErased,
                FlashPlan::Read { offset: ADDR_OFFSET, len: ERASE_SIZE },
            ),
            FlashStage::CheckingErased => if task == FlashTask::Clear {
                (FlashStage::WritingFill, FlashPlan::WriteFill { offset: ADDR_OFFSET, len: ERASE_SIZE })
            } else {
                (FlashStage::WritingEntry(0), FlashPlan::WriteEntry { offset: ADDR_OFFSET, value: entries[0] })
            },
            FlashStage::WritingEntry(i) => if i + 1 < ENTRY_COUNT {
                (
                    FlashStage::WritingEntry((i + 1) as usize),
                    FlashPlan::WriteEntry { offset: (ADDR_OFFSET + i + 1) as u32, value: entries[i + 1] },
                )
            } else {
                (FlashStage::Done, FlashPlan::Finish(Ok(())))
            },
            FlashStage::WritingFill => (
                FlashStage::ReadingBack,
                FlashPlan::Read { offset: ADDR_OFFSET, len: ERASE_SIZE },
            ),
            FlashStage::ReadingBack => (FlashStage::Done, FlashPlan::Finish(Ok(()))),
            FlashStage::LoadingEntries => match event {
                FlashEvent::WordsRead(words) => (FlashStage::Done, FlashPlan::Deliver(Ok(words@))),
                _ => arbitrary(),
            },
            FlashStage::Done => arbitrary(),
        },
    }
}

/// Whether `step` carries out `plan`. Every entry is written in the
/// machine's byte order.
pub open spec fn carries_out(step: FlashStep, plan: FlashPlan) -> bool {
    match plan {
        FlashPlan::Read { offset, len } => step matches FlashStep::Perform(FlashOp::Read { offset: o, len: l }) && o == offset && l == len,
        FlashPlan::Erase { from, to } => step matches FlashStep::Perform(FlashOp::Erase { from: f, to: t }) && f == from && t == to,
        FlashPlan::WriteEntry { offset, value } => step matches FlashStep::Perform(FlashOp::Write { offset: o, data }) && o == offset
            && data@ == native_order_bytes(value),
        FlashPlan::WriteFill { offset, len } => step matches FlashStep::Perform(FlashOp::Write { offset: o, data }) && o == offset
            && data@ == Seq::new(len as nat, |i: int| FILL_BYTE),
        FlashPlan::ReadWords { offset, count } => step matches FlashStep::Perform(FlashOp::ReadWords { offset: o, count: c }) && o == offset && c == count,
        FlashPlan::Finish(r) => step matches FlashStep::Finished(s) && s == r,
        FlashPlan::Deliver(r) => step matches FlashStep::Loaded(s) && match (s, r) {
            (Ok(v), Ok(w)) => v@ == w,
            (Err(a), Err(b)) => a == b,
            _ => false,
        },
    }
}

/// The key's use of its flash memory: the operations of one of its three
/// tasks (store, clear, read back), one at a time, each decided from the
/// outcome of the one before. The firmware carries the operations out.
pub struct FlashWrapper {
    task: FlashTask,
    entries: [u32; 64],
    stage: FlashStage,
}

impl FlashWrapper {
    #[verifier::type_invariant]
    closed spec fn inv(self) -> bool {
        &&& self.stage matches FlashStage::WritingEntry(i) ==> i < ENTRY_COUNT
        &&& self.task == FlashTask::Load ==> (self.stage == FlashStage::LoadingEntries || self.stage == FlashStage::Done)
        &&& self.stage == FlashStage::LoadingEntries ==> self.task == FlashTask::Load
        &&& self.stage matches FlashStage::WritingEntry(_) ==> self.task == FlashTask::Store
        &&& (self.stage == FlashStage::WritingFill || self.stage == FlashStage::ReadingBack) ==> self.task == FlashTask::Clear
    }

    pub closed spec fn task(&self) -> FlashTask {
        self.task
    }

    pub closed spec fn entries(&self) -> Seq<u32> {
        self.entries@
    }

    pub closed spec fn stage(&self) -> FlashStage {
        self.stage
    }

    /// Starts storing `entries`: the sector is read, erased, checked to read
    /// as erased, then entry `i` is written at `ADDR_OFFSET + i`.
    pub fn write_bytes(entries: &[u32; 64]) -> (r: (FlashWrapper, FlashStep))
        ensures
            r.0.task() == FlashTask::Store,
            r.0.entries() == entries@,
            r.0.stage() == FlashStage::ReadingBefore,
            carries_out(r.1, FlashPlan::Read { offset: ADDR_OFFSET, len: ERASE_SIZE }),
    {
        (
            FlashWrapper { task: FlashTask::Store, entries: *entries, stage: FlashStage::ReadingBefore },
            FlashStep::Perform(FlashOp::Read { offset: ADDR_OFFSET, len: ERASE_SIZE }),
        )
    }

    /// Starts clearing: the sector is read, erased, checked to read as
    /// erased, filled with `FILL_BYTE` and read back.
    pub fn clear() -> (r: (FlashWrapper, FlashStep))
        ensures
            r.0.task() == FlashTask::Clear,
            r.0.stage() == FlashStage::ReadingBefore,
            carries_out(r.1, FlashPlan::Read { offset: ADDR_OFFSET, len: ERASE_SIZE }),
    {
        (
            FlashWrapper { task: FlashTask::Clear, entries: [0u32; 64], stage: FlashStage::ReadingBefore },
            FlashStep::Perform(FlashOp::Read { offset: ADDR_OFFSET, len: ERASE_SIZE }),
        )
    }

    /// Starts reading the entries back.
    pub fn read() -> (r: (FlashWrapper, FlashStep))
        ensures
            r.0.task() == FlashTask::Load,
            r.0.stage() == FlashStage::LoadingEntries,
            carries_out(r.1, FlashPlan::ReadWords { offset: ADDR_OFFSET, count: ENTRY_COUNT }),
    {
        (
            FlashWrapper { task: FlashTask::Load, entries: [0u32; 64], stage: FlashStage::LoadingEntries },
            FlashStep::Perform(FlashOp::ReadWords { offset: ADDR_OFFSET, count: ENTRY_COUNT }),
        )
    }

    /// Whether the job goes on with `event`. Where it does not, the
    /// firmware stops: after erasing, the sector did not read as erased
    /// (or the outcome does not belong to the operation asked for).
    pub fn accepts(&self, event: &FlashEvent) -> (b: bool)
        ensures
            b == event_fits(self.stage(), *event),
    {
        match self.stage {
            FlashStage::CheckingErased => match event {
                FlashEvent::ReadBack(bytes) => is_erased(bytes.as_slice()),
                FlashEvent::Failed(_) => true,
                _ => false,
            },
            FlashStage::ReadingBefore | FlashStage::ReadingBack => match event {
                FlashEvent::ReadBack(_) | FlashEvent::Failed(_) => true,
                _ => false,
            },
            FlashStage::Erasing | FlashStage::WritingEntry(_) | FlashStage::WritingFill => match event {
                FlashEvent::Completed | FlashEvent::Failed(_) => true,
                _ => false,
            },
            FlashStage::LoadingEntries => match event {
                FlashEvent::WordsRead(words) => words.len() == ENTRY_COUNT,
                FlashEvent::Failed(_) => true,
                _ => false,
            },
            FlashStage::Done => false,
        }
    }

    /// Whether the job is over.
    pub fn is_done(&self) -> (b: bool)
        ensures
            b == (self.stage() == FlashStage::Done),
    {
        match self.stage {
            FlashStage::Done => true,
            _ => false,
        }
    }

    /// Takes what came of the last operation and says what to do next.
    pub fn step(&mut self, event: FlashEvent) -> (s: FlashStep)
        requires
            event_fits(old(self).stage(), event),
        ensures
            final(self).task() == old(self).task(),
            final(self).entries() == old(self).entries(),
            final(self).stage() == flash_next(old(self).task(), old(self).entries(), old(self).stage(), event).0,
            carries_out(s, flash_next(old(self).task(), old(self).entries(), old(self).stage(), event).1),
    {
        proof {
            use_type_invariant(&*self);
        }
        let stage = self.stage;
        match event {
            FlashEvent::Failed(e) => {
                self.stage = FlashStage::Done;
                match self.task {
                    FlashTask::Load => FlashStep::Loaded(Err(e)),
                    _ => FlashStep::Finished(Err(e)),
                }
            },
            event => match stage {
                FlashStage::ReadingBefore => {
                    self.stage = FlashStage::Erasing;
                    FlashStep::Perform(FlashOp::Erase { from: ADDR_OFFSET, to: ADDR_OFFSET + ERASE_SIZE as u32 })
                },
                FlashStage::Erasing => {
                    self.stage = FlashStage::CheckingErased;
                    FlashStep::Perform(FlashOp::Read { offset: ADDR_OFFSET, len: ERASE_SIZE })
                },
                FlashStage::CheckingErased => match self.task {
                    FlashTask::Clear => {
                        self.stage = FlashStage::WritingFill;
                        FlashStep::Perform(FlashOp::Write { offset: ADDR_OFFSET, data: filled(ERASE_SIZE) })
                    },
                    _ => {
                        self.stage = FlashStage::WritingEntry(0);
                        FlashStep::Perform(FlashOp::Write { offset: ADDR_OFFSET, data: entry_bytes(self.entries[0]) })
                    },
                },
                FlashStage::WritingEntry(i) => {
                    if i + 1 < ENTRY_COUNT {
                        self.stage = FlashStage::WritingEntry(i + 1);
                        let index: u32 = (i + 1) as u32;
                        FlashStep::Perform(FlashOp::Write { offset: ADDR_OFFSET + index, data: entry_bytes(self.entries[i + 1]) })
                    } else {
                        self.stage = FlashStage::Done;
                        FlashStep::Finished(Ok(()))
                    }
                },
                FlashStage::WritingFill => {
                    self.stage = FlashStage::ReadingBack;
                    FlashStep::Perform(FlashOp::Read { offset: ADDR_OFFSET, len: ERASE_SIZE })
                },
                FlashStage::ReadingBack => {
                    self.stage = FlashStage::Done;
                    FlashStep::Finished(Ok(()))
                },
                FlashStage::LoadingEntries => match event {
                    FlashEvent::WordsRead(words) => {
                        self.stage = FlashStage::Done;
                        FlashStep::Loaded(Ok(words))
                    },
                    _ => vstd::pervasive::unreached(),
                },
                FlashStage::Done => vstd::pervasive::unreached(),
            },
        }
    }
}

/// A failed operation ends any job at once, reporting that very error.
pub proof fn lemma_flash_failure_ends_job(task: FlashTask, entries: Seq<u32>, stage: FlashStage, error: FlashError)
    ensures
        flash_next(task, entries, stage, FlashEvent::Failed(error)).0 == FlashStage::Done,
        flash_next(task, entries, stage, FlashEvent::Failed(error)).1 == if task == FlashTask::Load {
            FlashPlan::Deliver(Err(error))
        } else {
            FlashPlan::Finish(Err(error))
        },
{
}

/// Nothing is written to flash before the sector has been erased and read
/// back as erased: the first write of a job comes right after such a read,
/// and every later write right after the write before it.
pub proof fn lemma_flash_writes_follow_erase(task: FlashTask, entries: Seq<u32>, stage: FlashStage, event: FlashEvent)
    requires
        event_fits(stage, event),
    ensures
        ({
            let plan = flash_next(task, entries, stage, event).1;
            (plan is WriteEntry || plan is WriteFill) ==> {
                ||| stage == FlashStage::CheckingErased && (event matches FlashEvent::ReadBack(bytes) && all_erased(bytes@))
                ||| stage is WritingEntry && event is Completed
            }
        }),
{
}

/// Storing writes entry `i` at `ADDR_OFFSET + i`, in increasing order of
/// `i`, and reports success after the last entry.
pub proof fn lemma_store_writes_entries_in_order(entries: Seq<u32>, i: usize)
    requires
        i < ENTRY_COUNT,
    ensures
        flash_next(FlashTask::Store, entries, FlashStage::WritingEntry(i), FlashEvent::Completed) == if i + 1 < ENTRY_COUNT {
            (
                FlashStage::WritingEntry((i + 1) as usize),
                FlashPlan::WriteEntry { offset: (ADDR_OFFSET + i + 1) as u32, value: entries[i + 1] },
            )
        } else {
            (FlashStage::Done, FlashPlan::Finish(Ok(())))
        },
{
}

/// Every operation a job plans stays inside the entry sector, and the
/// sector lies inside the flash.
pub proof fn lemma_flash_stays_in_sector(task: FlashTask, entries: Seq<u32>, stage: FlashStage, event: FlashEvent)
    requires
        stage matches FlashStage::WritingEntry(i) ==> i < ENTRY_COUNT,
        event_fits(stage, event),
    ensures
        ADDR_OFFSET + ERASE_SIZE <= FLASH_SIZE,
        match flash_next(task, entries, stage, event).1 {
            FlashPlan::Read { offset, len } => ADDR_OFFSET <= offset && offset + len <= ADDR_OFFSET + ERASE_SIZE,
            FlashPlan::Erase { from, to } => from == ADDR_OFFSET && to == ADDR_OFFSET + ERASE_SIZE,
            FlashPlan::WriteEntry { offset, value } => ADDR_OFFSET <= offset && offset + 4 <= ADDR_OFFSET + ERASE_SIZE,
            FlashPlan::WriteFill { offset, len } => ADDR_OFFSET <= offset && offset + len <= ADDR_OFFSET + ERASE_SIZE,
            FlashPlan::ReadWords { offset, count } => ADDR_OFFSET <= offset && offset + 4 * count <= ADDR_OFFSET + ERASE_SIZE,
            _ => true,
        },
{
}

/// What the entry sector holds after `plan` went through, as flash
/// behaves: erasing sets the erased range to `ERASED_BYTE`, a write stores
/// its bytes, a read changes nothing. Byte `k` of `sector` lies at address
/// `ADDR_OFFSET + k`; entries are written in the machine's byte order.
pub open spec fn sector_after(sector: Seq<u8>, plan: FlashPlan) -> Seq<u8> {
    match plan {
        FlashPlan::Erase { from, to } => Seq::new(
            sector.len(),
            |k: int| if from <= ADDR_OFFSET + k < to { ERASED_BYTE } else { sector[k] },
        ),
        FlashPlan::WriteFill { offset, len } => Seq::new(
            sector.len(),
            |k: int| if offset <= ADDR_OFFSET + k < offset + len { FILL_BYTE } else { sector[k] },
        ),
        FlashPlan::WriteEntry { offset, value } => Seq::new(
            sector.len(),
            |k: int|
                if offset <= ADDR_OFFSET + k < offset + 4 {
                    native_order_bytes(value)[ADDR_OFFSET + k - offset]
                } else {
                    sector[k]
                },
        ),
        _ => sector,
    }
}

/// Word `i` of the sector as a background read delivers it, in the
/// machine's byte order.
pub open spec fn sector_word(sector: Seq<u8>, i: int) -> int {
    let b = sector.subrange(4 * i, 4 * i + 4);
    if vstd::endian::endianness() == vstd::endian::Endian::Little {
        b[0] + 256 * b[1] + 65536 * b[2] + 16777216 * b[3]
    } else {
        b[3] + 256 * b[2] + 65536 * b[1] + 16777216 * b[0]
    }
}

/// Clearing, then reading the entries back, gives 64 words `0xDADADADA`:
/// the clear job erases the sector and, once it reads as erased, fills the
/// whole of it with `FILL_BYTE`, whatever it held before and whatever the
/// byte order; the read job then reads the 64 words at the sector's start.
pub proof fn lemma_clear_then_read_gives_fill(
    sector: Seq<u8>,
    first_read: FlashEvent,
    erased_read: FlashEvent,
)
    requires
        sector.len() == ERASE_SIZE,
        event_fits(FlashStage::ReadingBefore, first_read),
        !(first_read is Failed),
        event_fits(FlashStage::CheckingErased, erased_read),
        !(erased_read is Failed),
    ensures
        ({
            let none = Seq::<u32>::empty();
            let erase = flash_next(FlashTask::Clear, none, FlashStage::ReadingBefore, first_read);
            let check = flash_next(FlashTask::Clear, none, erase.0, FlashEvent::Completed);
            let fill = flash_next(FlashTask::Clear, none, check.0, erased_read);
            let cleared = sector_after(sector_after(sector, erase.1), fill.1);
            &&& check.0 == FlashStage::CheckingErased
            &&& fill.0 == FlashStage::WritingFill
            &&& forall|i: int| 0 <= i < ENTRY_COUNT ==> #[trigger] sector_word(cleared, i) == 0xDADADADA
        }),
        forall|words: Vec<u32>|
            #[trigger] flash_next(FlashTask::Load, Seq::empty(), FlashStage::LoadingEntries, FlashEvent::WordsRead(words))
                == (FlashStage::Done, FlashPlan::Deliver(Ok(words@))),
{
    let none = Seq::<u32>::empty();
    let erase = flash_next(FlashTask::Clear, none, FlashStage::ReadingBefore, first_read);
    let check = flash_next(FlashTask::Clear, none, erase.0, FlashEvent::Completed);
    let fill = flash_next(FlashTask::Clear, none, check.0, erased_read);
    let cleared = sector_after(sector_after(sector, erase.1), fill.1);
    assert forall|k: int| 0 <= k < ERASE_SIZE implies cleared[k] == FILL_BYTE by {}
    assert forall|i: int| 0 <= i < ENTRY_COUNT implies #[trigger] sector_word(cleared, i) == 0xDADADADA by {
        let b = cleared.subrange(4 * i, 4 * i + 4);
        assert(b[0] == FILL_BYTE && b[1] == FILL_BYTE && b[2] == FILL_BYTE && b[3] == FILL_BYTE);
    }
}

/// Whether every byte reads as erased.
pub fn is_erased(bytes: &[u8]) -> (b: bool)
    ensures
        b == all_erased(bytes@),
{
    let mut i: usize = 0;
    while i < bytes.len()
        invariant
            i <= bytes@.len(),
            forall|j: int| 0 <= j < i ==> #[trigger] bytes@[j] == ERASED_BYTE,
        decreases bytes@.len() - i,
    {
        if bytes[i] != ERASED_BYTE {
            return false;
        }
        i = i + 1;
    }
    true
}

/// `len` copies of `FILL_BYTE`.
fn filled(len: usize) -> (v: Vec<u8>)
    ensures
        v@ == Seq::new(len as nat, |i: int| FILL_BYTE),
{
    let mut v: Vec<u8> = Vec::new();
    let mut i: usize = 0;
    while i < len
        invariant
            i <= len,
            v@ == Seq::new(i as nat, |j: int| FILL_BYTE),
        decreases len - i,
    {
        v.push(FILL_BYTE);
        assert(v@ =~= Seq::new((i + 1) as nat, |j: int| FILL_BYTE));
        i = i + 1;
    }
    v
}

/// The bytes of an entry as they are written to flash.
fn entry_bytes(value: u32) -> (v: Vec<u8>)
    ensures
        v@ == native_order_bytes(value),
{
    let b = native_bytes(value);
    let v = vec![b[0], b[1], b[2], b[3]];
    assert(v@ =~= b@);
    v
}

/// Storing writes every entry, whatever its value: once the sector reads
/// as erased the job writes entry 0 at `ADDR_OFFSET`, and while storing it
/// reports success only when the write of the last entry (entry 63)
/// completed.
pub proof fn lemma_store_writes_every_entry(entries: Seq<u32>, stage: FlashStage, event: FlashEvent)
    requires
        event_fits(stage, event),
        stage == FlashStage::ReadingBefore || stage == FlashStage::Erasing || stage == FlashStage::CheckingErased
            || (stage matches FlashStage::WritingEntry(k) && k < ENTRY_COUNT),
    ensures
        stage == FlashStage::CheckingErased && !(event is Failed) ==> flash_next(FlashTask::Store, entries, stage, event) == (
            FlashStage::WritingEntry(0),
            FlashPlan::WriteEntry { offset: ADDR_OFFSET, value: entries[0] },
        ),
        flash_next(FlashTask::Store, entries, stage, event).1 == FlashPlan::Finish(Ok(())) ==> stage
            == FlashStage::WritingEntry(63) && event is Completed,
        (stage matches FlashStage::WritingEntry(k) && k < 63) && event is Completed ==> (flash_next(
            FlashTask::Store,
            entries,
            stage,
            event,
        ).1 matches FlashPlan::WriteEntry { offset, value } && offset == ADDR_OFFSET + stage->WritingEntry_0 + 1
            && value == entries[stage->WritingEntry_0 + 1]),
{
}

} // verus!
