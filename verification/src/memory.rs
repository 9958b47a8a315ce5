//! Capturing the memory of a running process: the walk over its address
//! space, region by region, and the decisions of the harvest. The calls to
//! the operating system are the caller's: it performs each action that the
//! harvester asks for and hands back what happened.

use vstd::prelude::*;
use vstd::string::*;

verus! {

/// The walk ends when the cursor reaches this address.
pub const MAX_USER_ADDRESS: u64 = 0x7FFF_FFFF_FFFF;

/// The commit state of a region whose pages are backed by memory.
pub const MEM_COMMIT: u32 = 0x1000;

pub const PAGE_READONLY: u32 = 0x02;

pub const PAGE_READWRITE: u32 = 0x04;

pub const PAGE_EXECUTE_READ: u32 = 0x20;

pub const PAGE_EXECUTE_READWRITE: u32 = 0x40;

/// One contiguous range of a process's address space, as the operating
/// system reports it.
#[derive(Debug, Clone, Copy, PartialEq, Eq, Structural)]
pub struct MemoryRegion {
    pub base_address: u64,
    pub size: u64,
    pub protection: u32,
    pub state: u32,
}

impl MemoryRegion {
    /// The address right after the region.
    pub open spec fn end(self) -> int {
        self.base_address + self.size
    }

    /// The region is committed and one of the four readable protections is
    /// set: read-only, read-write, execute-read, execute-read-write.
    pub open spec fn harvestable(self) -> bool {
        &&& self.state == MEM_COMMIT
        &&& (self.protection & PAGE_READONLY != 0 || self.protection & PAGE_READWRITE != 0
            || self.protection & PAGE_EXECUTE_READ != 0 || self.protection
            & PAGE_EXECUTE_READWRITE != 0)
    }

    /// Whether the region's bytes are to be read.
    pub fn is_harvestable(&self) -> (r: bool)
        ensures
            r == self.harvestable(),
    {
        self.state == MEM_COMMIT && (self.protection & PAGE_READONLY != 0 || self.protection
            & PAGE_READWRITE != 0 || self.protection & PAGE_EXECUTE_READ != 0 || self.protection
            & PAGE_EXECUTE_READWRITE != 0)
    }
}

/// The state of a walk: where the next query goes, and whether the walk
/// has ended.
pub struct WalkView {
    pub address: int,
    pub halted: bool,
}

impl WalkView {
    /// The walk goes on: it has not ended, and the cursor is below the
    /// highest user-mode address.
    pub open spec fn active(self) -> bool {
        !self.halted && self.address < MAX_USER_ADDRESS
    }

    /// The state after a query was answered, and the region that the walk
    /// yields. A query that failed, or a region of size zero, ends the walk.
    /// Any other region is yielded, and the cursor moves to its end; a
    /// region that ends beyond the address range ends the walk.
    pub open spec fn advance(self, reply: Option<MemoryRegion>) -> (WalkView, Option<MemoryRegion>) {
        if !self.active() {
            (WalkView { address: self.address, halted: true }, None)
        } else {
            match reply {
                Some(region) => if region.size == 0 {
                    (WalkView { address: self.address, halted: true }, None)
                } else if region.end() > u64::MAX {
                    (WalkView { address: self.address, halted: true }, Some(region))
                } else {
                    (WalkView { address: region.end(), halted: false }, Some(region))
                },
                None => (WalkView { address: self.address, halted: true }, None),
            }
        }
    }
}

/// Where the reply describes the region that holds the cursor, the walk
/// moves forward: it ends, or the cursor grows.
pub proof fn lemma_walk_moves_forward(walk: WalkView, region: MemoryRegion)
    requires
        region.base_address <= walk.address < region.end(),
    ensures
        walk.advance(Some(region)).0.halted || walk.advance(Some(region)).0.address > walk.address,
{
}

/// A walk that has ended yields nothing more, whatever the replies.
pub proof fn lemma_walk_stays_halted(walk: WalkView, reply: Option<MemoryRegion>)
    requires
        !walk.active(),
    ensures
        walk.advance(reply).1 is None,
        !walk.advance(reply).0.active(),
{
}

/// Enumerates the regions of an address space from address 0 upward.
#[derive(Debug, Clone, Copy)]
pub struct RegionWalker {
    address: u64,
    halted: bool,
}

impl View for RegionWalker {
    type V = WalkView;

    closed spec fn view(&self) -> WalkView {
        WalkView { address: self.address as int, halted: self.halted }
    }
}

impl RegionWalker {
    /// A walk that begins at address 0.
    pub fn new() -> (walker: Self)
        ensures
            walker@ == (WalkView { address: 0, halted: false }),
    {
        RegionWalker { address: 0, halted: false }
    }

    /// The cursor: the address that the next query asks for.
    pub fn address(&self) -> (address: u64)
        ensures
            address == self@.address,
    {
        self.address
    }

    /// What a harvest waits for once it is done with a region: the next
    /// query, or nothing more.
    pub(crate) fn phase_after(&self) -> (phase: HarvestPhase)
        ensures
            phase == if self@.active() {
                HarvestPhase::Querying
            } else {
                HarvestPhase::Finished
            },
    {
        match self.next_address() {
            Some(_) => HarvestPhase::Querying,
            None => HarvestPhase::Finished,
        }
    }

    /// The address to query next; `None` once the walk has ended.
    pub fn next_address(&self) -> (address: Option<u64>)
        ensures
            match address {
                Some(a) => self@.active() && a == self@.address,
                None => !self@.active(),
            },
    {
        if !self.halted && self.address < MAX_USER_ADDRESS {
            Some(self.address)
        } else {
            None
        }
    }

    /// Takes the answer to the query at the cursor, `None` where the query
    /// failed, and returns the region that the walk yields, `None` where
    /// the walk ends.
    pub fn advance(&mut self, reply: Option<MemoryRegion>) -> (region: Option<MemoryRegion>)
        ensures
            final(self)@ == old(self)@.advance(reply).0,
            region == old(self)@.advance(reply).1,
    {
        if self.halted || self.address >= MAX_USER_ADDRESS {
            self.halted = true;
            return None;
        }
        match reply {
            Some(region) => {
                if region.size == 0 {
                    self.halted = true;
                    None
                } else {
                    match region.base_address.checked_add(region.size) {
                        Some(end) => {
                            self.address = end;
                        },
                        None => {
                            self.halted = true;
                        },
                    }
                    Some(region)
                }
            },
            None => {
                self.halted = true;
                None
            },
        }
    }
}

/// A character as it counts when names are compared without regard to
/// case: a capital letter counts as its small letter, and so does the Kelvin
/// sign, whose small letter is `k`.
pub open spec fn folded(c: char) -> char {
    if 'A' <= c <= 'Z' {
        ((c as u32) + 32) as char
    } else if c == '\u{212A}' {
        'k'
    } else {
        c
    }
}

/// The name, in small letters, is `target`.
pub open spec fn names_match(name: Seq<char>, target: Seq<char>) -> bool {
    &&& name.len() == target.len()
    &&& forall|i: int| 0 <= i < name.len() ==> folded(#[trigger] name[i]) == target[i]
}

/// The name is that of a process whose memory is captured.
pub open spec fn is_target_name(name: Seq<char>) -> bool {
    names_match(name, "hd-player.exe"@) || names_match(name, "bluestacks.exe"@)
}

fn fold(c: char) -> (r: char)
    ensures
        r == folded(c),
{
    if 'A' <= c && c <= 'Z' {
        let low: u8 = (c as u8) + 32;
        low as char
    } else if c == '\u{212A}' {
        'k'
    } else {
        c
    }
}

fn matches_name(name: &str, target: &str) -> (r: bool)
    ensures
        r == names_match(name@, target@),
{
    let n: usize = name.unicode_len();
    if n != target.unicode_len() {
        return false;
    }
    let mut i: usize = 0;
    while i < n
        invariant
            i <= n == name@.len() == target@.len(),
            forall|j: int| 0 <= j < i ==> folded(#[trigger] name@[j]) == target@[j],
        decreases n - i,
    {
        if fold(name.get_char(i)) != target.get_char(i) {
            return false;
        }
        i += 1;
    }
    true
}

/// Whether a process of this name is one whose memory is captured: the
/// name, compared without regard to case, is `hd-player.exe` or
/// `bluestacks.exe`.
pub fn is_target_process(name: &str) -> (r: bool)
    ensures
        r == is_target_name(name@),
{
    matches_name(name, "hd-player.exe") || matches_name(name, "bluestacks.exe")
}

/// What the caller reports to the harvester.
#[derive(Debug, Clone, Copy, PartialEq, Eq, Structural)]
pub enum HarvestEvent {
    /// The answer to a region query; `None` where the query failed.
    Queried(Option<MemoryRegion>),
    /// The number of bytes that a read returned; `None` where it failed.
    ReadDone(Option<u64>),
    /// Whether the bytes were appended to the output.
    Written(bool),
}

/// What the harvester asks the caller to do next.
#[derive(Debug, Clone, Copy, PartialEq, Eq, Structural)]
pub enum HarvestAction {
    /// Query the region that holds this address.
    Query(u64),
    /// Read the whole region in one request.
    Read(MemoryRegion),
    /// Append this many bytes, the first of what the read returned.
    Write(u64),
    /// The harvest is complete; this many bytes were written.
    Finish(u64),
    /// The output failed; the harvest is given up.
    Abort,
}

/// What the harvester waits for.
#[derive(Debug, Clone, Copy, PartialEq, Eq, Structural)]
pub enum HarvestPhase {
    Querying,
    Reading(MemoryRegion),
    Writing(u64),
    Finished,
    Aborted,
}

/// The state of a harvest.
pub struct HarvestView {
    pub walk: WalkView,
    pub phase: HarvestPhase,
    pub total: int,
}

impl HarvestView {
    /// The state of a harvest that has read nothing yet.
    pub open spec fn initial() -> HarvestView {
        HarvestView {
            walk: WalkView { address: 0, halted: false },
            phase: HarvestPhase::Querying,
            total: 0,
        }
    }

    /// The action that the harvest waits on.
    pub open spec fn pending(self) -> HarvestAction {
        match self.phase {
            HarvestPhase::Querying => HarvestAction::Query(self.walk.address as u64),
            HarvestPhase::Reading(region) => HarvestAction::Read(region),
            HarvestPhase::Writing(count) => HarvestAction::Write(count),
            HarvestPhase::Finished => HarvestAction::Finish(self.total as u64),
            HarvestPhase::Aborted => HarvestAction::Abort,
        }
    }

    /// The harvest goes on to the next region: a query, or the end.
    pub open spec fn proceed(self) -> HarvestView {
        if self.walk.active() {
            HarvestView { phase: HarvestPhase::Querying, ..self }
        } else {
            HarvestView { phase: HarvestPhase::Finished, ..self }
        }
    }

    /// The state after an event. A region that is yielded is read if it is
    /// harvestable and passed over if not. A read that returned some bytes,
    /// and no more than the region holds, has exactly those bytes written;
    /// any other read is passed over. Bytes count once they are written; a
    /// write that failed gives the harvest up. An event that does not answer
    /// the pending action changes nothing.
    pub open spec fn next(self, event: HarvestEvent) -> HarvestView {
        match (self.phase, event) {
            (HarvestPhase::Querying, HarvestEvent::Queried(reply)) => {
                let walk = self.walk.advance(reply).0;
                match self.walk.advance(reply).1 {
                    Some(region) => if region.harvestable() {
                        HarvestView { walk, phase: HarvestPhase::Reading(region), ..self }
                    } else {
                        (HarvestView { walk, ..self }).proceed()
                    },
                    None => HarvestView { walk, phase: HarvestPhase::Finished, ..self },
                }
            },
            (HarvestPhase::Reading(region), HarvestEvent::ReadDone(outcome)) => match outcome {
                Some(count) => if 0 < count <= region.size {
                    HarvestView { phase: HarvestPhase::Writing(count), ..self }
                } else {
                    self.proceed()
                },
                None => self.proceed(),
            },
            (HarvestPhase::Writing(count), HarvestEvent::Written(done)) => if done {
                (HarvestView { total: self.total + count, ..self }).proceed()
            } else {
                HarvestView { phase: HarvestPhase::Aborted, ..self }
            },
            _ => self,
        }
    }

    /// The count of bytes written still fits after the event.
    pub open spec fn fits(self, event: HarvestEvent) -> bool {
        self.next(event).total <= u64::MAX
    }
}

/// A read that returned `count` bytes, followed by a write that succeeded,
/// adds exactly `count` to the bytes written, however many were asked for.
pub proof fn lemma_returned_bytes_are_counted(harvest: HarvestView, region: MemoryRegion, count: u64)
    requires
        harvest.phase == HarvestPhase::Reading(region),
        0 < count <= region.size,
    ensures
        harvest.next(HarvestEvent::ReadDone(Some(count))).pending() == HarvestAction::Write(count),
        harvest.next(HarvestEvent::ReadDone(Some(count))).next(HarvestEvent::Written(true)).total
            == harvest.total + count,
{
}

/// A read that failed, or returned nothing, adds nothing to the bytes
/// written and does not end the harvest with an error.
pub proof fn lemma_failed_read_is_skipped(harvest: HarvestView, region: MemoryRegion)
    requires
        harvest.phase == HarvestPhase::Reading(region),
    ensures
        harvest.next(HarvestEvent::ReadDone(None)) == harvest.proceed(),
        harvest.next(HarvestEvent::ReadDone(Some(0))) == harvest.proceed(),
        harvest.proceed().total == harvest.total,
        harvest.proceed().phase != HarvestPhase::Aborted,
{
}

/// The bytes written change only when a write has succeeded, and then by
/// the number of bytes that the read before it returned.
pub proof fn lemma_total_changes_on_write_alone(harvest: HarvestView, event: HarvestEvent)
    ensures
        harvest.next(event).total == harvest.total + match (harvest.phase, event) {
            (HarvestPhase::Writing(count), HarvestEvent::Written(true)) => count as int,
            _ => 0,
        },
{
}

/// The state after a series of events, taken in order.
pub open spec fn run(harvest: HarvestView, events: Seq<HarvestEvent>) -> HarvestView
    decreases events.len(),
{
    if events.len() == 0 {
        harvest
    } else {
        run(harvest, events.drop_last()).next(events.last())
    }
}

/// The bytes that the reads of a series of events returned and that were
/// then written: for each write that succeeded, the count of the read that
/// it followed.
pub open spec fn returned_and_written(harvest: HarvestView, events: Seq<HarvestEvent>) -> int
    decreases events.len(),
{
    if events.len() == 0 {
        0
    } else {
        returned_and_written(harvest, events.drop_last()) + match (
            run(harvest, events.drop_last()).phase,
            events.last(),
        ) {
            (HarvestPhase::Writing(count), HarvestEvent::Written(true)) => count as int,
            _ => 0,
        }
    }
}

/// After any series of events the bytes written are those that were written
/// before, and the bytes that the reads returned and that were then written.
pub proof fn lemma_total_is_what_reads_returned(harvest: HarvestView, events: Seq<HarvestEvent>)
    ensures
        run(harvest, events).total == harvest.total + returned_and_written(harvest, events),
    decreases events.len(),
{
    if events.len() > 0 {
        lemma_total_is_what_reads_returned(harvest, events.drop_last());
        lemma_total_changes_on_write_alone(run(harvest, events.drop_last()), events.last());
    }
}

/// The decisions of a harvest, one event at a time.
pub struct Harvester {
    walker: RegionWalker,
    phase: HarvestPhase,
    total: u64,
}

impl View for Harvester {
    type V = HarvestView;

    closed spec fn view(&self) -> HarvestView {
        HarvestView { walk: self.walker@, phase: self.phase, total: self.total as int }
    }
}

impl Harvester {
    /// While the harvest waits for the answer to a query, the walk goes on.
    #[verifier::type_invariant]
    spec fn queries_while_walking(self) -> bool {
        self.phase is Querying ==> self.walker@.active()
    }

    /// A harvest that has read nothing yet. Its first action is the query
    /// at address 0.
    pub fn new() -> (harvester: Self)
        ensures
            harvester@ == HarvestView::initial(),
    {
        Harvester { walker: RegionWalker::new(), phase: HarvestPhase::Querying, total: 0 }
    }

    /// The number of bytes written so far.
    pub fn total_written(&self) -> (total: u64)
        ensures
            total == self@.total,
    {
        self.total
    }

    /// The action that the harvest waits on.
    pub fn pending_action(&self) -> (action: HarvestAction)
        ensures
            action == self@.pending(),
    {
        proof {
            use_type_invariant(self);
        }
        match self.phase {
            HarvestPhase::Querying => HarvestAction::Query(self.walker.address()),
            HarvestPhase::Reading(region) => HarvestAction::Read(region),
            HarvestPhase::Writing(count) => HarvestAction::Write(count),
            HarvestPhase::Finished => HarvestAction::Finish(self.total),
            HarvestPhase::Aborted => HarvestAction::Abort,
        }
    }

    /// Takes what happened and returns what to do next.
    pub fn step(&mut self, event: HarvestEvent) -> (action: HarvestAction)
        requires
            old(self)@.fits(event),
        ensures
            final(self)@ == old(self)@.next(event),
            action == final(self)@.pending(),
    {
        let mut walker = self.walker;
        let mut phase = self.phase;
        let mut total = self.total;
        match (self.phase, event) {
            (HarvestPhase::Querying, HarvestEvent::Queried(reply)) => {
                phase =
                match walker.advance(reply) {
                    Some(region) => if region.is_harvestable() {
                        HarvestPhase::Reading(region)
                    } else {
                        walker.phase_after()
                    },
                    None => HarvestPhase::Finished,
                };
            },
            (HarvestPhase::Reading(region), HarvestEvent::ReadDone(outcome)) => {
                phase =
                match outcome {
                    Some(count) => if 0 < count && count <= region.size {
                        HarvestPhase::Writing(count)
                    } else {
                        walker.phase_after()
                    },
                    None => walker.phase_after(),
                };
            },
            (HarvestPhase::Writing(count), HarvestEvent::Written(done)) => {
                if done {
                    total = total + count;
                    phase = walker.phase_after();
                } else {
                    phase = HarvestPhase::Aborted;
                }
            },
            _ => {
                proof {
                    use_type_invariant(&*self);
                }
            },
        }
        *self = Harvester { walker, phase, total };
        self.pending_action()
    }
}

} // verus!
