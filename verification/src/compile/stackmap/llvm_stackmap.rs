//! The stack map section that the backend writes into an object file.
//!
//! The section begins with a header of four bytes: the version and three
//! reserved bytes. Three 32-bit counts follow: of functions, of large
//! constants and of records. Then come, in this order, one stack size
//! record of three 64-bit numbers per function, the large constants of 64
//! bits each, and the records. A record holds a 64-bit identifier, a 32-bit
//! instruction offset, 16 reserved bits, a 16-bit count of locations and
//! the locations of twelve bytes each; four bytes of padding where the
//! offset in the section is not a multiple of eight; 16 bits of padding, a
//! 16-bit count of live-out registers and the live-outs of four bytes each;
//! and again four bytes of padding where the offset is not a multiple of
//! eight. All numbers are little-endian.

use vstd::prelude::*;

verus! {

/// Why a stack map section cannot be read.
#[derive(Clone, Copy, Debug, PartialEq, Eq, Structural)]
pub enum StackmapError {
    /// The section ends in the middle of an item.
    UnexpectedEnd,
    /// A location of a kind that is not known.
    LocationKind,
}

/// A register, by its DWARF number.
#[derive(Clone, Copy, Debug, PartialEq, Eq, Structural)]
pub struct Reg(pub u16);

#[derive(Clone, Copy, Debug, PartialEq, Eq, Structural)]
pub struct Header {
    pub version: u8,
    pub reserved0: u8,
    pub reserved1: u16,
}

#[derive(Clone, Copy, Debug, PartialEq, Eq, Structural)]
pub struct StackSizeRecord {
    pub function_addr: u64,
    pub stack_size: u64,
    pub record_count: u64,
}

#[derive(Clone, Copy, Debug, PartialEq, Eq, Structural)]
pub enum LocationValue {
    /// The value is in a register.
    Register { reg: Reg },
    /// The value is the address of a frame slot.
    Direct { reg: Reg, offset: i32 },
    /// The value is spilled to a frame slot.
    Indirect { reg: Reg, offset: i32 },
    /// A small constant.
    Constant { value: u32 },
    /// A large constant, by its place among the constants.
    ConstIndex { index: u32 },
}

#[derive(Clone, Copy, Debug, PartialEq, Eq, Structural)]
pub struct Location {
    pub value: LocationValue,
    pub size: u16,
}

#[derive(Clone, Copy, Debug, PartialEq, Eq, Structural)]
pub struct LiveOut {
    pub reg: Reg,
    pub size_in_bytes: u8,
}

#[derive(Clone, Debug, PartialEq, Eq)]
pub struct StackMapRecord {
    pub patchpoint_id: u64,
    pub inst_offset: u32,
    pub locations: Vec<Location>,
    pub live_outs: Vec<LiveOut>,
}

pub struct StackMapRecordView {
    pub patchpoint_id: u64,
    pub inst_offset: u32,
    pub locations: Seq<Location>,
    pub live_outs: Seq<LiveOut>,
}

impl View for StackMapRecord {
    type V = StackMapRecordView;

    open spec fn view(&self) -> StackMapRecordView {
        StackMapRecordView {
            patchpoint_id: self.patchpoint_id,
            inst_offset: self.inst_offset,
            locations: self.locations@,
            live_outs: self.live_outs@,
        }
    }
}

#[derive(Clone, Debug, PartialEq, Eq)]
pub struct Stackmap {
    pub header: Header,
    pub stack_size_records: Vec<StackSizeRecord>,
    pub constants: Vec<u64>,
    pub stackmap_records: Vec<StackMapRecord>,
}

pub struct StackmapView {
    pub header: Header,
    pub stack_size_records: Seq<StackSizeRecord>,
    pub constants: Seq<u64>,
    pub stackmap_records: Seq<StackMapRecordView>,
}

impl View for Stackmap {
    type V = StackmapView;

    open spec fn view(&self) -> StackmapView {
        StackmapView {
            header: self.header,
            stack_size_records: self.stack_size_records@,
            constants: self.constants@,
            stackmap_records: self.stackmap_records@.map_values(|r: StackMapRecord| r@),
        }
    }
}

/// The number that the `n` bytes at `at` hold, the lowest byte first.
pub open spec fn le(b: Seq<u8>, at: int, n: nat) -> nat
    decreases n,
{
    if n == 0 {
        0
    } else {
        b[at] as nat + 256 * le(b, at + 1, (n - 1) as nat)
    }
}

/// The signed number with the bit pattern `v`.
pub open spec fn signed32(v: nat) -> int {
    if v < 0x8000_0000 {
        v as int
    } else {
        v - 0x1_0000_0000
    }
}

/// An item that was read, and the offset of what follows it.
pub struct Parsed<T> {
    pub value: T,
    pub next: int,
}

pub open spec fn need(b: Seq<u8>, at: int, n: int) -> bool {
    0 <= at && at + n <= b.len()
}

pub open spec fn end<T>() -> Result<Parsed<T>, StackmapError> {
    Err(StackmapError::UnexpectedEnd)
}

pub open spec fn header_at(b: Seq<u8>, at: int) -> Result<Parsed<Header>, StackmapError> {
    if !need(b, at, 4) {
        end()
    } else {
        Ok(
            Parsed {
                value: Header {
                    version: b[at],
                    reserved0: b[at + 1],
                    reserved1: le(b, at + 2, 2) as u16,
                },
                next: at + 4,
            },
        )
    }
}

pub open spec fn size_record_at(b: Seq<u8>, at: int) -> Result<
    Parsed<StackSizeRecord>,
    StackmapError,
> {
    if !need(b, at, 24) {
        end()
    } else {
        Ok(
            Parsed {
                value: StackSizeRecord {
                    function_addr: le(b, at, 8) as u64,
                    stack_size: le(b, at + 8, 8) as u64,
                    record_count: le(b, at + 16, 8) as u64,
                },
                next: at + 24,
            },
        )
    }
}

pub open spec fn constant_at(b: Seq<u8>, at: int) -> Result<Parsed<u64>, StackmapError> {
    if !need(b, at, 8) {
        end()
    } else {
        Ok(Parsed { value: le(b, at, 8) as u64, next: at + 8 })
    }
}

/// The location at `at`: its kind, a reserved byte, its size, the register,
/// 16 reserved bits, and the offset or the constant.
pub open spec fn location_at(b: Seq<u8>, at: int) -> Result<Parsed<Location>, StackmapError> {
    if !need(b, at, 12) {
        end()
    } else {
        let kind = b[at];
        let size = le(b, at + 2, 2) as u16;
        let reg = Reg(le(b, at + 4, 2) as u16);
        let raw = le(b, at + 8, 4);
        let offset = signed32(raw) as i32;
        let value = if kind == 1 {
            Some(LocationValue::Register { reg })
        } else if kind == 2 {
            Some(LocationValue::Direct { reg, offset })
        } else if kind == 3 {
            Some(LocationValue::Indirect { reg, offset })
        } else if kind == 4 {
            Some(LocationValue::Constant { value: raw as u32 })
        } else if kind == 5 {
            Some(LocationValue::ConstIndex { index: raw as u32 })
        } else {
            None
        };
        match value {
            Some(value) => Ok(Parsed { value: Location { value, size }, next: at + 12 }),
            None => Err(StackmapError::LocationKind),
        }
    }
}

pub open spec fn live_out_at(b: Seq<u8>, at: int) -> Result<Parsed<LiveOut>, StackmapError> {
    if !need(b, at, 4) {
        end()
    } else {
        Ok(
            Parsed {
                value: LiveOut { reg: Reg(le(b, at, 2) as u16), size_in_bytes: b[at + 3] },
                next: at + 4,
            },
        )
    }
}

/// `n` stack size records in a row, from `at` on.
pub open spec fn size_records_at(b: Seq<u8>, at: int, n: nat) -> Result<Parsed<Seq<StackSizeRecord>>, StackmapError>
    decreases n,
{
    if n == 0 {
        Ok(Parsed { value: seq![], next: at })
    } else {
        match size_records_at(b, at, (n - 1) as nat) {
            Err(e) => Err(e),
            Ok(p) => match size_record_at(b, p.next) {
                Err(e) => Err(e),
                Ok(q) => Ok(Parsed { value: p.value.push(q.value), next: q.next }),
            },
        }
    }
}

/// `n` large constants in a row, from `at` on.
pub open spec fn constants_at(b: Seq<u8>, at: int, n: nat) -> Result<Parsed<Seq<u64>>, StackmapError>
    decreases n,
{
    if n == 0 {
        Ok(Parsed { value: seq![], next: at })
    } else {
        match constants_at(b, at, (n - 1) as nat) {
            Err(e) => Err(e),
            Ok(p) => match constant_at(b, p.next) {
                Err(e) => Err(e),
                Ok(q) => Ok(Parsed { value: p.value.push(q.value), next: q.next }),
            },
        }
    }
}

/// `n` locations in a row, from `at` on.
pub open spec fn locations_at(b: Seq<u8>, at: int, n: nat) -> Result<Parsed<Seq<Location>>, StackmapError>
    decreases n,
{
    if n == 0 {
        Ok(Parsed { value: seq![], next: at })
    } else {
        match locations_at(b, at, (n - 1) as nat) {
            Err(e) => Err(e),
            Ok(p) => match location_at(b, p.next) {
                Err(e) => Err(e),
                Ok(q) => Ok(Parsed { value: p.value.push(q.value), next: q.next }),
            },
        }
    }
}

/// `n` live-out registers in a row, from `at` on.
pub open spec fn live_outs_at(b: Seq<u8>, at: int, n: nat) -> Result<Parsed<Seq<LiveOut>>, StackmapError>
    decreases n,
{
    if n == 0 {
        Ok(Parsed { value: seq![], next: at })
    } else {
        match live_outs_at(b, at, (n - 1) as nat) {
            Err(e) => Err(e),
            Ok(p) => match live_out_at(b, p.next) {
                Err(e) => Err(e),
                Ok(q) => Ok(Parsed { value: p.value.push(q.value), next: q.next }),
            },
        }
    }
}

/// The offset after the padding at `at`: four bytes where `at` is not a
/// multiple of eight.
pub open spec fn aligned(b: Seq<u8>, at: int) -> Result<Parsed<()>, StackmapError> {
    if at % 8 == 0 {
        Ok(Parsed { value: (), next: at })
    } else if !need(b, at, 4) {
        end()
    } else {
        Ok(Parsed { value: (), next: at + 4 })
    }
}

/// What follows the locations of a record, from `at` on: the padding, the
/// live-outs, and the padding again.
pub open spec fn record_tail(
    b: Seq<u8>,
    at: int,
    patchpoint_id: u64,
    inst_offset: u32,
    locations: Seq<Location>,
) -> Result<Parsed<StackMapRecordView>, StackmapError> {
    match aligned(b, at) {
        Err(e) => Err(e),
        Ok(a) => if !need(b, a.next, 4) {
            end()
        } else {
            match live_outs_at(b, a.next + 4, le(b, a.next + 2, 2)) {
                Err(e) => Err(e),
                Ok(live_outs) => match aligned(b, live_outs.next) {
                    Err(e) => Err(e),
                    Ok(z) => Ok(
                        Parsed {
                            value: StackMapRecordView {
                                patchpoint_id,
                                inst_offset,
                                locations,
                                live_outs: live_outs.value,
                            },
                            next: z.next,
                        },
                    ),
                },
            }
        },
    }
}

pub open spec fn record_at(b: Seq<u8>, at: int) -> Result<
    Parsed<StackMapRecordView>,
    StackmapError,
> {
    if !need(b, at, 16) {
        end()
    } else {
        match locations_at(b, at + 16, le(b, at + 14, 2)) {
            Err(e) => Err(e),
            Ok(locations) => record_tail(
                b,
                locations.next,
                le(b, at, 8) as u64,
                le(b, at + 8, 4) as u32,
                locations.value,
            ),
        }
    }
}

/// `n` records in a row, from `at` on.
pub open spec fn records_at(b: Seq<u8>, at: int, n: nat) -> Result<Parsed<Seq<StackMapRecordView>>, StackmapError>
    decreases n,
{
    if n == 0 {
        Ok(Parsed { value: seq![], next: at })
    } else {
        match records_at(b, at, (n - 1) as nat) {
            Err(e) => Err(e),
            Ok(p) => match record_at(b, p.next) {
                Err(e) => Err(e),
                Ok(q) => Ok(Parsed { value: p.value.push(q.value), next: q.next }),
            },
        }
    }
}

/// The stack map that a section holds. What follows the last record is
/// not looked at.
pub open spec fn stackmap_of(b: Seq<u8>) -> Result<StackmapView, StackmapError> {
    match header_at(b, 0) {
        Err(e) => Err(e),
        Ok(header) => if !need(b, 4, 12) {
            Err(StackmapError::UnexpectedEnd)
        } else {
            match size_records_at(b, 16, le(b, 4, 4)) {
                Err(e) => Err(e),
                Ok(sizes) => match constants_at(b, sizes.next, le(b, 8, 4)) {
                    Err(e) => Err(e),
                    Ok(constants) => match records_at(b, constants.next, le(b, 12, 4)) {
                        Err(e) => Err(e),
                        Ok(records) => Ok(
                            StackmapView {
                                header: header.value,
                                stack_size_records: sizes.value,
                                constants: constants.value,
                                stackmap_records: records.value,
                            },
                        ),
                    },
                },
            }
        },
    }
}

proof fn lemma_size_records_at_error(b: Seq<u8>, at: int, n: nat, m: nat)
    requires
        n <= m,
        size_records_at(b, at, n) is Err,
    ensures
        size_records_at(b, at, m) == size_records_at(b, at, n),
    decreases m - n,
{
    if n < m {
        lemma_size_records_at_error(b, at, n, (m - 1) as nat);
    }
}

proof fn lemma_constants_at_error(b: Seq<u8>, at: int, n: nat, m: nat)
    requires
        n <= m,
        constants_at(b, at, n) is Err,
    ensures
        constants_at(b, at, m) == constants_at(b, at, n),
    decreases m - n,
{
    if n < m {
        lemma_constants_at_error(b, at, n, (m - 1) as nat);
    }
}

proof fn lemma_locations_at_error(b: Seq<u8>, at: int, n: nat, m: nat)
    requires
        n <= m,
        locations_at(b, at, n) is Err,
    ensures
        locations_at(b, at, m) == locations_at(b, at, n),
    decreases m - n,
{
    if n < m {
        lemma_locations_at_error(b, at, n, (m - 1) as nat);
    }
}

proof fn lemma_live_outs_at_error(b: Seq<u8>, at: int, n: nat, m: nat)
    requires
        n <= m,
        live_outs_at(b, at, n) is Err,
    ensures
        live_outs_at(b, at, m) == live_outs_at(b, at, n),
    decreases m - n,
{
    if n < m {
        lemma_live_outs_at_error(b, at, n, (m - 1) as nat);
    }
}

proof fn lemma_records_at_error(b: Seq<u8>, at: int, n: nat, m: nat)
    requires
        n <= m,
        records_at(b, at, n) is Err,
    ensures
        records_at(b, at, m) == records_at(b, at, n),
    decreases m - n,
{
    if n < m {
        lemma_records_at_error(b, at, n, (m - 1) as nat);
    }
}

proof fn lemma_le_bound(b: Seq<u8>, at: int, n: nat)
    ensures
        n == 2 ==> le(b, at, n) == b[at] + 256 * b[at + 1] && le(b, at, n) < 0x1_0000,
        n == 4 ==> le(b, at, n) == b[at] + 256 * b[at + 1] + 0x1_0000 * b[at + 2] + 0x100_0000
            * b[at + 3] && le(b, at, n) < 0x1_0000_0000,
        n == 8 ==> le(b, at, n) == le(b, at, 4) + 0x1_0000_0000 * le(b, at + 4, 4) && le(b, at, n)
            < 0x1_0000_0000_0000_0000,
{
    reveal_with_fuel(le, 9);
}

fn read_u16(input: &[u8], at: usize) -> (r: u16)
    requires
        at + 2 <= input@.len(),
        at + 2 <= usize::MAX,
    ensures
        r == le(input@, at as int, 2),
{
    proof {
        lemma_le_bound(input@, at as int, 2);
    }
    input[at] as u16 + 256 * (input[at + 1] as u16)
}

fn read_u32(input: &[u8], at: usize) -> (r: u32)
    requires
        at + 4 <= input@.len(),
        at + 4 <= usize::MAX,
    ensures
        r == le(input@, at as int, 4),
{
    proof {
        lemma_le_bound(input@, at as int, 4);
    }
    input[at] as u32 + 256 * (input[at + 1] as u32) + 0x1_0000 * (input[at + 2] as u32)
        + 0x100_0000 * (input[at + 3] as u32)
}

fn read_u64(input: &[u8], at: usize) -> (r: u64)
    requires
        at + 8 <= input@.len(),
        at + 8 <= usize::MAX,
    ensures
        r == le(input@, at as int, 8),
{
    proof {
        lemma_le_bound(input@, at as int, 8);
        lemma_le_bound(input@, at as int, 4);
        lemma_le_bound(input@, at + 4, 4);
    }
    read_u32(input, at) as u64 + 0x1_0000_0000 * (read_u32(input, at + 4) as u64)
}

fn available(input: &[u8], at: usize, n: usize) -> (r: bool)
    requires
        n <= 24,
    ensures
        r == need(input@, at as int, n as int),
        r ==> at + n <= usize::MAX,
{
    at <= input.len() && n <= input.len() - at
}

fn parse_location(input: &[u8], at: usize) -> (r: Result<(Location, usize), StackmapError>)
    ensures
        match location_at(input@, at as int) {
            Ok(p) => r == Ok::<(Location, usize), StackmapError>((p.value, p.next as usize))
                && p.next == at + 12 && p.next <= input@.len() && p.next <= usize::MAX,
            Err(e) => r == Err::<(Location, usize), StackmapError>(e),
        },
{
    if !available(input, at, 12) {
        return Err(StackmapError::UnexpectedEnd);
    }
    let kind = input[at];
    let size = read_u16(input, at + 2);
    let reg = Reg(read_u16(input, at + 4));
    let raw = read_u32(input, at + 8);
    let offset: i32 = if raw < 0x8000_0000 {
        raw as i32
    } else {
        (raw as i64 - 0x1_0000_0000) as i32
    };
    let value = if kind == 1 {
        LocationValue::Register { reg }
    } else if kind == 2 {
        LocationValue::Direct { reg, offset }
    } else if kind == 3 {
        LocationValue::Indirect { reg, offset }
    } else if kind == 4 {
        LocationValue::Constant { value: raw }
    } else if kind == 5 {
        LocationValue::ConstIndex { index: raw }
    } else {
        return Err(StackmapError::LocationKind);
    };
    Ok((Location { value, size }, at + 12))
}

fn parse_live_out(input: &[u8], at: usize) -> (r: Result<(LiveOut, usize), StackmapError>)
    ensures
        match live_out_at(input@, at as int) {
            Ok(p) => r == Ok::<(LiveOut, usize), StackmapError>((p.value, p.next as usize))
                && p.next == at + 4 && p.next <= input@.len() && p.next <= usize::MAX,
            Err(e) => r == Err::<(LiveOut, usize), StackmapError>(e),
        },
{
    if !available(input, at, 4) {
        return Err(StackmapError::UnexpectedEnd);
    }
    let reg = Reg(read_u16(input, at));
    Ok((LiveOut { reg, size_in_bytes: input[at + 3] }, at + 4))
}

fn skip_padding(input: &[u8], at: usize) -> (r: Result<usize, StackmapError>)
    ensures
        match aligned(input@, at as int) {
            Ok(p) => r == Ok::<usize, StackmapError>(p.next as usize) && p.next <= usize::MAX && (
            at <= input@.len() ==> p.next <= input@.len()),
            Err(e) => r == Err::<usize, StackmapError>(e),
        },
{
    if at % 8 == 0 {
        Ok(at)
    } else if !available(input, at, 4) {
        Err(StackmapError::UnexpectedEnd)
    } else {
        Ok(at + 4)
    }
}

fn parse_record(input: &[u8], at: usize) -> (r: Result<(StackMapRecord, usize), StackmapError>)
    ensures
        match record_at(input@, at as int) {
            Ok(p) => r.is_ok() && r.unwrap().0@ == p.value && r.unwrap().1 == p.next && p.next
                <= input@.len(),
            Err(e) => r is Err && r->Err_0 == e,
        },
{
    if !available(input, at, 16) {
        return Err(StackmapError::UnexpectedEnd);
    }
    let patchpoint_id = read_u64(input, at);
    let inst_offset = read_u32(input, at + 8);
    let num_locations = read_u16(input, at + 14);
    let mut locations: Vec<Location> = Vec::new();
    let mut pos = at + 16;
    let mut i: u16 = 0;
    while i < num_locations
        invariant
            i <= num_locations,
            pos <= input@.len(),
            need(input@, at as int, 16),
            num_locations == le(input@, at + 14, 2),
            locations_at(input@, at + 16, i as nat) == Ok::<Parsed<Seq<Location>>, StackmapError>(
                Parsed { value: locations@, next: pos as int },
            ),
        decreases num_locations - i,
    {
        match parse_location(input, pos) {
            Ok((l, next)) => {
                locations.push(l);
                pos = next;
            },
            Err(e) => {
                proof {
                    assert(locations_at(input@, at + 16, (i + 1) as nat) is Err);
                    lemma_locations_at_error(input@, at + 16, (i + 1) as nat, num_locations as nat);
                }
                return Err(e);
            },
        }
        i += 1;
    }
    let pos = match skip_padding(input, pos) {
        Ok(p) => p,
        Err(e) => {
            return Err(e);
        },
    };
    if !available(input, pos, 4) {
        return Err(StackmapError::UnexpectedEnd);
    }
    let num_live_outs = read_u16(input, pos + 2);
    let mut live_outs: Vec<LiveOut> = Vec::new();
    let ghost tail = pos as int;
    let start = pos + 4;
    let ghost whole = record_at(input@, at as int);
    assert(whole == match live_outs_at(input@, start as int, num_live_outs as nat) {
        Err(e) => Err(e),
        Ok(live_outs) => match aligned(input@, live_outs.next) {
            Err(e) => Err(e),
            Ok(z) => Ok(
                Parsed {
                    value: StackMapRecordView {
                        patchpoint_id,
                        inst_offset,
                        locations: locations@,
                        live_outs: live_outs.value,
                    },
                    next: z.next,
                },
            ),
        },
    });
    let mut pos = start;
    let mut j: u16 = 0;
    while j < num_live_outs
        invariant
            j <= num_live_outs,
            pos <= input@.len(),
            whole == record_at(input@, at as int),
            whole == match live_outs_at(input@, start as int, num_live_outs as nat) {
                Err(e) => Err(e),
                Ok(live_outs) => match aligned(input@, live_outs.next) {
                    Err(e) => Err(e),
                    Ok(z) => Ok(
                        Parsed {
                            value: StackMapRecordView {
                                patchpoint_id,
                                inst_offset,
                                locations: locations@,
                                live_outs: live_outs.value,
                            },
                            next: z.next,
                        },
                    ),
                },
            },
            live_outs_at(input@, start as int, j as nat) == Ok::<Parsed<Seq<LiveOut>>, StackmapError>(
                Parsed { value: live_outs@, next: pos as int },
            ),
        decreases num_live_outs - j,
    {
        match parse_live_out(input, pos) {
            Ok((l, next)) => {
                live_outs.push(l);
                pos = next;
            },
            Err(e) => {
                proof {
                    assert(live_outs_at(input@, start as int, (j + 1) as nat) is Err);
                    lemma_live_outs_at_error(input@,
                        start as int,
                        (j + 1) as nat,
                        num_live_outs as nat,
                    );
                }
                return Err(e);
            },
        }
        j += 1;
    }
    let pos = match skip_padding(input, pos) {
        Ok(p) => p,
        Err(e) => {
            return Err(e);
        },
    };
    Ok((StackMapRecord { patchpoint_id, inst_offset, locations, live_outs }, pos))
}

/// Reads a stack map section.
pub fn parse(input: &[u8]) -> (r: Result<Stackmap, StackmapError>)
    ensures
        match stackmap_of(input@) {
            Ok(map) => r.is_ok() && r.unwrap()@ == map,
            Err(e) => r is Err && r->Err_0 == e,
        },
{
    if !available(input, 0, 4) {
        return Err(StackmapError::UnexpectedEnd);
    }
    let header =
        Header { version: input[0], reserved0: input[1], reserved1: read_u16(input, 2) };
    if !available(input, 4, 12) {
        return Err(StackmapError::UnexpectedEnd);
    }
    let num_functions = read_u32(input, 4);
    let num_constants = read_u32(input, 8);
    let num_records = read_u32(input, 12);
    let mut stack_size_records: Vec<StackSizeRecord> = Vec::new();
    let mut pos: usize = 16;
    let mut i: u32 = 0;
    while i < num_functions
        invariant
            i <= num_functions,
            pos <= input@.len(),
            need(input@, 0, 4),
            need(input@, 4, 12),
            num_functions == le(input@, 4, 4),
            size_records_at(input@, 16, i as nat) == Ok::<Parsed<Seq<StackSizeRecord>>, StackmapError>(
                Parsed { value: stack_size_records@, next: pos as int },
            ),
        decreases num_functions - i,
    {
        if !available(input, pos, 24) {
            proof {
                assert(size_records_at(input@, 16, (i + 1) as nat) is Err);
                lemma_size_records_at_error(input@, 16, (i + 1) as nat, num_functions as nat);
            }
            return Err(StackmapError::UnexpectedEnd);
        }
        stack_size_records.push(
            StackSizeRecord {
                function_addr: read_u64(input, pos),
                stack_size: read_u64(input, pos + 8),
                record_count: read_u64(input, pos + 16),
            },
        );
        pos = pos + 24;
        i += 1;
    }
    let mut constants: Vec<u64> = Vec::new();
    let first_constant = pos;
    let ghost whole = stackmap_of(input@);
    assert(whole == match constants_at(input@, first_constant as int, num_constants as nat) {
        Err(e) => Err(e),
        Ok(constants) => match records_at(input@, constants.next, num_records as nat) {
            Err(e) => Err(e),
            Ok(records) => Ok(
                StackmapView {
                    header,
                    stack_size_records: stack_size_records@,
                    constants: constants.value,
                    stackmap_records: records.value,
                },
            ),
        },
    });
    let mut j: u32 = 0;
    while j < num_constants
        invariant
            j <= num_constants,
            pos <= input@.len(),
            whole == stackmap_of(input@),
            whole == match constants_at(input@, first_constant as int, num_constants as nat) {
                Err(e) => Err(e),
                Ok(constants) => match records_at(input@, constants.next, num_records as nat) {
                    Err(e) => Err(e),
                    Ok(records) => Ok(
                        StackmapView {
                            header,
                            stack_size_records: stack_size_records@,
                            constants: constants.value,
                            stackmap_records: records.value,
                        },
                    ),
                },
            },
            constants_at(input@, first_constant as int, j as nat) == Ok::<
                Parsed<Seq<u64>>,
                StackmapError,
            >(Parsed { value: constants@, next: pos as int }),
        decreases num_constants - j,
    {
        if !available(input, pos, 8) {
            proof {
                assert(constants_at(input@, first_constant as int, (j + 1) as nat) is Err);
                lemma_constants_at_error(input@, first_constant as int,
                    (j + 1) as nat,
                    num_constants as nat,
                );
            }
            return Err(StackmapError::UnexpectedEnd);
        }
        constants.push(read_u64(input, pos));
        pos = pos + 8;
        j += 1;
    }
    let mut stackmap_records: Vec<StackMapRecord> = Vec::new();
    let first_record = pos;
    assert(stackmap_records@.map_values(|r: StackMapRecord| r@) =~= Seq::<
        StackMapRecordView,
    >::empty());
    assert(whole == match records_at(input@, first_record as int, num_records as nat) {
        Err(e) => Err(e),
        Ok(records) => Ok(
            StackmapView {
                header,
                stack_size_records: stack_size_records@,
                constants: constants@,
                stackmap_records: records.value,
            },
        ),
    });
    let mut k: u32 = 0;
    while k < num_records
        invariant
            k <= num_records,
            pos <= input@.len(),
            whole == stackmap_of(input@),
            whole == match records_at(input@, first_record as int, num_records as nat) {
                Err(e) => Err(e),
                Ok(records) => Ok(
                    StackmapView {
                        header,
                        stack_size_records: stack_size_records@,
                        constants: constants@,
                        stackmap_records: records.value,
                    },
                ),
            },
            records_at(input@, first_record as int, k as nat) == Ok::<
                Parsed<Seq<StackMapRecordView>>,
                StackmapError,
            >(
                Parsed {
                    value: stackmap_records@.map_values(|r: StackMapRecord| r@),
                    next: pos as int,
                },
            ),
        decreases num_records - k,
    {
        match parse_record(input, pos) {
            Ok((r, next)) => {
                proof {
                    assert(stackmap_records@.push(r).map_values(|r: StackMapRecord| r@)
                        =~= stackmap_records@.map_values(|r: StackMapRecord| r@).push(r@));
                }
                stackmap_records.push(r);
                pos = next;
            },
            Err(e) => {
                proof {
                    assert(records_at(input@, first_record as int, (k + 1) as nat) is Err);
                    lemma_records_at_error(input@, first_record as int,
                        (k + 1) as nat,
                        num_records as nat,
                    );
                }
                return Err(e);
            },
        }
        k += 1;
    }
    Ok(Stackmap { header, stack_size_records, constants, stackmap_records })
}

} // verus!
