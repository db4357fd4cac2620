use vstd::prelude::*;
use vstd::string::*;

use crate::error::GenesisError;

verus! {

/// Largest chain identifier that the engine accepts, in bytes.
pub const MAX_CHAIN_ID_LEN: usize = 50;

/// Largest serialized block: 6 MiB of transactions and 10 MiB reserved for
/// evidence, headers and encoding overhead.
pub const MAX_BLOCK_BYTES: u64 = 16777216;

/// Gas is metered by the application, so the engine's limit is switched off.
pub const DISABLED_GAS: i64 = -1;

/// The engine's default minimum time increment between blocks.
pub const DEFAULT_TIME_IOTA_MS: i64 = 1000;

pub open spec fn is_leap_year(year: int) -> bool {
    (year % 4 == 0 && year % 100 != 0) || year % 400 == 0
}

pub open spec fn days_in_month(year: int, month: int) -> int {
    if month == 2 {
        if is_leap_year(year) { 29 } else { 28 }
    } else if month == 4 || month == 6 || month == 9 || month == 11 {
        30
    } else {
        31
    }
}

/// A UTC instant as calendar fields, to the nanosecond.
#[derive(Debug, Clone, Copy, PartialEq, Eq, Structural)]
pub struct DateTimeUtc {
    pub year: i32,
    pub month: u8,
    pub day: u8,
    pub hour: u8,
    pub minute: u8,
    pub second: u8,
    pub nanos: u32,
}

impl DateTimeUtc {
    /// The fields name a real instant.
    pub open spec fn wf(&self) -> bool {
        1 <= self.month <= 12 && 1 <= self.day <= days_in_month(self.year as int, self.month as int)
            && self.hour < 24 && self.minute < 60 && self.second < 60 && self.nanos < 1_000_000_000
    }
}

/// An instant as the engine holds it: calendar years 1 to 9999.
#[derive(Debug, Clone, Copy, PartialEq, Eq, Structural)]
pub struct EngineTime {
    pub year: u16,
    pub month: u8,
    pub day: u8,
    pub hour: u8,
    pub minute: u8,
    pub second: u8,
    pub nanos: u32,
}

/// The instants that the engine can represent.
pub open spec fn in_engine_range(t: DateTimeUtc) -> bool {
    1 <= t.year <= 9999
}

pub open spec fn engine_time_of(t: DateTimeUtc) -> EngineTime {
    EngineTime {
        year: t.year as u16,
        month: t.month,
        day: t.day,
        hour: t.hour,
        minute: t.minute,
        second: t.second,
        nanos: t.nanos,
    }
}

pub open spec fn utc_of(e: EngineTime) -> DateTimeUtc {
    DateTimeUtc {
        year: e.year as i32,
        month: e.month,
        day: e.day,
        hour: e.hour,
        minute: e.minute,
        second: e.second,
        nanos: e.nanos,
    }
}

/// Converts a UTC instant into the engine's time, which fails outside the
/// years that the engine represents.
pub fn to_engine_time(t: &DateTimeUtc) -> (r: Result<EngineTime, GenesisError>)
    ensures
        in_engine_range(*t) <==> r is Ok,
        r matches Ok(e) ==> e == engine_time_of(*t),
        r matches Err(e) ==> e == GenesisError::TimeOutOfRange,
{
    if 1 <= t.year && t.year <= 9999 {
        Ok(EngineTime {
            year: t.year as u16,
            month: t.month,
            day: t.day,
            hour: t.hour,
            minute: t.minute,
            second: t.second,
            nanos: t.nanos,
        })
    } else {
        Err(GenesisError::TimeOutOfRange)
    }
}

/// Reads an engine time back as a UTC instant.
pub fn from_engine_time(e: &EngineTime) -> (r: DateTimeUtc)
    ensures
        r == utc_of(*e),
{
    DateTimeUtc {
        year: e.year as i32,
        month: e.month,
        day: e.day,
        hour: e.hour,
        minute: e.minute,
        second: e.second,
        nanos: e.nanos,
    }
}

/// Converting a UTC instant that the engine can represent into engine time
/// and back gives the same instant, to the nanosecond.
pub proof fn lemma_genesis_time_lossless(t: DateTimeUtc)
    requires
        t.wf(),
        in_engine_range(t),
    ensures
        utc_of(engine_time_of(t)) == t,
{
}

/// The decimal digits of `v`, left-padded with zeros to `width`.
pub open spec fn padded_digits(v: nat, width: nat) -> Seq<char>
    decreases width,
{
    if width == 0 {
        Seq::empty()
    } else {
        padded_digits(v / 10, (width - 1) as nat) + seq![decimal_digit((v % 10) as u8)]
    }
}

pub open spec fn decimal_digit(n: u8) -> char {
    "0123456789"@[n as int]
}

/// RFC 3339 text of an engine time, with nine fractional digits.
pub open spec fn rfc3339(e: EngineTime) -> Seq<char> {
    padded_digits(e.year as nat, 4) + "-"@ + padded_digits(e.month as nat, 2) + "-"@
        + padded_digits(e.day as nat, 2) + "T"@ + padded_digits(e.hour as nat, 2) + ":"@
        + padded_digits(e.minute as nat, 2) + ":"@ + padded_digits(e.second as nat, 2) + "."@
        + padded_digits(e.nanos as nat, 9) + "Z"@
}

fn decimal_digit_str(n: u8) -> (r: &'static str)
    requires
        n < 10,
    ensures
        r@ == seq![decimal_digit(n)],
{
    let digits: &'static str = "0123456789";
    proof {
        reveal_strlit("0123456789");
    }
    let r = digits.substring_char(n as usize, n as usize + 1);
    assert(r@ =~= seq![decimal_digit(n)]);
    r
}

fn append_padded(out: &mut String, v: u32, width: u32)
    ensures
        final(out)@ == old(out)@ + padded_digits(v as nat, width as nat),
    decreases width,
{
    if width == 0 {
        assert(old(out)@ + padded_digits(v as nat, 0) =~= old(out)@);
        return;
    }
    append_padded(out, v / 10, width - 1);
    out.append(decimal_digit_str((v % 10) as u8));
    assert(final(out)@ =~= old(out)@ + padded_digits(v as nat, width as nat));
}

/// Renders an engine time as the genesis document writes it.
pub fn to_rfc3339(e: &EngineTime) -> (r: String)
    ensures
        r@ == rfc3339(*e),
{
    let mut out = String::new();
    append_padded(&mut out, e.year as u32, 4);
    out.append("-");
    append_padded(&mut out, e.month as u32, 2);
    out.append("-");
    append_padded(&mut out, e.day as u32, 2);
    out.append("T");
    append_padded(&mut out, e.hour as u32, 2);
    out.append(":");
    append_padded(&mut out, e.minute as u32, 2);
    out.append(":");
    append_padded(&mut out, e.second as u32, 2);
    out.append(".");
    append_padded(&mut out, e.nanos, 9);
    out.append("Z");
    assert(out@ =~= rfc3339(*e));
    out
}

/// A chain identifier that the engine accepts: 1 to 50 bytes.
pub open spec fn valid_chain_id(id: &str) -> bool {
    0 < id.spec_bytes().len() <= MAX_CHAIN_ID_LEN
}

/// The block-size parameters of the genesis consensus parameters.
#[derive(Debug, Clone, Copy, PartialEq, Eq, Structural)]
pub struct BlockSize {
    pub max_bytes: u64,
    pub max_gas: i64,
    pub time_iota_ms: i64,
}

/// The block-size parameters that this node requires.
pub open spec fn required_block_size() -> BlockSize {
    BlockSize { max_bytes: MAX_BLOCK_BYTES, max_gas: DISABLED_GAS, time_iota_ms: DEFAULT_TIME_IOTA_MS }
}

/// The fields of the engine's genesis document that this node sets.
#[derive(Debug, Clone)]
pub struct GenesisDoc {
    pub chain_id: String,
    pub genesis_time: EngineTime,
    pub block: BlockSize,
}

/// Sets the chain identifier, the genesis time and the block-size
/// parameters of the genesis document. On an error the document is left
/// as it was.
pub fn patch_genesis(doc: &mut GenesisDoc, chain_id: &str, genesis_time: &DateTimeUtc) -> (r: Result<(), GenesisError>)
    ensures
        r is Ok <==> (valid_chain_id(chain_id) && in_engine_range(*genesis_time)),
        !valid_chain_id(chain_id) ==> r == Err::<(), GenesisError>(GenesisError::InvalidChainId),
        valid_chain_id(chain_id) && !in_engine_range(*genesis_time)
            ==> r == Err::<(), GenesisError>(GenesisError::TimeOutOfRange),
        r is Ok ==> final(doc).chain_id@ == chain_id@
            && final(doc).genesis_time == engine_time_of(*genesis_time)
            && final(doc).block == required_block_size(),
        r is Err ==> *final(doc) == *old(doc),
{
    let len = chain_id.as_bytes().len();
    if len == 0 || len > MAX_CHAIN_ID_LEN {
        return Err(GenesisError::InvalidChainId);
    }
    let time = match to_engine_time(genesis_time) {
        Ok(t) => t,
        Err(e) => return Err(e),
    };
    doc.chain_id = chain_id.to_owned();
    doc.genesis_time = time;
    doc.block = BlockSize { max_bytes: MAX_BLOCK_BYTES, max_gas: DISABLED_GAS, time_iota_ms: DEFAULT_TIME_IOTA_MS };
    Ok(())
}

} // verus!
