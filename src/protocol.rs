//! The plug's wire protocol: command frames written to its characteristic,
//! and the power state carried in its manufacturer data.
use vstd::prelude::*;

verus! {

/// Power state of the plug, as reported by it or as last commanded.
#[derive(Debug, Clone, Copy, PartialEq, Eq, Structural)]
pub enum SwitchState {
    ON,
    OFF,
}

/// The writable characteristic that takes command frames.
pub const CHARACTERISTIC_TO_DEVICE_UUID: u128 = 0xcba20002_224d_11e6_9fb8_0002a5d5c51b;

/// Offset of the state byte inside one manufacturer data entry.
pub const STATE_POS: usize = 7;

pub const ON_STATE_BYTE: u8 = 0x80;

pub const OFF_STATE_BYTE: u8 = 0x00;

/// The state flag shared by the command frame and the advertised state byte.
pub open spec fn flag_of(s: SwitchState) -> u8 {
    match s {
        SwitchState::ON => 0x80u8,
        SwitchState::OFF => 0x00u8,
    }
}

/// The six-byte command that sets the plug to `s`.
pub open spec fn frame_of(s: SwitchState) -> Seq<u8> {
    seq![0x57u8, 0x0fu8, 0x50u8, 0x01u8, 0x01u8, flag_of(s)]
}

/// What one manufacturer data entry says of the plug's state.
pub open spec fn entry_state(d: Seq<u8>) -> Option<SwitchState> {
    if d.len() <= 7 {
        None
    } else if d[7] == 0x80u8 {
        Some(SwitchState::ON)
    } else if d[7] == 0x00u8 {
        Some(SwitchState::OFF)
    } else {
        None
    }
}

/// The state given by the first entry, in order, that carries one.
pub open spec fn first_state(entries: Seq<Seq<u8>>) -> Option<SwitchState>
    decreases entries.len(),
{
    if entries.len() == 0 {
        None
    } else {
        match entry_state(entries[0]) {
            Some(s) => Some(s),
            None => first_state(entries.drop_first()),
        }
    }
}

pub open spec fn views(entries: Seq<Vec<u8>>) -> Seq<Seq<u8>> {
    entries.map_values(|e: Vec<u8>| e@)
}

/// The state that must be reached to satisfy the other one.
pub open spec fn opposite(s: SwitchState) -> SwitchState {
    match s {
        SwitchState::ON => SwitchState::OFF,
        SwitchState::OFF => SwitchState::ON,
    }
}

/// The flag byte that stands for `s`, both in a command and in the advertised data.
pub fn state_byte(s: SwitchState) -> (r: u8)
    ensures
        r == flag_of(s),
{
    match s {
        SwitchState::ON => ON_STATE_BYTE,
        SwitchState::OFF => OFF_STATE_BYTE,
    }
}

/// The command frame that switches the plug to `s`.
pub fn command_frame(s: SwitchState) -> (r: Vec<u8>)
    ensures
        r@ == frame_of(s),
{
    let r = vec![0x57u8, 0x0fu8, 0x50u8, 0x01u8, 0x01u8, state_byte(s)];
    assert(r@ =~= frame_of(s));
    r
}

/// Decodes the state byte of one manufacturer data entry; an entry too
/// short to hold it, or holding another value, gives no state.
pub fn decode_entry(d: &[u8]) -> (r: Option<SwitchState>)
    ensures
        r == entry_state(d@),
{
    if d.len() <= STATE_POS {
        None
    } else if d[STATE_POS] == ON_STATE_BYTE {
        Some(SwitchState::ON)
    } else if d[STATE_POS] == OFF_STATE_BYTE {
        Some(SwitchState::OFF)
    } else {
        None
    }
}

/// The plug's state as its manufacturer data entries report it: the first
/// entry that carries a known state byte decides; `None` if none does.
pub fn state_from_manufacturer_data(entries: &Vec<Vec<u8>>) -> (r: Option<SwitchState>)
    ensures
        r == first_state(views(entries@)),
{
    let n = entries.len();
    let mut i: usize = 0;
    assert(views(entries@).subrange(0, n as int) =~= views(entries@));
    while i < n
        invariant
            n == entries@.len(),
            i <= n,
            first_state(views(entries@)) == first_state(views(entries@).subrange(i as int, n as int)),
        decreases n - i,
    {
        proof {
            let rest = views(entries@).subrange(i as int, n as int);
            assert(rest[0] == entries@[i as int]@);
            assert(rest.drop_first() =~= views(entries@).subrange(i + 1, n as int));
        }
        let s = decode_entry(entries[i].as_slice());
        if s.is_some() {
            return s;
        }
        i = i + 1;
    }
    assert(views(entries@).subrange(n as int, n as int).len() == 0);
    None
}

/// Among the UUIDs of a peripheral's characteristics, the position of the
/// first one that takes command frames.
pub fn find_command_characteristic(uuids: &Vec<u128>) -> (r: Option<usize>)
    ensures
        r matches Some(i) ==> i < uuids@.len() && uuids@[i as int] == CHARACTERISTIC_TO_DEVICE_UUID
            && forall|j: int| 0 <= j < i ==> uuids@[j] != CHARACTERISTIC_TO_DEVICE_UUID,
        r.is_none() ==> forall|j: int| 0 <= j < uuids@.len() ==> uuids@[j] != CHARACTERISTIC_TO_DEVICE_UUID,
{
    let mut i: usize = 0;
    while i < uuids.len()
        invariant
            i <= uuids@.len(),
            forall|j: int| 0 <= j < i ==> uuids@[j] != CHARACTERISTIC_TO_DEVICE_UUID,
        decreases uuids@.len() - i,
    {
        if uuids[i] == CHARACTERISTIC_TO_DEVICE_UUID {
            return Some(i);
        }
        i = i + 1;
    }
    None
}

/// A state written at the state offset reads back as that state.
pub proof fn lemma_state_byte_round_trip(d: Seq<u8>, s: SwitchState)
    requires
        d.len() > 7,
    ensures
        entry_state(d.update(7, flag_of(s))) == Some(s),
{
}

/// Any byte at the state offset other than the two flags reads as unknown.
pub proof fn lemma_other_byte_unknown(d: Seq<u8>, b: u8)
    requires
        d.len() > 7,
        b != flag_of(SwitchState::ON),
        b != flag_of(SwitchState::OFF),
    ensures
        entry_state(d.update(7, b)).is_none(),
{
}

/// The command frame ends in the flag that the plug advertises once it is in
/// that state: the two frames differ in that byte alone.
pub proof fn lemma_frames_differ_in_flag()
    ensures
        frame_of(SwitchState::ON).len() == 6,
        frame_of(SwitchState::ON)[5] == flag_of(SwitchState::ON),
        frame_of(SwitchState::OFF)[5] == flag_of(SwitchState::OFF),
        frame_of(SwitchState::ON).subrange(0, 5) == frame_of(SwitchState::OFF).subrange(0, 5),
{
    assert(frame_of(SwitchState::ON).subrange(0, 5) =~= frame_of(SwitchState::OFF).subrange(0, 5));
}

} // verus!
